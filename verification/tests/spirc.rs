use librespot::config::{ConnectConfig, DeviceType, SessionInfo};
use librespot::metadata::{Artist, Track};
use librespot::protocol::{DeviceState, Frame, MessageType, PlayStatus, State, TrackRef};
use librespot::scrobbler::{Lookup, Request, Response, Scrobble, ScrobbleError, ScrobblerConfig, Slot};
use librespot::spirc::{
    initial_device_state, initial_state, Async, CommandSender, Spirc, SpircCommand, SpircError,
    SpircTask,
};
use librespot::util::SpotifyId;

fn scrobbler_config() -> ScrobblerConfig {
    ScrobblerConfig {
        api_key: "key".to_string(),
        api_secret: "secret".to_string(),
        username: "listener".to_string(),
        password: "hunter2".to_string(),
    }
}

fn connect_config() -> ConnectConfig {
    ConnectConfig { name: "Scrobbler".to_string(), device_type: DeviceType::Speaker }
}

fn session() -> SessionInfo {
    SessionInfo {
        device_id: "dev1".to_string(),
        username: "alice".to_string(),
        session_id: "session-7".to_string(),
        user_agent: "client-1.0".to_string(),
    }
}

fn engine(now: i64) -> (Spirc, SpircTask) {
    Spirc::new(connect_config(), &session(), scrobbler_config(), now)
}

/// An engine whose `Hello` has been flushed and whose pipeline is signed in.
fn quiet_engine() -> (Spirc, SpircTask) {
    let (mut spirc, mut task) = engine(0);
    task.flushed(1);
    task.take_requests();
    task.complete(Response::Authenticate(Ok(())));
    assert_eq!(task.poll(&mut spirc, 0), Ok(Async::NotReady));
    (spirc, task)
}

fn gid(last: u8) -> Vec<u8> {
    let mut gid = vec![0u8; 16];
    gid[15] = last;
    gid
}

fn device(name: &str, active: bool) -> DeviceState {
    DeviceState {
        sw_version: "other-2.0".to_string(),
        is_active: active,
        can_play: true,
        volume: 100,
        name: name.to_string(),
        capabilities: vec![],
    }
}

fn frame(typ: MessageType, ident: &str, recipient: &[&str]) -> Frame {
    Frame {
        version: 1,
        protocol_version: "2.0.0".to_string(),
        ident: ident.to_string(),
        seq_nr: 40,
        typ,
        recipient: recipient.iter().map(|name| name.to_string()).collect(),
        device_state: Some(device("Other", false)),
        state: None,
        state_update_id: 77,
    }
}

fn notify(ident: &str, active: bool, gids: Vec<Vec<u8>>, index: u32) -> Frame {
    let mut frame = frame(MessageType::Notify, ident, &[]);
    frame.device_state = Some(device("Other", active));
    frame.state = Some(State {
        repeat: false,
        shuffle: false,
        status: PlayStatus::Play,
        position_ms: 1234,
        position_measured_at: 5678,
        track: gids.into_iter().map(|gid| TrackRef { gid }).collect(),
        playing_track_index: index,
    });
    frame
}

fn expected_frame(typ: MessageType, seq_nr: u32, recipient: &[&str], now: i64) -> Frame {
    Frame {
        version: 1,
        protocol_version: "2.0.0".to_string(),
        ident: "dev1".to_string(),
        seq_nr,
        typ,
        recipient: recipient.iter().map(|name| name.to_string()).collect(),
        device_state: Some(initial_device_state(connect_config(), 0xFFFF, "client-1.0".to_string())),
        state: None,
        state_update_id: now,
    }
}

/// Everything of an engine that can be seen from outside.
fn snapshot(task: &SpircTask) -> String {
    format!("{:?}", task)
}

#[test]
fn construction_sends_hello() {
    let (spirc, task) = engine(1_000);
    assert_eq!(task.sender(), &vec![expected_frame(MessageType::Hello, 1, &[], 1_000)]);
    assert_eq!(task.sender()[0].seq_nr, 1);
    assert!(task.sender()[0].recipient.is_empty());
    assert_eq!(task.ident(), "dev1");
    assert_eq!(task.uri(), "hm://remote/3/user/alice/");
    assert_eq!(task.state(), &initial_state());
    assert_eq!(
        task.device(),
        &initial_device_state(connect_config(), 0xFFFF, "client-1.0".to_string())
    );
    assert!(!task.device().is_active);
    assert!(!task.is_shutdown());
    assert!(!spirc.is_closed());
}

#[test]
fn construction_starts_the_pipeline() {
    let (_spirc, mut task) = engine(0);
    assert_eq!(task.scrobbler().auth_slot(), &Slot::Pending(()));
    assert_eq!(
        task.take_requests(),
        vec![Request::Authenticate {
            username: "listener".to_string(),
            password: "hunter2".to_string(),
        }]
    );
    assert!(task.take_requests().is_empty());
}

#[test]
fn own_frame_is_ignored() {
    let (_spirc, mut task) = quiet_engine();
    let before = snapshot(&task);
    for typ in [MessageType::Hello, MessageType::Notify, MessageType::Goodbye, MessageType::Other] {
        task.handle_frame(frame(typ, "dev1", &[]), 10);
        task.handle_frame(frame(typ, "dev1", &["dev1"]), 11);
    }
    task.handle_frame(notify("dev1", true, vec![gid(1)], 0), 12);
    assert_eq!(snapshot(&task), before);
    assert!(task.sender().is_empty());
    assert!(task.scrobbler().requests().is_empty());
}

#[test]
fn frame_for_other_recipients_is_ignored() {
    let (_spirc, mut task) = quiet_engine();
    let before = snapshot(&task);
    task.handle_frame(frame(MessageType::Hello, "dev2", &["dev3"]), 10);
    task.handle_frame(frame(MessageType::Hello, "dev2", &["dev3", "dev4", "dev10"]), 11);
    let mut playing = notify("dev2", true, vec![gid(1)], 0);
    playing.recipient = vec!["dev3".to_string()];
    task.handle_frame(playing, 12);
    assert_eq!(snapshot(&task), before);
}

#[test]
fn frame_that_names_this_device_is_taken_up() {
    let (_spirc, mut task) = quiet_engine();
    task.handle_frame(frame(MessageType::Hello, "dev2", &["dev3", "dev1"]), 10);
    assert_eq!(task.sender().len(), 1);
}

#[test]
fn hello_is_answered_with_directed_notify() {
    let (_spirc, mut task) = quiet_engine();
    task.handle_frame(frame(MessageType::Hello, "dev2", &[]), 2_000);
    assert_eq!(task.sender(), &vec![expected_frame(MessageType::Notify, 2, &["dev2"], 2_000)]);
    assert!(task.scrobbler().requests().is_empty());
}

#[test]
fn every_hello_gets_its_own_answer() {
    let (mut spirc, mut task) = quiet_engine();
    task.deliver(frame(MessageType::Hello, "dev2", &[]));
    task.deliver(frame(MessageType::Hello, "dev3", &["dev1"]));
    task.deliver(frame(MessageType::Hello, "dev2", &[]));
    assert_eq!(task.poll(&mut spirc, 3_000), Ok(Async::NotReady));
    assert_eq!(
        task.sender(),
        &vec![
            expected_frame(MessageType::Notify, 2, &["dev2"], 3_000),
            expected_frame(MessageType::Notify, 3, &["dev3"], 3_000),
            expected_frame(MessageType::Notify, 4, &["dev2"], 3_000),
        ]
    );
}

#[test]
fn notify_from_inactive_device_leaves_pipeline_alone() {
    let (_spirc, mut task) = quiet_engine();
    let before = snapshot(&task);
    task.handle_frame(notify("dev2", false, vec![gid(1)], 0), 10);
    task.handle_frame(notify("dev2", false, vec![gid(1), gid(2)], 1), 11);
    let mut anonymous = notify("dev2", true, vec![gid(1)], 0);
    anonymous.device_state = None;
    task.handle_frame(anonymous, 12);
    assert_eq!(snapshot(&task), before);
    assert_eq!(task.scrobbler().current_track_id(), None);
}

#[test]
fn notify_without_tracks_leaves_pipeline_alone() {
    let (_spirc, mut task) = quiet_engine();
    let before = snapshot(&task);
    task.handle_frame(notify("dev2", true, vec![], 0), 10);
    let mut bare = notify("dev2", true, vec![gid(1)], 0);
    bare.state = None;
    task.handle_frame(bare, 11);
    assert_eq!(snapshot(&task), before);
}

#[test]
fn other_frames_are_ignored() {
    let (_spirc, mut task) = quiet_engine();
    let before = snapshot(&task);
    task.handle_frame(frame(MessageType::Goodbye, "dev2", &[]), 10);
    task.handle_frame(frame(MessageType::Other, "dev2", &["dev1"]), 11);
    assert_eq!(snapshot(&task), before);
}

#[test]
fn notify_hands_the_playing_track_to_the_pipeline() {
    let (_spirc, mut task) = quiet_engine();
    task.handle_frame(notify("dev2", true, vec![gid(1), gid(2), gid(3)], 1), 5_000);
    assert_eq!(task.scrobbler().current_track_id(), Some(SpotifyId(2)));
    assert_eq!(task.scrobbler().current_track_start(), Some(5_000));
    assert_eq!(task.take_requests(), vec![Request::Track(SpotifyId(2))]);
    assert!(task.sender().is_empty());
}

#[test]
fn notify_whose_track_cannot_be_read_is_ignored() {
    let (mut spirc, mut task) = quiet_engine();
    let before = snapshot(&task);
    // The index points past the list.
    task.handle_frame(notify("dev2", true, vec![gid(1)], 1), 10);
    task.handle_frame(notify("dev2", true, vec![gid(1), gid(2)], u32::MAX), 11);
    // The reference is no identifier.
    task.handle_frame(notify("dev2", true, vec![vec![1, 2, 3]], 0), 12);
    task.handle_frame(notify("dev2", true, vec![vec![0; 17]], 0), 13);
    assert_eq!(snapshot(&task), before);
    task.deliver(notify("dev2", true, vec![vec![]], 0));
    task.deliver(notify("dev2", true, vec![gid(7)], 0));
    assert_eq!(task.poll(&mut spirc, 14), Ok(Async::NotReady));
    assert_eq!(task.take_requests(), vec![Request::Track(SpotifyId(7))]);
}

#[test]
fn notify_leads_to_now_playing() {
    let (mut spirc, mut task) = quiet_engine();
    let t1 = SpotifyId(1);
    let artist = SpotifyId(0xA1);
    task.deliver(notify("dev2", true, vec![gid(1)], 0));
    assert_eq!(task.poll(&mut spirc, 1_000), Ok(Async::NotReady));
    assert_eq!(task.take_requests(), vec![Request::Track(t1)]);
    task.complete(Response::Track(t1, Ok(Track { name: "Song".to_string(), artists: vec![artist] })));
    assert_eq!(task.take_requests(), vec![Request::Artist(artist)]);
    task.complete(Response::Artist(artist, Ok(Artist { name: "Band".to_string() })));
    assert_eq!(task.poll(&mut spirc, 1_200), Ok(Async::NotReady));
    let event = Scrobble { artist: "Band".to_string(), track: "Song".to_string(), album: String::new() };
    assert_eq!(task.take_requests(), vec![Request::NowPlaying(event.clone())]);
    assert_eq!(task.scrobbler().current_track_meta(), Some(&event));
    assert!(task.take_scrobbler_errors().is_empty());
}

#[test]
fn long_playing_track_is_scrobbled_by_the_engine() {
    let (mut spirc, mut task) = quiet_engine();
    let t1 = SpotifyId(1);
    let artist = SpotifyId(0xA1);
    let event = Scrobble { artist: "Band".to_string(), track: "Song".to_string(), album: String::new() };
    task.deliver(notify("dev2", true, vec![gid(1)], 0));
    task.poll(&mut spirc, 1_000).unwrap();
    task.complete(Response::Track(t1, Ok(Track { name: "Song".to_string(), artists: vec![artist] })));
    task.complete(Response::Artist(artist, Ok(Artist { name: "Band".to_string() })));
    task.poll(&mut spirc, 1_200).unwrap();
    task.complete(Response::NowPlaying(event.clone(), Ok(())));
    task.poll(&mut spirc, 1_300).unwrap();
    task.take_requests();
    // The broadcast repeats the track; 25 seconds have passed.
    task.deliver(notify("dev2", true, vec![gid(1)], 0));
    task.poll(&mut spirc, 26_000).unwrap();
    assert_eq!(task.take_requests(), vec![Request::Scrobble(event.clone())]);
    task.complete(Response::Scrobble(event.clone(), Ok(())));
    task.poll(&mut spirc, 26_100).unwrap();
    assert!(task.scrobbler().current_track_scrobbled());
    task.deliver(notify("dev2", true, vec![gid(1)], 0));
    task.poll(&mut spirc, 90_000).unwrap();
    assert!(task.take_requests().is_empty());
}

#[test]
fn pipeline_failure_is_noted_and_the_engine_goes_on() {
    let (mut spirc, mut task) = engine(0);
    task.flushed(1);
    task.complete(Response::Authenticate(Err(ScrobbleError::new("bad password".to_string()))));
    task.deliver(frame(MessageType::Hello, "dev2", &[]));
    assert_eq!(task.poll(&mut spirc, 10), Ok(Async::NotReady));
    let errors = task.take_scrobbler_errors();
    assert_eq!(errors.len(), 1);
    assert_eq!(errors[0].message(), "Authentication error: bad password");
    assert!(task.take_scrobbler_errors().is_empty());
    assert_eq!(task.poll(&mut spirc, 20), Ok(Async::NotReady));
    assert!(task.take_scrobbler_errors().is_empty());
    assert_eq!(task.sender().len(), 1);
    assert_eq!(task.sender()[0].typ, MessageType::Notify);
}

#[test]
fn shutdown_flushes_before_completing() {
    let (mut spirc, mut task) = engine(100);
    task.complete(Response::Authenticate(Ok(())));
    task.deliver(frame(MessageType::Hello, "dev2", &[]));
    assert_eq!(task.poll(&mut spirc, 200), Ok(Async::NotReady));
    // Two frames wait: the Hello of the construction and the answer to dev2.
    assert_eq!(task.sender().len(), 2);
    spirc.shutdown();
    assert!(!task.is_shutdown());
    assert_eq!(task.poll(&mut spirc, 300), Ok(Async::NotReady));
    assert!(task.is_shutdown());
    assert_eq!(
        task.sender(),
        &vec![
            expected_frame(MessageType::Hello, 1, &[], 100),
            expected_frame(MessageType::Notify, 2, &["dev2"], 200),
            expected_frame(MessageType::Goodbye, 3, &[], 300),
        ]
    );
    assert_eq!(task.poll(&mut spirc, 400), Ok(Async::NotReady));
    task.flushed(1);
    assert_eq!(task.poll(&mut spirc, 500), Ok(Async::NotReady));
    task.flushed(1);
    assert_eq!(task.sender(), &vec![expected_frame(MessageType::Goodbye, 3, &[], 300)]);
    assert_eq!(task.poll(&mut spirc, 600), Ok(Async::NotReady));
    task.flushed(1);
    assert_eq!(task.poll(&mut spirc, 700), Ok(Async::Ready));
    assert_eq!(task.poll(&mut spirc, 800), Ok(Async::Ready));
}

#[test]
fn shutdown_with_an_empty_queue_completes_after_the_goodbye_is_flushed() {
    let (mut spirc, mut task) = quiet_engine();
    spirc.shutdown();
    assert_eq!(task.poll(&mut spirc, 10), Ok(Async::NotReady));
    assert_eq!(task.sender(), &vec![expected_frame(MessageType::Goodbye, 2, &[], 10)]);
    task.flushed(usize::MAX);
    assert_eq!(task.poll(&mut spirc, 11), Ok(Async::Ready));
}

#[test]
fn shut_down_engine_takes_up_nothing() {
    let (mut spirc, mut task) = quiet_engine();
    spirc.shutdown();
    task.poll(&mut spirc, 10).unwrap();
    task.flushed(1);
    let before = snapshot(&task);
    task.deliver(frame(MessageType::Hello, "dev2", &[]));
    task.complete(Response::Authenticate(Ok(())));
    task.subscription_terminated();
    assert_eq!(task.poll(&mut spirc, 20), Ok(Async::Ready));
    assert!(task.sender().is_empty());
    assert_ne!(snapshot(&task), before);
    assert!(task.take_requests().is_empty());
}

#[test]
fn handle_is_closed_once_shutdown_is_taken_up() {
    let (mut spirc, mut task) = quiet_engine();
    spirc.shutdown();
    spirc.shutdown();
    assert!(!spirc.is_closed());
    task.poll(&mut spirc, 10).unwrap();
    assert!(spirc.is_closed());
    // The second request was sent before the channel closed; it is never
    // taken up, and no further Goodbye is sent.
    spirc.shutdown();
    task.flushed(1);
    assert_eq!(task.poll(&mut spirc, 20), Ok(Async::Ready));
    assert!(task.sender().is_empty());
}

#[test]
fn frame_is_handled_before_the_command_of_the_same_round() {
    let (mut spirc, mut task) = quiet_engine();
    task.deliver(frame(MessageType::Hello, "dev2", &[]));
    task.deliver(frame(MessageType::Hello, "dev3", &[]));
    spirc.shutdown();
    assert_eq!(task.poll(&mut spirc, 50), Ok(Async::NotReady));
    // The second Hello came too late: the engine was shut down in the first
    // round.
    assert_eq!(
        task.sender(),
        &vec![
            expected_frame(MessageType::Notify, 2, &["dev2"], 50),
            expected_frame(MessageType::Goodbye, 3, &[], 50),
        ]
    );
}

#[test]
fn handle_command_sends_goodbye_and_closes() {
    let (mut spirc, mut task) = quiet_engine();
    task.handle_command(SpircCommand::Shutdown, &mut spirc, 9);
    assert!(task.is_shutdown());
    assert!(spirc.is_closed());
    assert_eq!(task.sender(), &vec![expected_frame(MessageType::Goodbye, 2, &[], 9)]);
}

#[test]
fn end_of_subscription_is_fatal() {
    let (mut spirc, mut task) = quiet_engine();
    task.deliver(frame(MessageType::Hello, "dev2", &[]));
    task.subscription_terminated();
    // What was delivered before the end is still handled.
    assert_eq!(task.poll(&mut spirc, 10), Err(SpircError::SubscriptionTerminated));
    assert_eq!(task.sender().len(), 1);
    assert_eq!(task.poll(&mut spirc, 11), Err(SpircError::SubscriptionTerminated));
    assert_eq!(task.sender().len(), 1);
}

#[test]
fn send_failure_is_fatal() {
    let (mut spirc, mut task) = engine(0);
    task.send_failed();
    assert_eq!(task.poll(&mut spirc, 10), Err(SpircError::SendFailed));
    spirc.shutdown();
    assert_eq!(task.poll(&mut spirc, 11), Err(SpircError::SendFailed));
    assert_eq!(task.poll(&mut spirc, 12), Err(SpircError::SendFailed));
}

#[test]
fn idle_engine_yields() {
    let (mut spirc, mut task) = quiet_engine();
    let before = snapshot(&task);
    assert_eq!(task.poll(&mut spirc, 10), Ok(Async::NotReady));
    assert_eq!(task.poll(&mut spirc, 20), Ok(Async::NotReady));
    assert_eq!(snapshot(&task), before);
}

#[test]
fn flushing_takes_the_oldest_frames() {
    let (_spirc, mut task) = engine(0);
    task.hello(1);
    task.notify(None, 2);
    task.notify(Some("dev9"), 3);
    assert_eq!(task.sender().len(), 4);
    task.flushed(0);
    assert_eq!(task.sender().len(), 4);
    task.flushed(2);
    assert_eq!(
        task.sender(),
        &vec![
            expected_frame(MessageType::Notify, 3, &[], 2),
            expected_frame(MessageType::Notify, 4, &["dev9"], 3),
        ]
    );
    task.flushed(5);
    assert!(task.sender().is_empty());
}

#[test]
fn active_device_attaches_its_playback_state() {
    let (_spirc, mut task) = engine(0);
    task.flushed(1);
    task.notify(None, 1);
    assert_eq!(task.sender()[0].state, None);
    task.set_active(true);
    task.set_volume(300);
    task.notify(None, 2);
    task.hello(3);
    assert_eq!(task.sender()[1].state, Some(initial_state()));
    assert_eq!(task.sender()[2].state, Some(initial_state()));
    let device = task.sender()[1].device_state.clone().unwrap();
    assert!(device.is_active);
    assert_eq!(device.volume, 300);
    task.set_active(false);
    task.notify(None, 4);
    assert_eq!(task.sender()[3].state, None);
}

#[test]
fn command_sender_builds_and_sends_a_frame() {
    let (_spirc, mut task) = engine(0);
    task.flushed(1);
    let mut playing = initial_state();
    playing.status = PlayStatus::Pause;
    CommandSender::new(&mut task, MessageType::Other, 5)
        .recipient("dev2")
        .recipient("dev3")
        .state(playing.clone())
        .send(&mut task);
    let mut expected = expected_frame(MessageType::Other, 2, &["dev2", "dev3"], 5);
    expected.state = Some(playing);
    assert_eq!(task.sender(), &vec![expected]);
    // The sequence number is taken when the frame is drawn up.
    let first = CommandSender::new(&mut task, MessageType::Hello, 6);
    let second = CommandSender::new(&mut task, MessageType::Hello, 7);
    second.send(&mut task);
    first.send(&mut task);
    assert_eq!(task.sender()[1].seq_nr, 4);
    assert_eq!(task.sender()[2].seq_nr, 3);
}

#[test]
fn stale_lookup_is_dropped_by_the_engine() {
    let (mut spirc, mut task) = quiet_engine();
    task.deliver(notify("dev2", true, vec![gid(1)], 0));
    task.deliver(notify("dev2", true, vec![gid(2)], 0));
    task.poll(&mut spirc, 1_000).unwrap();
    assert_eq!(task.take_requests(), vec![Request::Track(SpotifyId(1)), Request::Track(SpotifyId(2))]);
    task.complete(Response::Track(
        SpotifyId(1),
        Ok(Track { name: "Old".to_string(), artists: vec![SpotifyId(0xA1)] }),
    ));
    assert!(task.take_requests().is_empty());
    assert_eq!(task.scrobbler().meta_fetch_slot(), &Slot::Pending(Lookup::Track(SpotifyId(2))));
}
