use librespot::audio_backend::{backends, find, mk_sink, Backend, Open, Sink};
use librespot::config::{ConnectConfig, DeviceType};
use librespot::protocol::{
    Capability, CapabilityType, DeviceState, Frame, MessageType, PlayStatus, State, TrackRef,
};
use librespot::spirc::{initial_device_state, initial_state, remote_uri};
use librespot::util::{millis, SeqGenerator, SpotifyId, SpotifyIdError};

#[test]
fn spotify_id_reads_bytes_most_significant_first() {
    let raw: Vec<u8> = (0u8..16).collect();
    assert_eq!(
        SpotifyId::from_raw(&raw),
        Ok(SpotifyId(0x0001_0203_0405_0607_0809_0a0b_0c0d_0e0f))
    );
    assert_eq!(SpotifyId::from_raw(&[0u8; 16]), Ok(SpotifyId(0)));
    assert_eq!(SpotifyId::from_raw(&[0xffu8; 16]), Ok(SpotifyId(u128::MAX)));
    let mut one = [0u8; 16];
    one[15] = 1;
    assert_eq!(SpotifyId::from_raw(&one), Ok(SpotifyId(1)));
    let mut top = [0u8; 16];
    top[0] = 0x80;
    assert_eq!(SpotifyId::from_raw(&top), Ok(SpotifyId(1u128 << 127)));
}

#[test]
fn spotify_id_takes_sixteen_bytes_only() {
    assert_eq!(SpotifyId::from_raw(&[]), Err(SpotifyIdError));
    assert_eq!(SpotifyId::from_raw(&[1u8; 15]), Err(SpotifyIdError));
    assert_eq!(SpotifyId::from_raw(&[1u8; 17]), Err(SpotifyIdError));
    assert_eq!(SpotifyId::from_raw(&[1u8; 32]), Err(SpotifyIdError));
}

#[test]
fn sequence_counts_up_from_its_start() {
    let mut sequence = SeqGenerator::new(1);
    assert_eq!(sequence.get(), 1);
    assert_eq!(sequence.get(), 2);
    assert_eq!(sequence.get(), 3);
}

#[test]
fn sequence_starts_over_after_the_largest_number() {
    let mut sequence = SeqGenerator::new(u32::MAX - 1);
    assert_eq!(sequence.get(), u32::MAX - 1);
    assert_eq!(sequence.get(), u32::MAX);
    assert_eq!(sequence.get(), 0);
    assert_eq!(sequence.get(), 1);
}

#[test]
fn device_types_have_their_codes() {
    let codes: Vec<i64> = [
        DeviceType::Unknown,
        DeviceType::Computer,
        DeviceType::Tablet,
        DeviceType::Smartphone,
        DeviceType::Speaker,
        DeviceType::TV,
        DeviceType::AVR,
        DeviceType::STB,
        DeviceType::AudioDongle,
    ]
    .iter()
    .map(|device_type| device_type.code())
    .collect();
    assert_eq!(codes, vec![0, 1, 2, 3, 4, 5, 6, 7, 8]);
    assert_eq!(DeviceType::default(), DeviceType::Speaker);
}

#[test]
fn topic_is_scoped_to_the_account() {
    assert_eq!(remote_uri("alice"), "hm://remote/3/user/alice/");
    assert_eq!(remote_uri(""), "hm://remote/3/user//");
}

#[test]
fn initial_playback_state_is_idle() {
    assert_eq!(
        initial_state(),
        State {
            repeat: false,
            shuffle: false,
            status: PlayStatus::Stop,
            position_ms: 0,
            position_measured_at: 0,
            track: vec![],
            playing_track_index: 0,
        }
    );
}

fn int_capability(typ: CapabilityType, value: i64) -> Capability {
    Capability { typ, int_value: vec![value], string_value: vec![] }
}

fn string_capability(typ: CapabilityType, values: &[&str]) -> Capability {
    Capability {
        typ,
        int_value: vec![],
        string_value: values.iter().map(|value| value.to_string()).collect(),
    }
}

#[test]
fn initial_device_state_lists_the_fixed_capabilities() {
    let config = ConnectConfig { name: "Kitchen".to_string(), device_type: DeviceType::Computer };
    let device = initial_device_state(config, 0xFFFF, "client-1.0".to_string());
    assert_eq!(
        device,
        DeviceState {
            sw_version: "client-1.0".to_string(),
            is_active: false,
            can_play: true,
            volume: 65535,
            name: "Kitchen".to_string(),
            capabilities: vec![
                int_capability(CapabilityType::CanBePlayer, 1),
                int_capability(CapabilityType::DeviceType, 1),
                int_capability(CapabilityType::GaiaEqConnectId, 1),
                int_capability(CapabilityType::SupportsLogout, 0),
                int_capability(CapabilityType::IsObservable, 1),
                int_capability(CapabilityType::VolumeSteps, 64),
                string_capability(
                    CapabilityType::SupportedContexts,
                    &[
                        "album",
                        "playlist",
                        "search",
                        "inbox",
                        "toplist",
                        "starred",
                        "publishedstarred",
                        "track",
                    ],
                ),
                string_capability(
                    CapabilityType::SupportedTypes,
                    &["audio/local", "audio/track", "local", "track"],
                ),
            ],
        }
    );
}

#[test]
fn initial_device_state_takes_volume_and_device_type() {
    let config = ConnectConfig { name: "Hall".to_string(), device_type: DeviceType::AudioDongle };
    let device = initial_device_state(config, 7, String::new());
    assert_eq!(device.volume, 7);
    assert_eq!(device.capabilities[1], int_capability(CapabilityType::DeviceType, 8));
}

fn notify(active: bool, gids: Vec<Vec<u8>>, index: u32) -> Frame {
    Frame {
        version: 1,
        protocol_version: "2.0.0".to_string(),
        ident: "dev2".to_string(),
        seq_nr: 9,
        typ: MessageType::Notify,
        recipient: vec![],
        device_state: Some(DeviceState {
            sw_version: String::new(),
            is_active: active,
            can_play: true,
            volume: 0,
            name: "Other".to_string(),
            capabilities: vec![],
        }),
        state: Some(State {
            repeat: false,
            shuffle: false,
            status: PlayStatus::Play,
            position_ms: 0,
            position_measured_at: 0,
            track: gids.into_iter().map(|gid| TrackRef { gid }).collect(),
            playing_track_index: index,
        }),
        state_update_id: 0,
    }
}

#[test]
fn playing_track_is_read_at_the_playing_index() {
    let first = vec![0u8; 16];
    let mut second = vec![0u8; 16];
    second[15] = 2;
    assert_eq!(notify(true, vec![first.clone()], 0).playing_track(), Some(SpotifyId(0)));
    assert_eq!(
        notify(true, vec![first.clone(), second.clone()], 1).playing_track(),
        Some(SpotifyId(2))
    );
    assert_eq!(
        notify(true, vec![first.clone(), second.clone()], 0).playing_track(),
        Some(SpotifyId(0))
    );
    // Only the reference that is playing is read.
    assert_eq!(notify(true, vec![second, vec![2; 3]], 0).playing_track(), Some(SpotifyId(2)));
}

#[test]
fn frames_that_tell_of_no_track_give_none() {
    assert_eq!(notify(true, vec![], 0).playing_track(), None);
    assert_eq!(notify(true, vec![], 5).playing_track(), None);
    assert_eq!(notify(false, vec![vec![1; 16]], 0).playing_track(), None);
    let mut hello = notify(true, vec![vec![1; 16]], 0);
    hello.typ = MessageType::Hello;
    assert_eq!(hello.playing_track(), None);
    let mut bare = notify(true, vec![vec![1; 16]], 0);
    bare.state = None;
    assert_eq!(bare.playing_track(), None);
    let mut anonymous = notify(true, vec![vec![1; 16]], 0);
    anonymous.device_state = None;
    assert_eq!(anonymous.playing_track(), None);
}

#[test]
fn frames_that_point_past_their_track_list_give_none() {
    assert_eq!(notify(true, vec![vec![1; 16]], 1).playing_track(), None);
    assert_eq!(notify(true, vec![vec![1; 16], vec![2; 16]], 2).playing_track(), None);
    assert_eq!(notify(true, vec![vec![1; 16], vec![2; 16]], u32::MAX).playing_track(), None);
}

#[test]
fn track_references_of_another_length_give_none() {
    assert_eq!(notify(true, vec![vec![1; 15]], 0).playing_track(), None);
    assert_eq!(notify(true, vec![vec![1; 17]], 0).playing_track(), None);
    assert_eq!(notify(true, vec![vec![]], 0).playing_track(), None);
}

#[test]
fn frame_clone_is_equal() {
    let frame = notify(true, vec![vec![1; 16], vec![2; 16]], 1);
    assert_eq!(frame.clone(), frame);
}

#[test]
fn default_backend_is_the_first() {
    assert_eq!(find(None), Some(Backend::Pipe));
    assert_eq!(backends(), vec![("pipe".to_string(), Backend::Pipe)]);
}

#[test]
fn backend_is_found_by_name() {
    assert_eq!(find(Some("pipe")), Some(Backend::Pipe));
    assert_eq!(find(Some("alsa")), None);
    assert_eq!(find(Some("")), None);
    assert_eq!(find(Some("Pipe")), None);
}

#[test]
fn clock_readings_become_milliseconds() {
    assert_eq!(millis(0, 0), Some(0));
    assert_eq!(millis(1, 0), Some(1_000));
    assert_eq!(millis(1, 999_999_999), Some(1_999));
    assert_eq!(millis(1_500_000_000, 123_456_789), Some(1_500_000_000_123));
    assert_eq!(millis(0, 999_999), Some(0));
    assert_eq!(millis(0, 1_000_000), Some(1));
}

#[test]
fn clock_readings_past_the_range_have_no_milliseconds() {
    assert_eq!(millis(9_223_372_036_854_775, 807_000_000), Some(i64::MAX));
    assert_eq!(millis(9_223_372_036_854_775, 808_000_000), None);
    assert_eq!(millis(9_223_372_036_854_776, 0), None);
    assert_eq!(millis(u64::MAX, u32::MAX), None);
}

#[test]
fn device_types_go_by_their_names() {
    assert_eq!(DeviceType::from_name("computer"), Some(DeviceType::Computer));
    assert_eq!(DeviceType::from_name("tablet"), Some(DeviceType::Tablet));
    assert_eq!(DeviceType::from_name("smartphone"), Some(DeviceType::Smartphone));
    assert_eq!(DeviceType::from_name("speaker"), Some(DeviceType::Speaker));
    assert_eq!(DeviceType::from_name("tv"), Some(DeviceType::TV));
    assert_eq!(DeviceType::from_name("avr"), Some(DeviceType::AVR));
    assert_eq!(DeviceType::from_name("stb"), Some(DeviceType::STB));
    assert_eq!(DeviceType::from_name("audiodongle"), Some(DeviceType::AudioDongle));
}

#[test]
fn other_names_are_no_device_type() {
    assert_eq!(DeviceType::from_name(""), None);
    assert_eq!(DeviceType::from_name("unknown"), None);
    assert_eq!(DeviceType::from_name("Speaker"), None);
    assert_eq!(DeviceType::from_name("speaker "), None);
    assert_eq!(DeviceType::from_name("radio"), None);
}

/// A backend that keeps what it is given.
struct Recorder {
    device: Option<String>,
    running: bool,
    samples: Vec<i16>,
}

impl Open for Recorder {
    fn open(device: Option<String>) -> Recorder {
        Recorder { device, running: false, samples: Vec::new() }
    }
}

impl Sink for Recorder {
    fn start(&mut self) -> Result<(), std::io::Error> {
        self.running = true;
        Ok(())
    }

    fn stop(&mut self) -> Result<(), std::io::Error> {
        self.running = false;
        Ok(())
    }

    fn write(&mut self, data: &[i16]) -> Result<(), std::io::Error> {
        self.samples.extend_from_slice(data);
        Ok(())
    }
}

#[test]
fn sink_is_the_backend_opened_on_the_device() {
    let named = mk_sink::<Recorder>(Some("hw:0".to_string()));
    assert_eq!(named.device, Some("hw:0".to_string()));
    assert!(!named.running);
    assert!(named.samples.is_empty());
    let default = mk_sink::<Recorder>(None);
    assert_eq!(default.device, None);
}

#[test]
fn sink_takes_samples_as_a_trait_object() {
    let mut recorder = mk_sink::<Recorder>(None);
    {
        let sink: &mut dyn Sink = &mut *recorder;
        assert!(sink.start().is_ok());
        assert!(sink.write(&[1, -2, 3]).is_ok());
        assert!(sink.write(&[4]).is_ok());
    }
    assert!(recorder.running);
    assert_eq!(recorder.samples, vec![1, -2, 3, 4]);
    let mut boxed: Box<dyn Sink> = recorder;
    assert!(boxed.stop().is_ok());
}
