//! The protocol engine: one device's presence on the broadcast channel of its
//! account.
//!
//! The engine does no I/O. Its owner hands it the frames that the
//! subscription delivered ([`SpircTask::deliver`]), runs its scheduling loop
//! ([`SpircTask::poll`]), transmits the frames that wait in its send queue and
//! says how many went out ([`SpircTask::flushed`]). Requests for shutdown reach
//! it through the handle ([`Spirc`]).

use crate::config::{ConnectConfig, ConnectConfigView, DeviceType, SessionInfo, SessionInfoView};
use crate::protocol::{
    Capability, CapabilityType, CapabilityView, DeviceState, DeviceStateView, Frame, FrameView,
    MessageType, PlayStatus, State, StateView,
};
use crate::scrobbler::{
    Request, Response, ScrobbleError, Scrobbler, ScrobblerConfig, ScrobblerConfigView,
    ScrobblerView,
};
use crate::util::SeqGenerator;
use vstd::prelude::*;
use vstd::string::StringExecFns;

verus! {

/// The version of the frame layout that this participant writes.
pub const FRAME_VERSION: u32 = 1;

/// The volume that a device starts with: the loudest.
pub const INITIAL_VOLUME: u16 = 0xFFFF;

/// The first sequence number that an engine hands out.
pub const FIRST_SEQUENCE_NUMBER: u32 = 1;

/// What the handle can ask of the engine.
#[derive(Clone, Copy, Debug, PartialEq, Eq, Structural)]
pub enum SpircCommand {
    Shutdown,
}

/// What ends an engine before it was shut down.
#[derive(Clone, Copy, Debug, PartialEq, Eq, Structural)]
pub enum SpircError {
    /// The subscription to the broadcast channel came to an end.
    SubscriptionTerminated,
    /// The transport could not send a frame.
    SendFailed,
}

/// Whether the engine has run to completion.
#[derive(Clone, Copy, Debug, PartialEq, Eq, Structural)]
pub enum Async {
    Ready,
    NotReady,
}

/// The idle playback state that an engine starts with.
pub open spec fn initial_state_view() -> StateView {
    StateView {
        repeat: false,
        shuffle: false,
        status: PlayStatus::Stop,
        position_ms: 0,
        position_measured_at: 0,
        track: Seq::empty(),
        playing_track_index: 0,
    }
}

/// The idle playback state that an engine starts with.
pub fn initial_state() -> (state: State)
    ensures
        state@ == initial_state_view(),
{
    let state = State {
        repeat: false,
        shuffle: false,
        status: PlayStatus::Stop,
        position_ms: 0,
        position_measured_at: 0,
        track: Vec::new(),
        playing_track_index: 0,
    };
    assert(state.track.deep_view() =~= Seq::<Seq<u8>>::empty());
    state
}

/// A capability with one integer value.
pub open spec fn int_capability_view(typ: CapabilityType, value: i64) -> CapabilityView {
    CapabilityView { typ, int_value: seq![value], string_value: Seq::empty() }
}

/// A capability with string values.
pub open spec fn string_capability_view(
    typ: CapabilityType,
    values: Seq<Seq<char>>,
) -> CapabilityView {
    CapabilityView { typ, int_value: Seq::empty(), string_value: values }
}

/// The kinds of context that a device takes tracks from.
pub open spec fn supported_contexts() -> Seq<Seq<char>> {
    seq![
        "album"@,
        "playlist"@,
        "search"@,
        "inbox"@,
        "toplist"@,
        "starred"@,
        "publishedstarred"@,
        "track"@,
    ]
}

/// The kinds of track reference that a device understands.
pub open spec fn supported_types() -> Seq<Seq<char>> {
    seq!["audio/local"@, "audio/track"@, "local"@, "track"@]
}

/// The capabilities that every device of the given type advertises.
pub open spec fn initial_capabilities(device_type: DeviceType) -> Seq<CapabilityView> {
    seq![
        int_capability_view(CapabilityType::CanBePlayer, 1),
        int_capability_view(CapabilityType::DeviceType, device_type.code_of()),
        int_capability_view(CapabilityType::GaiaEqConnectId, 1),
        int_capability_view(CapabilityType::SupportsLogout, 0),
        int_capability_view(CapabilityType::IsObservable, 1),
        int_capability_view(CapabilityType::VolumeSteps, 64),
        string_capability_view(CapabilityType::SupportedContexts, supported_contexts()),
        string_capability_view(CapabilityType::SupportedTypes, supported_types()),
    ]
}

/// The device state that an engine starts with: not active, able to play, at
/// the given volume, with the fixed list of capabilities.
pub open spec fn initial_device_state_view(
    config: ConnectConfigView,
    volume: u16,
    sw_version: Seq<char>,
) -> DeviceStateView {
    DeviceStateView {
        sw_version,
        is_active: false,
        can_play: true,
        volume: volume as u32,
        name: config.name,
        capabilities: initial_capabilities(config.device_type),
    }
}

fn int_capability(typ: CapabilityType, value: i64) -> (capability: Capability)
    ensures
        capability@ == int_capability_view(typ, value),
{
    let mut int_value: Vec<i64> = Vec::new();
    int_value.push(value);
    let capability = Capability { typ, int_value, string_value: Vec::new() };
    assert(capability.int_value@ =~= seq![value]);
    assert(capability.string_value.deep_view() =~= Seq::<Seq<char>>::empty());
    capability
}

fn string_capability(typ: CapabilityType, values: Vec<String>) -> (capability: Capability)
    ensures
        capability@ == string_capability_view(typ, values.deep_view()),
{
    let capability = Capability { typ, int_value: Vec::new(), string_value: values };
    assert(capability.int_value@ =~= Seq::<i64>::empty());
    capability
}

fn supported_context_names() -> (names: Vec<String>)
    ensures
        names.deep_view() == supported_contexts(),
{
    let mut names: Vec<String> = Vec::new();
    names.push(String::from_str("album"));
    names.push(String::from_str("playlist"));
    names.push(String::from_str("search"));
    names.push(String::from_str("inbox"));
    names.push(String::from_str("toplist"));
    names.push(String::from_str("starred"));
    names.push(String::from_str("publishedstarred"));
    names.push(String::from_str("track"));
    assert(names.deep_view() =~= supported_contexts());
    names
}

fn supported_type_names() -> (names: Vec<String>)
    ensures
        names.deep_view() == supported_types(),
{
    let mut names: Vec<String> = Vec::new();
    names.push(String::from_str("audio/local"));
    names.push(String::from_str("audio/track"));
    names.push(String::from_str("local"));
    names.push(String::from_str("track"));
    assert(names.deep_view() =~= supported_types());
    names
}

/// The device state of a device that is configured by `config`, plays at
/// `volume` and announces the version `sw_version`.
pub fn initial_device_state(config: ConnectConfig, volume: u16, sw_version: String) -> (device:
    DeviceState)
    ensures
        device@ == initial_device_state_view(config@, volume, sw_version@),
{
    let mut capabilities: Vec<Capability> = Vec::new();
    capabilities.push(int_capability(CapabilityType::CanBePlayer, 1));
    capabilities.push(int_capability(CapabilityType::DeviceType, config.device_type.code()));
    capabilities.push(int_capability(CapabilityType::GaiaEqConnectId, 1));
    capabilities.push(int_capability(CapabilityType::SupportsLogout, 0));
    capabilities.push(int_capability(CapabilityType::IsObservable, 1));
    capabilities.push(int_capability(CapabilityType::VolumeSteps, 64));
    capabilities.push(
        string_capability(CapabilityType::SupportedContexts, supported_context_names()),
    );
    capabilities.push(string_capability(CapabilityType::SupportedTypes, supported_type_names()));
    assert(capabilities.deep_view() =~= initial_capabilities(config.device_type));
    DeviceState {
        sw_version: sw_version,
        is_active: false,
        can_play: true,
        volume: volume as u32,
        name: config.name,
        capabilities: capabilities,
    }
}

/// The topic that carries the frames of the account `username`.
pub open spec fn remote_uri_view(username: Seq<char>) -> Seq<char> {
    "hm://remote/3/user/"@ + username + "/"@
}

/// The topic that carries the frames of the account `username`.
pub fn remote_uri(username: &str) -> (uri: String)
    ensures
        uri@ == remote_uri_view(username@),
{
    let mut uri = String::from_str("hm://remote/3/user/");
    uri.append(username);
    uri.append("/");
    uri
}

/// The handle as the contracts see it: the commands that were sent and not
/// received yet, oldest first, and whether the engine has closed the channel.
pub ghost struct SpircView {
    pub commands: Seq<SpircCommand>,
    pub closed: bool,
}

impl SpircView {
    /// A channel that is open and empty.
    pub open spec fn initial() -> SpircView {
        SpircView { commands: Seq::empty(), closed: false }
    }

    /// Sends `command`. A closed channel takes nothing.
    pub open spec fn send(self, command: SpircCommand) -> SpircView {
        if self.closed {
            self
        } else {
            SpircView { commands: self.commands.push(command), ..self }
        }
    }

    /// The channel without its oldest command.
    pub open spec fn received(self) -> SpircView {
        SpircView { commands: self.commands.drop_first(), ..self }
    }

    /// The channel closed: it takes no further command.
    pub open spec fn close(self) -> SpircView {
        SpircView { closed: true, ..self }
    }
}

/// The handle of an engine. Its owner asks the engine to shut down through
/// it; the engine takes the request up when it is next polled.
#[derive(Debug)]
pub struct Spirc {
    commands: Vec<SpircCommand>,
    closed: bool,
}

impl View for Spirc {
    type V = SpircView;

    closed spec fn view(&self) -> SpircView {
        SpircView { commands: self.commands@, closed: self.closed }
    }
}

/// The engine as the contracts see it.
pub ghost struct SpircTaskView {
    /// The sequence number of the next outbound frame.
    pub sequence: u32,
    /// The stable identity of this device.
    pub ident: Seq<char>,
    /// The topic of the broadcast channel.
    pub uri: Seq<char>,
    pub device: DeviceStateView,
    pub state: StateView,
    /// The frames that the subscription delivered and the engine has not
    /// handled yet, oldest first.
    pub subscription: Seq<FrameView>,
    /// Whether the subscription has come to an end.
    pub subscription_terminated: bool,
    /// The frames that were sent and have not been flushed, oldest first.
    pub sender: Seq<FrameView>,
    /// Whether the transport has failed to send.
    pub send_failed: bool,
    pub shutdown: bool,
    pub scrobbler: ScrobblerView,
    /// The failures that the scrobble pipeline reported, oldest first.
    pub scrobbler_errors: Seq<Seq<char>>,
}

/// One round of the scheduling loop: the engine and the handle after it, and
/// either whether anything made progress or the failure that ends the engine.
pub ghost struct Turn {
    pub task: SpircTaskView,
    pub handle: SpircView,
    pub report: Result<bool, SpircError>,
}

/// A call of `poll`: the engine and the handle after it, and what it returns.
pub ghost struct Polled {
    pub task: SpircTaskView,
    pub handle: SpircView,
    pub outcome: Result<Async, SpircError>,
}

impl SpircTaskView {
    /// The engine before it has sent anything.
    pub open spec fn initial(
        config: ConnectConfigView,
        session: SessionInfoView,
        scrobbler_config: ScrobblerConfigView,
    ) -> SpircTaskView {
        SpircTaskView {
            sequence: FIRST_SEQUENCE_NUMBER,
            ident: session.device_id,
            uri: remote_uri_view(session.username),
            device: initial_device_state_view(config, INITIAL_VOLUME, session.user_agent),
            state: initial_state_view(),
            subscription: Seq::empty(),
            subscription_terminated: false,
            sender: Seq::empty(),
            send_failed: false,
            shutdown: false,
            scrobbler: ScrobblerView::initial(scrobbler_config).start_auth(),
            scrobbler_errors: Seq::empty(),
        }
    }

    /// Whether `frame` is for this device: it comes from another device, and
    /// it is either broadcast or names this device among its recipients.
    pub open spec fn addressed_by(self, frame: FrameView) -> bool {
        &&& frame.ident != self.ident
        &&& (frame.recipient.len() == 0 || frame.recipient.contains(self.ident))
    }

    /// The frame of kind `typ` that this device sends at the time `now` to
    /// `recipient`. It carries the device state, and the playback state only
    /// where the device is the active player.
    pub open spec fn frame(
        self,
        typ: MessageType,
        recipient: Seq<Seq<char>>,
        now: i64,
    ) -> FrameView {
        FrameView {
            version: FRAME_VERSION,
            protocol_version: "2.0.0"@,
            ident: self.ident,
            seq_nr: self.sequence,
            typ,
            recipient,
            device_state: Some(self.device),
            state: if self.device.is_active {
                Some(self.state)
            } else {
                None
            },
            state_update_id: now,
        }
    }

    /// The frame as it is first drawn up: to nobody in particular, and without
    /// playback state.
    pub open spec fn draft(self, typ: MessageType, now: i64) -> FrameView {
        FrameView { state: None, ..self.frame(typ, Seq::empty(), now) }
    }

    /// The engine after a frame was drawn up: the sequence has moved on.
    pub open spec fn advance(self) -> SpircTaskView {
        SpircTaskView { sequence: SeqGenerator::successor(self.sequence), ..self }
    }

    /// Hands `frame` to the send queue. A frame without playback state gets
    /// that of the engine where the device is the active player.
    pub open spec fn enqueue(self, frame: FrameView) -> SpircTaskView {
        let complete = if frame.state is None && self.device.is_active {
            FrameView { state: Some(self.state), ..frame }
        } else {
            frame
        };
        SpircTaskView { sender: self.sender.push(complete), ..self }
    }

    /// Sends one frame: it joins the send queue, and the sequence moves on.
    pub open spec fn send(
        self,
        typ: MessageType,
        recipient: Seq<Seq<char>>,
        now: i64,
    ) -> SpircTaskView {
        SpircTaskView {
            sequence: SeqGenerator::successor(self.sequence),
            sender: self.sender.push(self.frame(typ, recipient, now)),
            ..self
        }
    }

    /// Broadcasts a `Hello`.
    pub open spec fn hello(self, now: i64) -> SpircTaskView {
        self.send(MessageType::Hello, Seq::empty(), now)
    }

    /// Sends a `Notify`: to `recipient` alone if one is given, to everybody
    /// if not.
    pub open spec fn notify(self, recipient: Option<Seq<char>>, now: i64) -> SpircTaskView {
        match recipient {
            Some(recipient) => self.send(MessageType::Notify, seq![recipient], now),
            None => self.send(MessageType::Notify, Seq::empty(), now),
        }
    }

    /// Shutdown: a `Goodbye` is broadcast and the engine is shut down.
    pub open spec fn handle_command(self, command: SpircCommand, now: i64) -> SpircTaskView {
        match command {
            SpircCommand::Shutdown => SpircTaskView {
                shutdown: true,
                ..self.send(MessageType::Goodbye, Seq::empty(), now)
            },
        }
    }

    /// What an inbound frame leads to. A frame that is not for this device
    /// changes nothing. A `Hello` is answered with a `Notify` to its sender
    /// alone. A `Notify` that gives a playing track hands that track to the
    /// scrobble pipeline. Every other frame changes nothing.
    pub open spec fn handle_frame(self, frame: FrameView, now: i64) -> SpircTaskView {
        if !self.addressed_by(frame) {
            self
        } else if frame.typ == MessageType::Hello {
            self.notify(Some(frame.ident), now)
        } else {
            match frame.playing_track() {
                Some(track_id) => SpircTaskView {
                    scrobbler: self.scrobbler.update_current_track(track_id, now),
                    ..self
                },
                None => self,
            }
        }
    }

    /// The engine with one more frame delivered by the subscription.
    pub open spec fn deliver(self, frame: FrameView) -> SpircTaskView {
        SpircTaskView { subscription: self.subscription.push(frame), ..self }
    }

    /// The engine after the transport has flushed `count` frames, or all that
    /// were queued if there were fewer.
    pub open spec fn flushed(self, count: nat) -> SpircTaskView {
        if count >= self.sender.len() {
            SpircTaskView { sender: Seq::empty(), ..self }
        } else {
            SpircTaskView {
                sender: self.sender.subrange(count as int, self.sender.len() as int),
                ..self
            }
        }
    }

    /// The work of one round that is done only while the engine is not shut
    /// down. In this order: the oldest delivered frame is handled; the oldest
    /// command is taken from the handle and carried out, which closes the
    /// channel; the scrobble pipeline makes one step, whose failure is noted
    /// and ends nothing. With no frame to handle and the subscription at its
    /// end, the round fails before anything else is done.
    pub open spec fn work(self, handle: SpircView, now: i64) -> Turn {
        if self.subscription.len() == 0 && self.subscription_terminated {
            Turn { task: self, handle, report: Err(SpircError::SubscriptionTerminated) }
        } else {
            let framed = self.subscription.len() > 0;
            let t1 = if framed {
                SpircTaskView {
                    subscription: self.subscription.drop_first(),
                    ..self
                }.handle_frame(self.subscription[0], now)
            } else {
                self
            };
            let commanded = handle.commands.len() > 0;
            let t2 = if commanded {
                t1.handle_command(handle.commands[0], now)
            } else {
                t1
            };
            let h2 = if commanded {
                handle.received().close()
            } else {
                handle
            };
            let (pipeline, stepped) = t2.scrobbler.step(now);
            let t3 = SpircTaskView {
                scrobbler: pipeline,
                scrobbler_errors: match stepped {
                    Ok(_) => t2.scrobbler_errors,
                    Err(err) => t2.scrobbler_errors.push(err),
                },
                ..t2
            };
            let advanced = stepped == Ok::<bool, Seq<char>>(true);
            Turn { task: t3, handle: h2, report: Ok(framed || commanded || advanced) }
        }
    }

    /// One round of the scheduling loop: the work of an engine that is not
    /// shut down, then the attempt to flush, which fails where the transport
    /// has failed.
    pub open spec fn turn(self, handle: SpircView, now: i64) -> Turn {
        let worked = if self.shutdown {
            Turn { task: self, handle, report: Ok(false) }
        } else {
            self.work(handle, now)
        };
        if worked.report is Ok && worked.task.send_failed {
            Turn { report: Err(SpircError::SendFailed), ..worked }
        } else {
            worked
        }
    }

    /// Whether the engine has run to completion: it is shut down and its send
    /// queue is flushed.
    pub open spec fn finished(self) -> bool {
        self.shutdown && self.sender.len() == 0
    }

    /// What is left to take up: the frames and commands that wait, and the
    /// operations of the pipeline that have succeeded.
    pub open spec fn backlog(self, handle: SpircView) -> nat {
        self.subscription.len() + handle.commands.len() + self.scrobbler.ready_count()
    }

    /// The scheduling loop: rounds follow one another until one fails, the
    /// engine is complete, or a round makes no progress.
    pub open spec fn poll(self, handle: SpircView, now: i64) -> Polled
        decreases self.backlog(handle),
    {
        let turn = self.turn(handle, now);
        match turn.report {
            Err(failure) => Polled { task: turn.task, handle: turn.handle, outcome: Err(failure) },
            Ok(progress) => if turn.task.finished() {
                Polled { task: turn.task, handle: turn.handle, outcome: Ok(Async::Ready) }
            } else if !progress {
                Polled { task: turn.task, handle: turn.handle, outcome: Ok(Async::NotReady) }
            } else {
                proof {
                    lemma_progress_shrinks_backlog(self, handle, now);
                }
                turn.task.poll(turn.handle, now)
            },
        }
    }
}

/// A step of the pipeline leaves no more operations to take up than there
/// were, and fewer where it reports progress.
pub proof fn lemma_step_takes_up(pipeline: ScrobblerView, now: i64)
    ensures
        pipeline.step(now).0.ready_count() <= pipeline.ready_count(),
        pipeline.step(now).1 == Ok::<bool, Seq<char>>(true) ==> pipeline.step(now).0.ready_count()
            < pipeline.ready_count(),
{
}

/// A round that makes progress leaves less to take up.
pub proof fn lemma_progress_shrinks_backlog(task: SpircTaskView, handle: SpircView, now: i64)
    ensures
        task.turn(handle, now).report == Ok::<bool, SpircError>(true) ==> task.turn(
            handle,
            now,
        ).task.backlog(task.turn(handle, now).handle) < task.backlog(handle),
{
    if !task.shutdown && !(task.subscription.len() == 0 && task.subscription_terminated) {
        let framed = task.subscription.len() > 0;
        let t1 = if framed {
            SpircTaskView {
                subscription: task.subscription.drop_first(),
                ..task
            }.handle_frame(task.subscription[0], now)
        } else {
            task
        };
        assert(t1.scrobbler.ready_count() <= task.scrobbler.ready_count());
        let commanded = handle.commands.len() > 0;
        let t2 = if commanded {
            t1.handle_command(handle.commands[0], now)
        } else {
            t1
        };
        assert(t2.scrobbler == t1.scrobbler);
        lemma_step_takes_up(t2.scrobbler, now);
    }
}

impl Spirc {
    /// Asks the engine to shut down. The request waits in the channel until
    /// the engine is polled; once the engine has closed the channel, the
    /// request is dropped.
    pub fn shutdown(&mut self)
        ensures
            final(self)@ == old(self)@.send(SpircCommand::Shutdown),
    {
        if !self.closed {
            self.commands.push(SpircCommand::Shutdown);
        }
    }

    /// Whether the engine has closed the channel.
    pub fn is_closed(&self) -> (closed: bool)
        ensures
            closed == self@.closed,
    {
        self.closed
    }

    /// Takes the oldest command out of the channel.
    fn receive(&mut self) -> (command: Option<SpircCommand>)
        ensures
            command == (if old(self)@.commands.len() > 0 {
                Some(old(self)@.commands[0])
            } else {
                None
            }),
            final(self)@ == (if old(self)@.commands.len() > 0 {
                old(self)@.received()
            } else {
                old(self)@
            }),
    {
        if self.commands.len() > 0 {
            let command = self.commands.remove(0);
            assert(self.commands@ =~= old(self).commands@.drop_first());
            Some(command)
        } else {
            None
        }
    }

    /// Closes the channel.
    fn close(&mut self)
        ensures
            final(self)@ == old(self)@.close(),
    {
        self.closed = true;
    }
}

/// Whether `item` stands in `list`.
fn contains(list: &Vec<String>, item: &String) -> (found: bool)
    ensures
        found == list.deep_view().contains(item@),
{
    let mut i: usize = 0;
    while i < list.len()
        invariant
            i <= list.len(),
            forall|j: int| 0 <= j < i ==> list.deep_view()[j] != item@,
        decreases list.len() - i,
    {
        if list[i] == *item {
            assert(list.deep_view()[i as int] == item@);
            return true;
        }
        i = i + 1;
    }
    false
}

/// An engine: the state of one device on the broadcast channel, and the
/// scrobble pipeline that it feeds.
#[derive(Debug)]
pub struct SpircTask {
    sequence: SeqGenerator,
    ident: String,
    uri: String,
    device: DeviceState,
    state: State,
    subscription: Vec<Frame>,
    subscription_terminated: bool,
    sender: Vec<Frame>,
    send_failed: bool,
    shutdown: bool,
    scrobbler: Scrobbler,
    scrobbler_errors: Vec<ScrobbleError>,
}

impl View for SpircTask {
    type V = SpircTaskView;

    closed spec fn view(&self) -> SpircTaskView {
        SpircTaskView {
            sequence: self.sequence.peek(),
            ident: self.ident@,
            uri: self.uri@,
            device: self.device@,
            state: self.state@,
            subscription: self.subscription.deep_view(),
            subscription_terminated: self.subscription_terminated,
            sender: self.sender.deep_view(),
            send_failed: self.send_failed,
            shutdown: self.shutdown,
            scrobbler: self.scrobbler@,
            scrobbler_errors: self.scrobbler_errors.deep_view(),
        }
    }
}

/// A frame on its way out: drawn up by [`CommandSender::new`], addressed and
/// filled in, then handed to the engine's send queue by
/// [`CommandSender::send`]. Its view is the frame.
#[derive(Debug)]
pub struct CommandSender {
    frame: Frame,
}

impl View for CommandSender {
    type V = FrameView;

    closed spec fn view(&self) -> FrameView {
        self.frame@
    }
}

impl CommandSender {
    /// Draws up a frame of kind `cmd` for `spirc` at the time `now`. It takes
    /// the engine's next sequence number and a copy of its device state.
    pub fn new(spirc: &mut SpircTask, cmd: MessageType, now: i64) -> (sender: CommandSender)
        ensures
            sender@ == old(spirc)@.draft(cmd, now),
            final(spirc)@ == old(spirc)@.advance(),
    {
        let frame = Frame {
            version: FRAME_VERSION,
            protocol_version: String::from_str("2.0.0"),
            ident: spirc.ident.clone(),
            seq_nr: spirc.sequence.get(),
            typ: cmd,
            recipient: Vec::new(),
            device_state: Some(spirc.device.clone()),
            state: None,
            state_update_id: now,
        };
        assert(frame.recipient.deep_view() =~= Seq::<Seq<char>>::empty());
        CommandSender { frame: frame }
    }

    /// Adds a recipient.
    pub fn recipient(self, recipient: &str) -> (sender: CommandSender)
        ensures
            sender@ == (FrameView { recipient: self@.recipient.push(recipient@), ..self@ }),
    {
        let mut frame = self.frame;
        frame.recipient.push(recipient.to_owned());
        assert(frame.recipient.deep_view() =~= self.frame.recipient.deep_view().push(recipient@));
        CommandSender { frame: frame }
    }

    /// Sets the playback state that the frame carries.
    pub fn state(self, state: State) -> (sender: CommandSender)
        ensures
            sender@ == (FrameView { state: Some(state@), ..self@ }),
    {
        let mut frame = self.frame;
        frame.state = Some(state);
        CommandSender { frame: frame }
    }

    /// Hands the frame to the send queue of `spirc`.
    pub fn send(self, spirc: &mut SpircTask)
        ensures
            final(spirc)@ == old(spirc)@.enqueue(self@),
    {
        let mut frame = self.frame;
        if frame.state.is_none() && spirc.device.is_active {
            frame.state = Some(spirc.state.clone());
        }
        spirc.sender.push(frame);
        assert(spirc.sender.deep_view() =~= old(spirc).sender.deep_view().push(frame@));
    }
}

impl Spirc {
    /// An engine for the device of `session`, and its handle. The engine
    /// starts the scrobble pipeline and says `Hello` to the channel at once.
    pub fn new(
        config: ConnectConfig,
        session: &SessionInfo,
        scrobbler_config: ScrobblerConfig,
        now: i64,
    ) -> (made: (Spirc, SpircTask))
        ensures
            made.0@ == SpircView::initial(),
            made.1@ == SpircTaskView::initial(config@, session@, scrobbler_config@).hello(now),
    {
        let ident = session.device_id.clone();
        let uri = remote_uri(session.username.as_str());
        let device = initial_device_state(config, INITIAL_VOLUME, session.user_agent.clone());
        let scrobbler = Scrobbler::new(scrobbler_config);
        let mut task = SpircTask {
            sequence: SeqGenerator::new(FIRST_SEQUENCE_NUMBER),
            ident: ident,
            uri: uri,
            device: device,
            state: initial_state(),
            subscription: Vec::new(),
            subscription_terminated: false,
            sender: Vec::new(),
            send_failed: false,
            shutdown: false,
            scrobbler: scrobbler,
            scrobbler_errors: Vec::new(),
        };
        assert(task.subscription.deep_view() =~= Seq::<FrameView>::empty());
        assert(task.sender.deep_view() =~= Seq::<FrameView>::empty());
        assert(task.scrobbler_errors.deep_view() =~= Seq::<Seq<char>>::empty());
        let spirc = Spirc { commands: Vec::new(), closed: false };
        task.hello(now);
        (spirc, task)
    }
}

impl SpircTask {
    /// Broadcasts a `Hello`.
    pub fn hello(&mut self, now: i64)
        ensures
            final(self)@ == old(self)@.hello(now),
    {
        CommandSender::new(self, MessageType::Hello, now).send(self);
    }

    /// Sends a `Notify`, to `recipient` alone if one is given.
    pub fn notify(&mut self, recipient: Option<&str>, now: i64)
        ensures
            final(self)@ == old(self)@.notify(
                match recipient {
                    Some(recipient) => Some(recipient@),
                    None => None,
                },
                now,
            ),
    {
        let mut cs = CommandSender::new(self, MessageType::Notify, now);
        if let Some(s) = recipient {
            cs = cs.recipient(s);
            assert(cs@.recipient =~= seq![s@]);
        }
        cs.send(self);
    }

    /// Carries out a command of the handle, and closes the channel.
    pub fn handle_command(&mut self, cmd: SpircCommand, handle: &mut Spirc, now: i64)
        ensures
            final(self)@ == old(self)@.handle_command(cmd, now),
            final(handle)@ == old(handle)@.close(),
    {
        match cmd {
            SpircCommand::Shutdown => {
                CommandSender::new(self, MessageType::Goodbye, now).send(self);
                self.shutdown = true;
                handle.close();
            },
        }
    }

    /// Takes up one inbound frame at the time `now`.
    pub fn handle_frame(&mut self, frame: Frame, now: i64)
        ensures
            final(self)@ == old(self)@.handle_frame(frame@, now),
    {
        if !self.addressed_by(&frame) {
            return ;
        }
        match frame.typ {
            MessageType::Hello => {
                self.notify(Some(frame.ident.as_str()), now);
            },
            MessageType::Notify => {
                // A device that is not active plays nothing that could be
                // scrobbled.
                match frame.playing_track() {
                    Some(playing_track_spotify_id) => {
                        self.scrobbler.update_current_track(playing_track_spotify_id, now);
                    },
                    None => {},
                }
            },
            _ => {},
        }
    }
}

impl SpircTask {
    /// Whether `frame` is for this device.
    fn addressed_by(&self, frame: &Frame) -> (addressed: bool)
        ensures
            addressed == self@.addressed_by(frame@),
    {
        !(frame.ident == self.ident || (frame.recipient.len() > 0 && !contains(
            &frame.recipient,
            &self.ident,
        )))
    }

    /// Takes in a frame that the subscription delivered. It is handled when
    /// the engine is next polled, after the frames delivered before it.
    pub fn deliver(&mut self, frame: Frame)
        ensures
            final(self)@ == old(self)@.deliver(frame@),
    {
        self.subscription.push(frame);
        assert(self.subscription.deep_view() =~= old(self).subscription.deep_view().push(frame@));
    }

    /// Notes that the subscription has come to an end.
    pub fn subscription_terminated(&mut self)
        ensures
            final(self)@ == (SpircTaskView { subscription_terminated: true, ..old(self)@ }),
    {
        self.subscription_terminated = true;
    }

    /// Notes that the transport could not send.
    pub fn send_failed(&mut self)
        ensures
            final(self)@ == (SpircTaskView { send_failed: true, ..old(self)@ }),
    {
        self.send_failed = true;
    }

    /// Notes that the transport has flushed the `count` oldest frames of the
    /// send queue.
    pub fn flushed(&mut self, count: usize)
        ensures
            final(self)@ == old(self)@.flushed(count as nat),
    {
        if count >= self.sender.len() {
            self.sender = Vec::new();
            assert(self.sender.deep_view() =~= Seq::<FrameView>::empty());
        } else {
            let rest = self.sender.split_off(count);
            self.sender = rest;
            assert(self.sender.deep_view() =~= old(self).sender.deep_view().subrange(
                count as int,
                old(self).sender.len() as int,
            ));
        }
    }

    fn work(&mut self, handle: &mut Spirc, now: i64) -> (report: Result<bool, SpircError>)
        ensures
            (Turn { task: final(self)@, handle: final(handle)@, report }) == old(self)@.work(
                old(handle)@,
                now,
            ),
    {
        let mut progress = false;
        if self.subscription.len() > 0 {
            let frame = self.subscription.remove(0);
            assert(self.subscription.deep_view() =~= old(
                self,
            ).subscription.deep_view().drop_first());
            assert(frame@ == old(self)@.subscription[0]);
            progress = true;
            self.handle_frame(frame, now);
        } else if self.subscription_terminated {
            return Err(SpircError::SubscriptionTerminated);
        }
        match handle.receive() {
            Some(command) => {
                progress = true;
                self.handle_command(command, handle, now);
            },
            None => {},
        }
        match self.scrobbler.poll(now) {
            Ok(advanced) => {
                if advanced {
                    progress = true;
                }
            },
            Err(err) => {
                self.scrobbler_errors.push(err);
                assert(self.scrobbler_errors.deep_view() =~= old(
                    self,
                ).scrobbler_errors.deep_view().push(err@));
            },
        }
        Ok(progress)
    }

    fn turn(&mut self, handle: &mut Spirc, now: i64) -> (report: Result<bool, SpircError>)
        ensures
            (Turn { task: final(self)@, handle: final(handle)@, report }) == old(self)@.turn(
                old(handle)@,
                now,
            ),
    {
        let mut progress = false;
        if !self.shutdown {
            match self.work(handle, now) {
                Ok(worked) => {
                    progress = worked;
                },
                Err(failure) => {
                    return Err(failure);
                },
            }
        }
        if self.send_failed {
            return Err(SpircError::SendFailed);
        }
        Ok(progress)
    }

    /// Runs the scheduling loop at the time `now`, with `handle` as the source
    /// of commands. `Ready` says that the engine was shut down and has nothing
    /// left to flush; `NotReady`, that it waits for input from outside.
    pub fn poll(&mut self, handle: &mut Spirc, now: i64) -> (outcome: Result<Async, SpircError>)
        ensures
            (Polled { task: final(self)@, handle: final(handle)@, outcome }) == old(self)@.poll(
                old(handle)@,
                now,
            ),
    {
        loop
            invariant
                self@.poll(handle@, now) == old(self)@.poll(old(handle)@, now),
            decreases self@.backlog(handle@),
        {
            let ghost before = self@;
            let ghost before_handle = handle@;
            let report = self.turn(handle, now);
            proof {
                lemma_progress_shrinks_backlog(before, before_handle, now);
            }
            match report {
                Err(failure) => {
                    return Err(failure);
                },
                Ok(progress) => {
                    // Only done once every frame that was sent has been flushed.
                    if self.shutdown && self.sender.len() == 0 {
                        return Ok(Async::Ready);
                    }
                    if !progress {
                        return Ok(Async::NotReady);
                    }
                },
            }
        }
    }

    /// The stable identity of this device.
    pub fn ident(&self) -> (ident: &String)
        ensures
            ident@ == self@.ident,
    {
        &self.ident
    }

    /// The topic of the broadcast channel that the engine belongs to.
    pub fn uri(&self) -> (uri: &String)
        ensures
            uri@ == self@.uri,
    {
        &self.uri
    }

    /// What this device advertises of itself.
    pub fn device(&self) -> (device: &DeviceState)
        ensures
            device@ == self@.device,
    {
        &self.device
    }

    /// The playback state that the engine holds.
    pub fn state(&self) -> (state: &State)
        ensures
            state@ == self@.state,
    {
        &self.state
    }

    /// Sets whether this device presents itself as the active player.
    pub fn set_active(&mut self, is_active: bool)
        ensures
            final(self)@ == (SpircTaskView {
                device: DeviceStateView { is_active, ..old(self)@.device },
                ..old(self)@
            }),
    {
        self.device.is_active = is_active;
    }

    /// Sets the volume that this device advertises.
    pub fn set_volume(&mut self, volume: u16)
        ensures
            final(self)@ == (SpircTaskView {
                device: DeviceStateView { volume: volume as u32, ..old(self)@.device },
                ..old(self)@
            }),
    {
        self.device.volume = volume as u32;
    }

    /// The frames that were sent and wait to be flushed, oldest first.
    pub fn sender(&self) -> (frames: &Vec<Frame>)
        ensures
            frames.deep_view() == self@.sender,
    {
        &self.sender
    }

    /// Whether the engine has been shut down.
    pub fn is_shutdown(&self) -> (shutdown: bool)
        ensures
            shutdown == self@.shutdown,
    {
        self.shutdown
    }

    /// The scrobble pipeline of the engine.
    pub fn scrobbler(&self) -> (scrobbler: &Scrobbler)
        ensures
            scrobbler@ == self@.scrobbler,
    {
        &self.scrobbler
    }

    /// Hands over the requests that the scrobble pipeline has recorded since
    /// the last call, oldest first.
    pub fn take_requests(&mut self) -> (requests: Vec<Request>)
        ensures
            requests.deep_view() == old(self)@.scrobbler.requests,
            final(self)@ == (SpircTaskView {
                scrobbler: ScrobblerView { requests: Seq::empty(), ..old(self)@.scrobbler },
                ..old(self)@
            }),
    {
        self.scrobbler.take_requests()
    }

    /// Hands the scrobble pipeline the outcome of an operation.
    pub fn complete(&mut self, response: Response)
        ensures
            final(self)@ == (SpircTaskView {
                scrobbler: old(self)@.scrobbler.complete(response@),
                ..old(self)@
            }),
    {
        self.scrobbler.complete(response);
    }

    /// Hands over the failures that the scrobble pipeline has reported since
    /// the last call, oldest first.
    pub fn take_scrobbler_errors(&mut self) -> (errors: Vec<ScrobbleError>)
        ensures
            errors.deep_view() == old(self)@.scrobbler_errors,
            final(self)@ == (SpircTaskView { scrobbler_errors: Seq::empty(), ..old(self)@ }),
    {
        let mut errors: Vec<ScrobbleError> = Vec::new();
        core::mem::swap(&mut errors, &mut self.scrobbler_errors);
        assert(self.scrobbler_errors.deep_view() =~= Seq::<Seq<char>>::empty());
        errors
    }
}

} // verus!
