//! The structured messages of the Connect protocol: frames, device state and
//! playback state, each with a mathematical view that the contracts speak of.

use crate::util::SpotifyId;
use vstd::prelude::*;

verus! {

/// The kinds of frame this participant tells apart. Every other kind on the
/// wire is carried as `Other` and never acted upon.
#[derive(Clone, Copy, Debug, PartialEq, Eq, Structural)]
pub enum MessageType {
    Hello,
    Notify,
    Goodbye,
    Other,
}

/// Whether the shared player is stopped, playing or paused, or is loading
/// what it is about to play.
#[derive(Clone, Copy, Debug, PartialEq, Eq, Structural)]
pub enum PlayStatus {
    Stop,
    Play,
    Pause,
    Loading,
}

/// The capabilities a device advertises.
#[derive(Clone, Copy, Debug, PartialEq, Eq, Structural)]
pub enum CapabilityType {
    CanBePlayer,
    DeviceType,
    GaiaEqConnectId,
    SupportsLogout,
    IsObservable,
    VolumeSteps,
    SupportedContexts,
    SupportedTypes,
}

/// One advertised capability: its kind and its integer or string values.
#[derive(Debug, PartialEq, Eq)]
pub struct Capability {
    pub typ: CapabilityType,
    pub int_value: Vec<i64>,
    pub string_value: Vec<String>,
}

/// A capability as the contracts see it.
pub ghost struct CapabilityView {
    pub typ: CapabilityType,
    pub int_value: Seq<i64>,
    pub string_value: Seq<Seq<char>>,
}

impl View for Capability {
    type V = CapabilityView;

    open spec fn view(&self) -> CapabilityView {
        CapabilityView {
            typ: self.typ,
            int_value: self.int_value@,
            string_value: self.string_value.deep_view(),
        }
    }
}

impl DeepView for Capability {
    type V = CapabilityView;

    open spec fn deep_view(&self) -> CapabilityView {
        self@
    }
}

impl Clone for Capability {
    fn clone(&self) -> (res: Self)
        ensures
            res@ == self@,
    {
        let res = Capability {
            typ: self.typ,
            int_value: self.int_value.clone(),
            string_value: self.string_value.clone(),
        };
        assert(res.int_value@ =~= self.int_value@);
        assert(res.string_value.deep_view() =~= self.string_value.deep_view());
        res
    }
}

/// What a device advertises of itself.
#[derive(Debug, PartialEq, Eq)]
pub struct DeviceState {
    pub sw_version: String,
    pub is_active: bool,
    pub can_play: bool,
    pub volume: u32,
    pub name: String,
    pub capabilities: Vec<Capability>,
}

/// A device state as the contracts see it.
pub ghost struct DeviceStateView {
    pub sw_version: Seq<char>,
    pub is_active: bool,
    pub can_play: bool,
    pub volume: u32,
    pub name: Seq<char>,
    pub capabilities: Seq<CapabilityView>,
}

impl View for DeviceState {
    type V = DeviceStateView;

    open spec fn view(&self) -> DeviceStateView {
        DeviceStateView {
            sw_version: self.sw_version@,
            is_active: self.is_active,
            can_play: self.can_play,
            volume: self.volume,
            name: self.name@,
            capabilities: self.capabilities.deep_view(),
        }
    }
}

impl Clone for DeviceState {
    fn clone(&self) -> (res: Self)
        ensures
            res@ == self@,
    {
        let res = DeviceState {
            sw_version: self.sw_version.clone(),
            is_active: self.is_active,
            can_play: self.can_play,
            volume: self.volume,
            name: self.name.clone(),
            capabilities: self.capabilities.clone(),
        };
        assert(res.capabilities.deep_view() =~= self.capabilities.deep_view());
        res
    }
}

/// A raw reference to a track, as it stands in a playback state.
#[derive(Debug, PartialEq, Eq)]
pub struct TrackRef {
    pub gid: Vec<u8>,
}

impl View for TrackRef {
    type V = Seq<u8>;

    open spec fn view(&self) -> Seq<u8> {
        self.gid@
    }
}

impl DeepView for TrackRef {
    type V = Seq<u8>;

    open spec fn deep_view(&self) -> Seq<u8> {
        self@
    }
}

impl Clone for TrackRef {
    fn clone(&self) -> (res: Self)
        ensures
            res@ == self@,
    {
        let res = TrackRef { gid: self.gid.clone() };
        assert(res.gid@ =~= self.gid@);
        res
    }
}

/// The shared playback state as a device last broadcast it.
#[derive(Debug, PartialEq, Eq)]
pub struct State {
    pub repeat: bool,
    pub shuffle: bool,
    pub status: PlayStatus,
    pub position_ms: u32,
    pub position_measured_at: u64,
    pub track: Vec<TrackRef>,
    pub playing_track_index: u32,
}

/// A playback state as the contracts see it. Each track reference is seen as
/// its raw bytes.
pub ghost struct StateView {
    pub repeat: bool,
    pub shuffle: bool,
    pub status: PlayStatus,
    pub position_ms: u32,
    pub position_measured_at: u64,
    pub track: Seq<Seq<u8>>,
    pub playing_track_index: u32,
}

impl View for State {
    type V = StateView;

    open spec fn view(&self) -> StateView {
        StateView {
            repeat: self.repeat,
            shuffle: self.shuffle,
            status: self.status,
            position_ms: self.position_ms,
            position_measured_at: self.position_measured_at,
            track: self.track.deep_view(),
            playing_track_index: self.playing_track_index,
        }
    }
}

impl Clone for State {
    fn clone(&self) -> (res: Self)
        ensures
            res@ == self@,
    {
        let res = State {
            repeat: self.repeat,
            shuffle: self.shuffle,
            status: self.status,
            position_ms: self.position_ms,
            position_measured_at: self.position_measured_at,
            track: self.track.clone(),
            playing_track_index: self.playing_track_index,
        };
        assert(res.track.deep_view() =~= self.track.deep_view());
        res
    }
}

/// One control message on the broadcast channel.
#[derive(Debug, PartialEq, Eq)]
pub struct Frame {
    pub version: u32,
    pub protocol_version: String,
    pub ident: String,
    pub seq_nr: u32,
    pub typ: MessageType,
    pub recipient: Vec<String>,
    pub device_state: Option<DeviceState>,
    pub state: Option<State>,
    pub state_update_id: i64,
}

/// A frame as the contracts see it.
pub ghost struct FrameView {
    pub version: u32,
    pub protocol_version: Seq<char>,
    pub ident: Seq<char>,
    pub seq_nr: u32,
    pub typ: MessageType,
    pub recipient: Seq<Seq<char>>,
    pub device_state: Option<DeviceStateView>,
    pub state: Option<StateView>,
    pub state_update_id: i64,
}

impl View for Frame {
    type V = FrameView;

    open spec fn view(&self) -> FrameView {
        FrameView {
            version: self.version,
            protocol_version: self.protocol_version@,
            ident: self.ident@,
            seq_nr: self.seq_nr,
            typ: self.typ,
            recipient: self.recipient.deep_view(),
            device_state: match self.device_state {
                Some(d) => Some(d@),
                None => None,
            },
            state: match self.state {
                Some(s) => Some(s@),
                None => None,
            },
            state_update_id: self.state_update_id,
        }
    }
}

impl DeepView for Frame {
    type V = FrameView;

    open spec fn deep_view(&self) -> FrameView {
        self@
    }
}

impl Clone for Frame {
    fn clone(&self) -> (res: Self)
        ensures
            res@ == self@,
    {
        let res = Frame {
            version: self.version,
            protocol_version: self.protocol_version.clone(),
            ident: self.ident.clone(),
            seq_nr: self.seq_nr,
            typ: self.typ,
            recipient: self.recipient.clone(),
            device_state: match &self.device_state {
                Some(d) => Some(d.clone()),
                None => None,
            },
            state: match &self.state {
                Some(s) => Some(s.clone()),
                None => None,
            },
            state_update_id: self.state_update_id,
        };
        assert(res.recipient.deep_view() =~= self.recipient.deep_view());
        res
    }
}

impl FrameView {
    /// Whether the sender presents itself as the active player.
    pub open spec fn from_active_device(self) -> bool {
        self.device_state is Some && self.device_state->0.is_active
    }

    /// The track list that the frame carries; empty where it carries no
    /// playback state.
    pub open spec fn tracks(self) -> Seq<Seq<u8>> {
        match self.state {
            Some(state) => state.track,
            None => Seq::empty(),
        }
    }

    /// The position in the track list that the frame gives as playing.
    pub open spec fn playing_index(self) -> int {
        match self.state {
            Some(state) => state.playing_track_index as int,
            None => 0,
        }
    }

    /// Whether the frame tells of a playing track: a `Notify` of an active
    /// device with a track list that is not empty.
    pub open spec fn reports_track(self) -> bool {
        &&& self.typ == MessageType::Notify
        &&& self.from_active_device()
        &&& self.tracks().len() > 0
    }

    /// The identifier of the track that the frame gives as playing. There is
    /// none unless the frame tells of a playing track, points into its track
    /// list, and has an identifier there.
    pub open spec fn playing_track(self) -> Option<SpotifyId> {
        if self.reports_track() && self.playing_index() < self.tracks().len() {
            SpotifyId::from_raw_view(self.tracks()[self.playing_index()])
        } else {
            None
        }
    }
}

impl Frame {
    /// The identifier of the track that the frame gives as playing, if it
    /// gives one.
    pub fn playing_track(&self) -> (track: Option<SpotifyId>)
        ensures
            track == self@.playing_track(),
    {
        if self.typ != MessageType::Notify {
            return None;
        }
        let active = match &self.device_state {
            Some(device) => device.is_active,
            None => false,
        };
        if !active {
            return None;
        }
        match &self.state {
            Some(state) => {
                let index = state.playing_track_index as usize;
                if index >= state.track.len() {
                    return None;
                }
                assert(state.track.deep_view()[index as int] == state.track@[index as int]@);
                match SpotifyId::from_raw(state.track[index].gid.as_slice()) {
                    Ok(id) => Some(id),
                    Err(_) => None,
                }
            },
            None => None,
        }
    }
}

} // verus!
