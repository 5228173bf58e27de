//! What the protocol engine is configured with: how the device presents
//! itself, and what it reads of the transport session it is bound to.

use vstd::prelude::*;
use vstd::string::StringExecFns;

verus! {

/// The kind of device that this participant presents itself as.
#[derive(Clone, Copy, Debug, PartialEq, Eq, Hash, Structural)]
pub enum DeviceType {
    Unknown,
    Computer,
    Tablet,
    Smartphone,
    Speaker,
    TV,
    AVR,
    STB,
    AudioDongle,
}

impl DeviceType {
    /// The number that stands for the device type in the device-type
    /// capability.
    pub open spec fn code_of(self) -> i64 {
        match self {
            DeviceType::Unknown => 0,
            DeviceType::Computer => 1,
            DeviceType::Tablet => 2,
            DeviceType::Smartphone => 3,
            DeviceType::Speaker => 4,
            DeviceType::TV => 5,
            DeviceType::AVR => 6,
            DeviceType::STB => 7,
            DeviceType::AudioDongle => 8,
        }
    }

    /// The number that stands for the device type.
    pub fn code(self) -> (code: i64)
        ensures
            code == self.code_of(),
    {
        match self {
            DeviceType::Unknown => 0,
            DeviceType::Computer => 1,
            DeviceType::Tablet => 2,
            DeviceType::Smartphone => 3,
            DeviceType::Speaker => 4,
            DeviceType::TV => 5,
            DeviceType::AVR => 6,
            DeviceType::STB => 7,
            DeviceType::AudioDongle => 8,
        }
    }
}

impl DeviceType {
    /// The device type that goes by `name`, if one does. The names are in
    /// lower case.
    pub open spec fn named(name: Seq<char>) -> Option<DeviceType> {
        if name == "computer"@ {
            Some(DeviceType::Computer)
        } else if name == "tablet"@ {
            Some(DeviceType::Tablet)
        } else if name == "smartphone"@ {
            Some(DeviceType::Smartphone)
        } else if name == "speaker"@ {
            Some(DeviceType::Speaker)
        } else if name == "tv"@ {
            Some(DeviceType::TV)
        } else if name == "avr"@ {
            Some(DeviceType::AVR)
        } else if name == "stb"@ {
            Some(DeviceType::STB)
        } else if name == "audiodongle"@ {
            Some(DeviceType::AudioDongle)
        } else {
            None
        }
    }

    /// The device type that goes by `name`, if one does.
    pub fn from_name(name: &str) -> (device_type: Option<DeviceType>)
        ensures
            device_type == DeviceType::named(name@),
    {
        let name = String::from_str(name);
        if name == String::from_str("computer") {
            Some(DeviceType::Computer)
        } else if name == String::from_str("tablet") {
            Some(DeviceType::Tablet)
        } else if name == String::from_str("smartphone") {
            Some(DeviceType::Smartphone)
        } else if name == String::from_str("speaker") {
            Some(DeviceType::Speaker)
        } else if name == String::from_str("tv") {
            Some(DeviceType::TV)
        } else if name == String::from_str("avr") {
            Some(DeviceType::AVR)
        } else if name == String::from_str("stb") {
            Some(DeviceType::STB)
        } else if name == String::from_str("audiodongle") {
            Some(DeviceType::AudioDongle)
        } else {
            None
        }
    }
}

impl Default for DeviceType {
    fn default() -> (device_type: DeviceType)
        ensures
            device_type == DeviceType::Speaker,
    {
        DeviceType::Speaker
    }
}

/// How the device presents itself on the broadcast channel.
#[derive(Debug, PartialEq, Eq)]
pub struct ConnectConfig {
    pub name: String,
    pub device_type: DeviceType,
}

/// A connect configuration as the contracts see it.
pub ghost struct ConnectConfigView {
    pub name: Seq<char>,
    pub device_type: DeviceType,
}

impl View for ConnectConfig {
    type V = ConnectConfigView;

    open spec fn view(&self) -> ConnectConfigView {
        ConnectConfigView { name: self.name@, device_type: self.device_type }
    }
}

impl Clone for ConnectConfig {
    fn clone(&self) -> (res: Self)
        ensures
            res@ == self@,
    {
        ConnectConfig { name: self.name.clone(), device_type: self.device_type }
    }
}

/// What the engine reads of the transport session: the stable identity of
/// this device, the account it is signed in to, the session's own id, and the
/// version string that the client announces.
#[derive(Debug, PartialEq, Eq)]
pub struct SessionInfo {
    pub device_id: String,
    pub username: String,
    pub session_id: String,
    pub user_agent: String,
}

/// What the engine reads of a session, as the contracts see it.
pub ghost struct SessionInfoView {
    pub device_id: Seq<char>,
    pub username: Seq<char>,
    pub session_id: Seq<char>,
    pub user_agent: Seq<char>,
}

impl View for SessionInfo {
    type V = SessionInfoView;

    open spec fn view(&self) -> SessionInfoView {
        SessionInfoView {
            device_id: self.device_id@,
            username: self.username@,
            session_id: self.session_id@,
            user_agent: self.user_agent@,
        }
    }
}

impl Clone for SessionInfo {
    fn clone(&self) -> (res: Self)
        ensures
            res@ == self@,
    {
        SessionInfo {
            device_id: self.device_id.clone(),
            username: self.username.clone(),
            session_id: self.session_id.clone(),
            user_agent: self.user_agent.clone(),
        }
    }
}

} // verus!
