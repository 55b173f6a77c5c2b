//! Wire-level vocabulary of the vendor control protocol: request codes, the
//! sub-action and key selectors carried in `wValue`, and the setup packet.
use vstd::prelude::*;

verus! {

/// Request code carried in `bRequest`.
#[derive(Clone, Copy, Debug, PartialEq, Eq, Structural)]
pub enum ControlRequest {
    Nop,
    Power,
    Storage,
    Config,
    Read,
    PinSet,
}

/// Power sub-action carried in `wValue` of a Power OUT transfer.
#[derive(Clone, Copy, Debug, PartialEq, Eq, Structural)]
pub enum PowerAction {
    Nop,
    Off,
    On,
    ForceOff,
    ForceOn,
    Rescue,
}

/// Storage sub-action carried in `wValue` of a Storage OUT transfer.
#[derive(Clone, Copy, Debug, PartialEq, Eq, Structural)]
pub enum StorageAction {
    Nop,
    Off,
    Host,
    DUT,
}

/// Field of the configuration record selected by `wValue`.
#[derive(Clone, Copy, Debug, PartialEq, Eq, Structural)]
pub enum ConfigKey {
    Name,
    Tags,
    Json,
    UsbConsole,
    PowerOn,
    PowerOff,
    PowerRescue,
}

/// Quantity selected by `wValue` of a Read IN transfer.
#[derive(Clone, Copy, Debug, PartialEq, Eq, Structural)]
pub enum ReadKey {
    Version,
    Power,
    Voltage,
    Current,
}

/// Logical pin selected by `wValue` of a Set OUT transfer.
#[derive(Clone, Copy, Debug, PartialEq, Eq, Structural)]
pub enum SetPin {
    Reset,
    A,
    B,
    C,
    D,
}

/// Logical pin level carried in the first data byte of a Set OUT transfer.
#[derive(Clone, Copy, Debug, PartialEq, Eq, Structural)]
pub enum SetPinState {
    Low,
    High,
    Floating,
}

/// Request type field of `bmRequestType`.
#[derive(Clone, Copy, Debug, PartialEq, Eq, Structural)]
pub enum RequestKind {
    Standard,
    Class,
    Vendor,
    Reserved,
}

/// Recipient field of `bmRequestType`.
#[derive(Clone, Copy, Debug, PartialEq, Eq, Structural)]
pub enum Recipient {
    Device,
    Interface,
    Endpoint,
    Other,
    Reserved,
}

/// The fields of a control transfer's setup stage that the engine reads.
#[derive(Clone, Copy, Debug, PartialEq, Eq, Structural)]
pub struct SetupPacket {
    pub kind: RequestKind,
    pub recipient: Recipient,
    pub request: u8,
    pub value: u16,
    pub index: u16,
}

pub open spec fn request_of(code: u8) -> Option<ControlRequest> {
    if code == 0 {
        Some(ControlRequest::Nop)
    } else if code == 1 {
        Some(ControlRequest::Power)
    } else if code == 2 {
        Some(ControlRequest::Storage)
    } else if code == 3 {
        Some(ControlRequest::Config)
    } else if code == 4 {
        Some(ControlRequest::Read)
    } else if code == 5 {
        Some(ControlRequest::PinSet)
    } else {
        None
    }
}

pub open spec fn power_action_of(v: u16) -> Option<PowerAction> {
    if v == 0 {
        Some(PowerAction::Nop)
    } else if v == 1 {
        Some(PowerAction::Off)
    } else if v == 2 {
        Some(PowerAction::On)
    } else if v == 3 {
        Some(PowerAction::ForceOff)
    } else if v == 4 {
        Some(PowerAction::ForceOn)
    } else if v == 5 {
        Some(PowerAction::Rescue)
    } else {
        None
    }
}

pub open spec fn storage_action_of(v: u16) -> Option<StorageAction> {
    if v == 0 {
        Some(StorageAction::Nop)
    } else if v == 1 {
        Some(StorageAction::Off)
    } else if v == 2 {
        Some(StorageAction::Host)
    } else if v == 3 {
        Some(StorageAction::DUT)
    } else {
        None
    }
}

pub open spec fn config_key_of(v: u16) -> Option<ConfigKey> {
    if v == 0 {
        Some(ConfigKey::Name)
    } else if v == 1 {
        Some(ConfigKey::Tags)
    } else if v == 2 {
        Some(ConfigKey::Json)
    } else if v == 3 {
        Some(ConfigKey::UsbConsole)
    } else if v == 4 {
        Some(ConfigKey::PowerOn)
    } else if v == 5 {
        Some(ConfigKey::PowerOff)
    } else if v == 6 {
        Some(ConfigKey::PowerRescue)
    } else {
        None
    }
}

pub open spec fn read_key_of(v: u16) -> Option<ReadKey> {
    if v == 0 {
        Some(ReadKey::Version)
    } else if v == 1 {
        Some(ReadKey::Power)
    } else if v == 2 {
        Some(ReadKey::Voltage)
    } else if v == 3 {
        Some(ReadKey::Current)
    } else {
        None
    }
}

pub open spec fn set_pin_of(v: u16) -> Option<SetPin> {
    if v == 0 {
        Some(SetPin::Reset)
    } else if v == 1 {
        Some(SetPin::A)
    } else if v == 2 {
        Some(SetPin::B)
    } else if v == 3 {
        Some(SetPin::C)
    } else if v == 4 {
        Some(SetPin::D)
    } else {
        None
    }
}

pub open spec fn pin_state_of(b: u8) -> Option<SetPinState> {
    if b == 0 {
        Some(SetPinState::Low)
    } else if b == 1 {
        Some(SetPinState::High)
    } else if b == 2 {
        Some(SetPinState::Floating)
    } else {
        None
    }
}

impl ControlRequest {
    /// Decodes `bRequest`; unknown codes give `None`.
    pub fn from_code(code: u8) -> (r: Option<ControlRequest>)
        ensures
            r == request_of(code),
    {
        match code {
            0 => Some(ControlRequest::Nop),
            1 => Some(ControlRequest::Power),
            2 => Some(ControlRequest::Storage),
            3 => Some(ControlRequest::Config),
            4 => Some(ControlRequest::Read),
            5 => Some(ControlRequest::PinSet),
            _ => None,
        }
    }
}

impl PowerAction {
    /// Decodes a power sub-action; out-of-range values give `None`.
    pub fn from_value(v: u16) -> (r: Option<PowerAction>)
        ensures
            r == power_action_of(v),
    {
        match v {
            0 => Some(PowerAction::Nop),
            1 => Some(PowerAction::Off),
            2 => Some(PowerAction::On),
            3 => Some(PowerAction::ForceOff),
            4 => Some(PowerAction::ForceOn),
            5 => Some(PowerAction::Rescue),
            _ => None,
        }
    }
}

impl StorageAction {
    /// Decodes a storage sub-action; out-of-range values give `None`.
    pub fn from_value(v: u16) -> (r: Option<StorageAction>)
        ensures
            r == storage_action_of(v),
    {
        match v {
            0 => Some(StorageAction::Nop),
            1 => Some(StorageAction::Off),
            2 => Some(StorageAction::Host),
            3 => Some(StorageAction::DUT),
            _ => None,
        }
    }
}

impl ConfigKey {
    /// Decodes a configuration key; out-of-range values give `None`.
    pub fn from_value(v: u16) -> (r: Option<ConfigKey>)
        ensures
            r == config_key_of(v),
    {
        match v {
            0 => Some(ConfigKey::Name),
            1 => Some(ConfigKey::Tags),
            2 => Some(ConfigKey::Json),
            3 => Some(ConfigKey::UsbConsole),
            4 => Some(ConfigKey::PowerOn),
            5 => Some(ConfigKey::PowerOff),
            6 => Some(ConfigKey::PowerRescue),
            _ => None,
        }
    }
}

impl ReadKey {
    /// Decodes a read key; out-of-range values give `None`.
    pub fn from_value(v: u16) -> (r: Option<ReadKey>)
        ensures
            r == read_key_of(v),
    {
        match v {
            0 => Some(ReadKey::Version),
            1 => Some(ReadKey::Power),
            2 => Some(ReadKey::Voltage),
            3 => Some(ReadKey::Current),
            _ => None,
        }
    }
}

impl SetPin {
    /// Decodes a logical pin selector; out-of-range values give `None`.
    pub fn from_value(v: u16) -> (r: Option<SetPin>)
        ensures
            r == set_pin_of(v),
    {
        match v {
            0 => Some(SetPin::Reset),
            1 => Some(SetPin::A),
            2 => Some(SetPin::B),
            3 => Some(SetPin::C),
            4 => Some(SetPin::D),
            _ => None,
        }
    }
}

impl SetPinState {
    /// Decodes a pin level byte; anything outside `{0, 1, 2}` gives `None`.
    pub fn from_byte(b: u8) -> (r: Option<SetPinState>)
        ensures
            r == pin_state_of(b),
    {
        match b {
            0 => Some(SetPinState::Low),
            1 => Some(SetPinState::High),
            2 => Some(SetPinState::Floating),
            _ => None,
        }
    }
}

/// Whether a transfer is addressed to the vendor interface numbered `iface`.
pub open spec fn addressed_to(setup: SetupPacket, iface: u8) -> bool {
    &&& setup.kind == RequestKind::Vendor
    &&& setup.recipient == Recipient::Interface
    &&& setup.index == iface as u16
}

impl SetupPacket {
    /// Dispatch filter: vendor request, interface recipient, matching index.
    pub fn is_for(&self, iface: u8) -> (r: bool)
        ensures
            r == addressed_to(*self, iface),
    {
        self.kind == RequestKind::Vendor && self.recipient == Recipient::Interface
            && self.index == iface as u16
    }
}

} // verus!
