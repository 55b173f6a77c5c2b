//! The vendor control protocol engine: decode now, execute later.
//!
//! OUT transfers are decoded into single-slot pending mailboxes, one per
//! action category, where a later write replaces an unconsumed earlier one.
//! The deferred-execution step takes every slot and returns the commands that
//! the collaborators must carry out. IN transfers are answered from a cache
//! that the feed step refreshes once per poll cycle.
use vstd::prelude::*;

use crate::bytes::copy_bytes;
use crate::config::{ConfigRecord, ConfigView, empty_config};
use crate::payload::{bounded_as_slice, bounded_from_slice, held_bytes};
use crate::protocol::{
    addressed_to, config_key_of, pin_state_of, power_action_of, read_key_of, request_of,
    set_pin_of, storage_action_of, ConfigKey, ControlRequest, PowerAction, ReadKey, SetPin,
    SetPinState, SetupPacket, StorageAction,
};
use crate::telemetry::{format_reading, lemma_reading_shaped, lemma_reading_text_len, reading_shaped, reading_text, Reading, UNIT_AMPERE, UNIT_VOLT, UNIT_WATT};

verus! {

/// Capacity of the staged configuration payload, in bytes.
pub const PAYLOAD_CAPACITY: usize = 256;

/// Longest version string served to the host, in bytes.
pub const VERSION_CAPACITY: usize = 128;

/// Outcome of an OUT transfer.
#[derive(Clone, Copy, Debug, PartialEq, Eq, Structural)]
pub enum OutReply {
    /// Not addressed to this engine: left for other classes to claim.
    Ignored,
    /// Acknowledged with a zero-length status stage.
    Accepted,
    /// Stalled.
    Rejected,
}

/// Outcome of an IN transfer.
#[derive(Debug)]
pub enum InReply {
    /// Not addressed to this engine: left for other classes to claim.
    Ignored,
    /// Stalled.
    Rejected,
    /// Answered with these bytes in the data stage.
    Data(Vec<u8>),
}

pub ghost enum InReplyView {
    Ignored,
    Rejected,
    Data(Seq<u8>),
}

impl View for InReply {
    type V = InReplyView;

    open spec fn view(&self) -> InReplyView {
        match self {
            InReply::Ignored => InReplyView::Ignored,
            InReply::Rejected => InReplyView::Rejected,
            InReply::Data(d) => InReplyView::Data(d@),
        }
    }
}

/// Pin level in the pin driver's tri-state terms.
#[derive(Clone, Copy, Debug, PartialEq, Eq, Structural)]
pub enum PinState {
    Low,
    High,
    Floating,
}

/// A power sequence for the pin driver to play.
#[derive(Debug)]
pub enum PowerCommand {
    On(Vec<u8>),
    Off(Vec<u8>),
}

pub ghost enum PowerCommandView {
    On(Seq<u8>),
    Off(Seq<u8>),
}

impl View for PowerCommand {
    type V = PowerCommandView;

    open spec fn view(&self) -> PowerCommandView {
        match self {
            PowerCommand::On(s) => PowerCommandView::On(s@),
            PowerCommand::Off(s) => PowerCommandView::Off(s@),
        }
    }
}

/// A call on the storage switch.
#[derive(Clone, Copy, Debug, PartialEq, Eq, Structural)]
pub enum StorageCommand {
    PowerOff,
    ConnectToHost,
    ConnectToDut,
}

/// What one deferred-execution step asks of the collaborators, in order:
/// persist a record, play a power sequence, switch storage, set one pin.
#[derive(Debug)]
pub struct Deferred {
    pub config: Option<ConfigRecord>,
    pub power: Option<PowerCommand>,
    pub storage: Option<StorageCommand>,
    pub pin: Option<(SetPin, PinState)>,
}

pub ghost struct DeferredView {
    pub config: Option<ConfigView>,
    pub power: Option<PowerCommandView>,
    pub storage: Option<StorageCommand>,
    pub pin: Option<(SetPin, PinState)>,
}

impl View for Deferred {
    type V = DeferredView;

    open spec fn view(&self) -> DeferredView {
        DeferredView {
            config: match self.config {
                Some(c) => Some(c@),
                None => None,
            },
            power: match self.power {
                Some(p) => Some(p@),
                None => None,
            },
            storage: self.storage,
            pin: self.pin,
        }
    }
}

/// The pending mailboxes, one slot per action category.
pub ghost struct Pending {
    pub config: Option<(ConfigKey, Seq<u8>)>,
    pub power: Option<PowerAction>,
    pub storage: Option<StorageAction>,
    pub pin: Option<(SetPin, SetPinState)>,
}

pub open spec fn no_pending() -> Pending {
    Pending { config: None, power: None, storage: None, pin: None }
}

/// Abstract state of the engine.
pub ghost struct EngineView {
    pub iface: u8,
    pub pending: Pending,
    pub config: ConfigView,
    pub power: Reading,
    pub voltage: Reading,
    pub current: Reading,
    pub version: Seq<u8>,
}

/// Reply to an OUT transfer carrying `data`.
pub open spec fn out_reply(iface: u8, s: SetupPacket, data: Seq<u8>) -> OutReply {
    if !addressed_to(s, iface) {
        OutReply::Ignored
    } else {
        let ok = match request_of(s.request) {
            Some(ControlRequest::Nop) => true,
            Some(ControlRequest::Power) => power_action_of(s.value) is Some,
            Some(ControlRequest::Storage) => storage_action_of(s.value) is Some,
            Some(ControlRequest::Config) => config_key_of(s.value) is Some && data.len()
                <= PAYLOAD_CAPACITY,
            Some(ControlRequest::PinSet) => set_pin_of(s.value) is Some && data.len() > 0
                && pin_state_of(data[0]) is Some,
            _ => false,
        };
        if ok {
            OutReply::Accepted
        } else {
            OutReply::Rejected
        }
    }
}

/// Pending mailboxes after an OUT transfer carrying `data`: an accepted
/// command overwrites its category's slot; nothing else changes.
pub open spec fn staged(p: Pending, iface: u8, s: SetupPacket, data: Seq<u8>) -> Pending {
    if out_reply(iface, s, data) != OutReply::Accepted {
        p
    } else {
        match request_of(s.request) {
            Some(ControlRequest::Power) => Pending { power: power_action_of(s.value), ..p },
            Some(ControlRequest::Storage) => Pending { storage: storage_action_of(s.value), ..p },
            Some(ControlRequest::Config) => Pending {
                config: Some((config_key_of(s.value).unwrap(), data)),
                ..p
            },
            Some(ControlRequest::PinSet) => Pending {
                pin: Some((set_pin_of(s.value).unwrap(), pin_state_of(data[0]).unwrap())),
                ..p
            },
            _ => p,
        }
    }
}

/// Reply to an IN transfer, answered from the cache.
pub open spec fn in_reply(e: EngineView, s: SetupPacket) -> InReplyView {
    if !addressed_to(s, e.iface) {
        InReplyView::Ignored
    } else {
        match request_of(s.request) {
            Some(ControlRequest::Config) => match config_key_of(s.value) {
                Some(k) => InReplyView::Data(e.config.field(k)),
                None => InReplyView::Rejected,
            },
            Some(ControlRequest::Read) => match read_key_of(s.value) {
                Some(ReadKey::Version) => InReplyView::Data(e.version),
                Some(ReadKey::Power) => InReplyView::Data(
                    reading_text(e.power.hundredths as int, UNIT_WATT),
                ),
                Some(ReadKey::Voltage) => InReplyView::Data(
                    reading_text(e.voltage.hundredths as int, UNIT_VOLT),
                ),
                Some(ReadKey::Current) => InReplyView::Data(
                    reading_text(e.current.hundredths as int, UNIT_AMPERE),
                ),
                None => InReplyView::Rejected,
            },
            _ => InReplyView::Rejected,
        }
    }
}

pub open spec fn pin_level(s: SetPinState) -> PinState {
    match s {
        SetPinState::Low => PinState::Low,
        SetPinState::High => PinState::High,
        SetPinState::Floating => PinState::Floating,
    }
}

pub open spec fn power_command(a: PowerAction, cached: ConfigView) -> Option<PowerCommandView> {
    match a {
        PowerAction::Nop => None,
        PowerAction::Off => Some(PowerCommandView::Off(cached.power_off)),
        PowerAction::On => Some(PowerCommandView::On(cached.power_on)),
        PowerAction::ForceOff => Some(PowerCommandView::Off(Seq::empty())),
        PowerAction::ForceOn => Some(PowerCommandView::On(Seq::empty())),
        PowerAction::Rescue => Some(PowerCommandView::On(cached.power_rescue)),
    }
}

pub open spec fn storage_command(a: StorageAction) -> Option<StorageCommand> {
    match a {
        StorageAction::Nop => None,
        StorageAction::Off => Some(StorageCommand::PowerOff),
        StorageAction::Host => Some(StorageCommand::ConnectToHost),
        StorageAction::DUT => Some(StorageCommand::ConnectToDut),
    }
}

/// Commands that deferred execution derives from the pending slots, given the
/// cached configuration (for power sequences) and the stored record (for the
/// copy-modify-write of a configuration field).
pub open spec fn executed(p: Pending, cached: ConfigView, stored: ConfigView) -> DeferredView {
    DeferredView {
        config: match p.config {
            Some((k, v)) => Some(stored.with(k, v)),
            None => None,
        },
        power: match p.power {
            Some(a) => power_command(a, cached),
            None => None,
        },
        storage: match p.storage {
            Some(a) => storage_command(a),
            None => None,
        },
        pin: match p.pin {
            Some((pin, s)) => Some((pin, pin_level(s))),
            None => None,
        },
    }
}

/// Cached telemetry and configuration served to IN transfers.
pub struct Data {
    pub power: Reading,
    pub voltage: Reading,
    pub current: Reading,
    pub config: ConfigRecord,
}

/// The protocol engine bound to one vendor interface.
pub struct ControlClass {
    iface: u8,
    config: Option<(ConfigKey, heapless::Vec<u8, 256>)>,
    power: Option<PowerAction>,
    storage: Option<StorageAction>,
    pin: Option<(SetPin, SetPinState)>,
    data: Data,
    version: Vec<u8>,
}

impl View for ControlClass {
    type V = EngineView;

    closed spec fn view(&self) -> EngineView {
        EngineView {
            iface: self.iface,
            pending: Pending {
                config: match self.config {
                    Some((k, v)) => Some((k, held_bytes(v))),
                    None => None,
                },
                power: self.power,
                storage: self.storage,
                pin: self.pin,
            },
            config: self.data.config@,
            power: self.data.power,
            voltage: self.data.voltage,
            current: self.data.current,
            version: self.version@,
        }
    }
}

impl ControlClass {
    /// An engine bound to interface `iface`, with nothing pending, zero
    /// readings, an empty cached record, and `version` as its version string.
    pub fn new(iface: u8, version: Vec<u8>) -> (r: ControlClass)
        requires
            version@.len() <= VERSION_CAPACITY,
        ensures
            r@ == (EngineView {
                iface,
                pending: no_pending(),
                config: empty_config(),
                power: Reading { hundredths: 0 },
                voltage: Reading { hundredths: 0 },
                current: Reading { hundredths: 0 },
                version: version@,
            }),
    {
        ControlClass {
            iface,
            config: None,
            power: None,
            storage: None,
            pin: None,
            data: Data {
                power: Reading { hundredths: 0 },
                voltage: Reading { hundredths: 0 },
                current: Reading { hundredths: 0 },
                config: ConfigRecord::new(),
            },
            version,
        }
    }

    /// The interface number this engine answers on.
    pub fn interface(&self) -> (r: u8)
        ensures
            r == self@.iface,
    {
        self.iface
    }

    /// Cache refresh: copies the meter readings and the stored record.
    pub fn feed(&mut self, config: &ConfigRecord, power: Reading, voltage: Reading, current: Reading)
        ensures
            final(self)@ == (EngineView {
                config: config@,
                power,
                voltage,
                current,
                ..old(self)@
            }),
    {
        self.data.power = power;
        self.data.voltage = voltage;
        self.data.current = current;
        self.data.config = config.duplicate();
    }
    /// Decode phase of an OUT transfer carrying `data`: validates the request
    /// and stages it in its category's slot, replacing what was pending
    /// there. Nothing is actuated here.
    pub fn control_out(&mut self, setup: &SetupPacket, data: &[u8]) -> (r: OutReply)
        ensures
            r == out_reply(old(self)@.iface, *setup, data@),
            final(self)@ == (EngineView {
                pending: staged(old(self)@.pending, old(self)@.iface, *setup, data@),
                ..old(self)@
            }),
    {
        if !setup.is_for(self.iface) {
            return OutReply::Ignored;
        }
        match ControlRequest::from_code(setup.request) {
            Some(ControlRequest::Nop) => OutReply::Accepted,
            Some(ControlRequest::Power) => match PowerAction::from_value(setup.value) {
                Some(action) => {
                    self.power = Some(action);
                    OutReply::Accepted
                },
                None => OutReply::Rejected,
            },
            Some(ControlRequest::Storage) => match StorageAction::from_value(setup.value) {
                Some(action) => {
                    self.storage = Some(action);
                    OutReply::Accepted
                },
                None => OutReply::Rejected,
            },
            Some(ControlRequest::Config) => match ConfigKey::from_value(setup.value) {
                Some(key) => match bounded_from_slice(data) {
                    Ok(payload) => {
                        self.config = Some((key, payload));
                        OutReply::Accepted
                    },
                    Err(()) => OutReply::Rejected,
                },
                None => OutReply::Rejected,
            },
            Some(ControlRequest::PinSet) => match SetPin::from_value(setup.value) {
                Some(pin) => {
                    if data.len() == 0 {
                        OutReply::Rejected
                    } else {
                        match SetPinState::from_byte(data[0]) {
                            Some(state) => {
                                self.pin = Some((pin, state));
                                OutReply::Accepted
                            },
                            None => OutReply::Rejected,
                        }
                    }
                },
                None => OutReply::Rejected,
            },
            _ => OutReply::Rejected,
        }
    }

    /// Answers an IN transfer from the cached snapshot.
    pub fn control_in(&self, setup: &SetupPacket) -> (r: InReply)
        ensures
            r@ == in_reply(self@, *setup),
    {
        if !setup.is_for(self.iface) {
            return InReply::Ignored;
        }
        match ControlRequest::from_code(setup.request) {
            Some(ControlRequest::Config) => match ConfigKey::from_value(setup.value) {
                Some(key) => InReply::Data(copy_bytes(self.data.config.field(key).as_slice())),
                None => InReply::Rejected,
            },
            Some(ControlRequest::Read) => match ReadKey::from_value(setup.value) {
                Some(ReadKey::Version) => InReply::Data(copy_bytes(self.version.as_slice())),
                Some(ReadKey::Power) => InReply::Data(format_reading(self.data.power, UNIT_WATT)),
                Some(ReadKey::Voltage) => InReply::Data(
                    format_reading(self.data.voltage, UNIT_VOLT),
                ),
                Some(ReadKey::Current) => InReply::Data(
                    format_reading(self.data.current, UNIT_AMPERE),
                ),
                None => InReply::Rejected,
            },
            _ => InReply::Rejected,
        }
    }

    /// Deferred execution: takes every pending slot, leaving all empty, and
    /// returns the commands they call for. A configuration write is a copy of
    /// `stored` with one field replaced; power sequences come from the cached
    /// record.
    pub fn handle(&mut self, stored: &ConfigRecord) -> (r: Deferred)
        ensures
            r@ == executed(old(self)@.pending, old(self)@.config, stored@),
            final(self)@ == (EngineView { pending: no_pending(), ..old(self)@ }),
    {
        let config = match self.config.take() {
            Some((key, value)) => Some(stored.with_field(key, bounded_as_slice(&value))),
            None => None,
        };
        let power = match self.power.take() {
            Some(PowerAction::Off) => Some(
                PowerCommand::Off(copy_bytes(self.data.config.power_off.as_slice())),
            ),
            Some(PowerAction::On) => Some(
                PowerCommand::On(copy_bytes(self.data.config.power_on.as_slice())),
            ),
            Some(PowerAction::ForceOff) => Some(PowerCommand::Off(Vec::new())),
            Some(PowerAction::ForceOn) => Some(PowerCommand::On(Vec::new())),
            Some(PowerAction::Rescue) => Some(
                PowerCommand::On(copy_bytes(self.data.config.power_rescue.as_slice())),
            ),
            Some(PowerAction::Nop) | None => None,
        };
        let storage = match self.storage.take() {
            Some(StorageAction::Off) => Some(StorageCommand::PowerOff),
            Some(StorageAction::Host) => Some(StorageCommand::ConnectToHost),
            Some(StorageAction::DUT) => Some(StorageCommand::ConnectToDut),
            Some(StorageAction::Nop) | None => None,
        };
        let pin = match self.pin.take() {
            Some((pin, state)) => {
                let level = match state {
                    SetPinState::Low => PinState::Low,
                    SetPinState::High => PinState::High,
                    SetPinState::Floating => PinState::Floating,
                };
                Some((pin, level))
            },
            None => None,
        };
        let r = Deferred { config, power, storage, pin };
        proof {
            assert(r@.power == executed(old(self)@.pending, old(self)@.config, stored@).power);
        }
        r
    }
}

/// A transfer not addressed to the engine's interface (wrong request type,
/// wrong recipient or wrong index) changes no state and draws no reply.
pub proof fn lemma_foreign_transfer_ignored(e: EngineView, s: SetupPacket, data: Seq<u8>)
    requires
        !addressed_to(s, e.iface),
    ensures
        out_reply(e.iface, s, data) == OutReply::Ignored,
        staged(e.pending, e.iface, s, data) == e.pending,
        in_reply(e, s) == InReplyView::Ignored,
{
}

/// A configuration write of key `k` with a payload of at most 256 bytes,
/// then one deferred-execution step whose record is persisted, then one cache
/// refresh from that record: a configuration read of `k` returns the payload.
pub proof fn lemma_config_round_trip(
    e: EngineView,
    write: SetupPacket,
    payload: Seq<u8>,
    stored: ConfigView,
    read: SetupPacket,
)
    requires
        addressed_to(write, e.iface),
        request_of(write.request) == Some(ControlRequest::Config),
        config_key_of(write.value) is Some,
        payload.len() <= PAYLOAD_CAPACITY,
        addressed_to(read, e.iface),
        read.request == write.request,
        read.value == write.value,
    ensures
        ({
            let p = staged(e.pending, e.iface, write, payload);
            let d = executed(p, e.config, stored);
            &&& out_reply(e.iface, write, payload) == OutReply::Accepted
            &&& d.config is Some
            &&& in_reply(EngineView { pending: no_pending(), config: d.config.unwrap(), ..e }, read)
                == InReplyView::Data(payload)
        }),
{
    let k = config_key_of(write.value).unwrap();
    assert(stored.with(k, payload).field(k) == payload);
}

/// Two power writes before deferred execution: the step issues exactly what
/// it would have issued had only the second been written.
pub proof fn lemma_power_overwrite(
    e: EngineView,
    first: SetupPacket,
    second: SetupPacket,
    stored: ConfigView,
)
    requires
        addressed_to(second, e.iface),
        request_of(second.request) == Some(ControlRequest::Power),
        power_action_of(second.value) is Some,
        request_of(first.request) == Some(ControlRequest::Power),
    ensures
        ({
            let both = staged(staged(e.pending, e.iface, first, Seq::empty()), e.iface, second, Seq::empty());
            let only = staged(e.pending, e.iface, second, Seq::empty());
            executed(both, e.config, stored) == executed(only, e.config, stored)
        }),
{
}

/// A pin-set transfer whose level byte is outside `{0, 1, 2}` is rejected and
/// leaves every pending slot, the pin slot included, as it was.
pub proof fn lemma_bad_level_rejected(e: EngineView, s: SetupPacket, data: Seq<u8>)
    requires
        addressed_to(s, e.iface),
        request_of(s.request) == Some(ControlRequest::PinSet),
        data.len() > 0,
        data[0] > 2,
    ensures
        out_reply(e.iface, s, data) == OutReply::Rejected,
        staged(e.pending, e.iface, s, data) == e.pending,
{
}

/// Power, voltage and current reads answer in the shape
/// `-?[0-9]+\.[0-9]{2}` followed by `W`, `V` or `A`.
pub proof fn lemma_read_reply_shaped(e: EngineView, s: SetupPacket)
    requires
        addressed_to(s, e.iface),
        request_of(s.request) == Some(ControlRequest::Read),
        1 <= s.value <= 3,
    ensures
        in_reply(e, s) matches InReplyView::Data(t) && reading_shaped(t),
{
    lemma_reading_shaped(e.power.hundredths as int, UNIT_WATT);
    lemma_reading_shaped(e.voltage.hundredths as int, UNIT_VOLT);
    lemma_reading_shaped(e.current.hundredths as int, UNIT_AMPERE);
}

/// No action executes twice: a deferred-execution step right after another,
/// with no transfer in between, issues nothing.
pub proof fn lemma_executes_once(e: EngineView, again: ConfigView)
    ensures
        executed(EngineView { pending: no_pending(), ..e }.pending, e.config, again) == (DeferredView {
            config: None,
            power: None,
            storage: None,
            pin: None,
        }),
{
}

/// Every Read reply fits in the 128-byte response buffer, given a version
/// string that does (as the constructor demands).
pub proof fn lemma_read_reply_bounded(e: EngineView, s: SetupPacket)
    requires
        e.version.len() <= VERSION_CAPACITY,
        request_of(s.request) == Some(ControlRequest::Read),
    ensures
        in_reply(e, s) matches InReplyView::Data(t) ==> t.len() <= VERSION_CAPACITY,
{
    lemma_reading_text_len(e.power.hundredths as int, UNIT_WATT);
    lemma_reading_text_len(e.voltage.hundredths as int, UNIT_VOLT);
    lemma_reading_text_len(e.current.hundredths as int, UNIT_AMPERE);
}

} // verus!
