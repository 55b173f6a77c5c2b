//! The persisted configuration record, as the engine caches and rewrites it.
use vstd::prelude::*;

use crate::bytes::copy_bytes;
use crate::protocol::ConfigKey;

verus! {

/// Abstract contents of a configuration record: one byte string per key.
pub ghost struct ConfigView {
    pub name: Seq<u8>,
    pub tags: Seq<u8>,
    pub json: Seq<u8>,
    pub usb_console: Seq<u8>,
    pub power_on: Seq<u8>,
    pub power_off: Seq<u8>,
    pub power_rescue: Seq<u8>,
}

impl ConfigView {
    /// The field that `key` selects.
    pub open spec fn field(self, key: ConfigKey) -> Seq<u8> {
        match key {
            ConfigKey::Name => self.name,
            ConfigKey::Tags => self.tags,
            ConfigKey::Json => self.json,
            ConfigKey::UsbConsole => self.usb_console,
            ConfigKey::PowerOn => self.power_on,
            ConfigKey::PowerOff => self.power_off,
            ConfigKey::PowerRescue => self.power_rescue,
        }
    }

    /// The record with the field that `key` selects replaced by `value`.
    pub open spec fn with(self, key: ConfigKey, value: Seq<u8>) -> ConfigView {
        match key {
            ConfigKey::Name => ConfigView { name: value, ..self },
            ConfigKey::Tags => ConfigView { tags: value, ..self },
            ConfigKey::Json => ConfigView { json: value, ..self },
            ConfigKey::UsbConsole => ConfigView { usb_console: value, ..self },
            ConfigKey::PowerOn => ConfigView { power_on: value, ..self },
            ConfigKey::PowerOff => ConfigView { power_off: value, ..self },
            ConfigKey::PowerRescue => ConfigView { power_rescue: value, ..self },
        }
    }
}

/// Persisted fields: device name, tags, a free-form JSON blob, the USB console
/// enable flag and the three pin-state sequences, each as raw bytes.
#[derive(Debug)]
pub struct ConfigRecord {
    pub name: Vec<u8>,
    pub tags: Vec<u8>,
    pub json: Vec<u8>,
    pub usb_console: Vec<u8>,
    pub power_on: Vec<u8>,
    pub power_off: Vec<u8>,
    pub power_rescue: Vec<u8>,
}

impl View for ConfigRecord {
    type V = ConfigView;

    open spec fn view(&self) -> ConfigView {
        ConfigView {
            name: self.name@,
            tags: self.tags@,
            json: self.json@,
            usb_console: self.usb_console@,
            power_on: self.power_on@,
            power_off: self.power_off@,
            power_rescue: self.power_rescue@,
        }
    }
}

/// The record whose every field is empty.
pub open spec fn empty_config() -> ConfigView {
    ConfigView {
        name: Seq::empty(),
        tags: Seq::empty(),
        json: Seq::empty(),
        usb_console: Seq::empty(),
        power_on: Seq::empty(),
        power_off: Seq::empty(),
        power_rescue: Seq::empty(),
    }
}

impl ConfigRecord {
    /// A record with every field empty.
    pub fn new() -> (r: ConfigRecord)
        ensures
            r@ == empty_config(),
    {
        ConfigRecord {
            name: Vec::new(),
            tags: Vec::new(),
            json: Vec::new(),
            usb_console: Vec::new(),
            power_on: Vec::new(),
            power_off: Vec::new(),
            power_rescue: Vec::new(),
        }
    }

    /// The raw bytes of the field that `key` selects.
    pub fn field(&self, key: ConfigKey) -> (r: &Vec<u8>)
        ensures
            r@ == self@.field(key),
    {
        match key {
            ConfigKey::Name => &self.name,
            ConfigKey::Tags => &self.tags,
            ConfigKey::Json => &self.json,
            ConfigKey::UsbConsole => &self.usb_console,
            ConfigKey::PowerOn => &self.power_on,
            ConfigKey::PowerOff => &self.power_off,
            ConfigKey::PowerRescue => &self.power_rescue,
        }
    }

    /// A copy of the record.
    pub fn duplicate(&self) -> (r: ConfigRecord)
        ensures
            r@ == self@,
    {
        ConfigRecord {
            name: copy_bytes(self.name.as_slice()),
            tags: copy_bytes(self.tags.as_slice()),
            json: copy_bytes(self.json.as_slice()),
            usb_console: copy_bytes(self.usb_console.as_slice()),
            power_on: copy_bytes(self.power_on.as_slice()),
            power_off: copy_bytes(self.power_off.as_slice()),
            power_rescue: copy_bytes(self.power_rescue.as_slice()),
        }
    }

    /// Copy-modify: a copy of the record with the field that `key` selects
    /// set to `value`.
    pub fn with_field(&self, key: ConfigKey, value: &[u8]) -> (r: ConfigRecord)
        ensures
            r@ == self@.with(key, value@),
    {
        let mut r = self.duplicate();
        let v = copy_bytes(value);
        match key {
            ConfigKey::Name => r.name = v,
            ConfigKey::Tags => r.tags = v,
            ConfigKey::Json => r.json = v,
            ConfigKey::UsbConsole => r.usb_console = v,
            ConfigKey::PowerOn => r.power_on = v,
            ConfigKey::PowerOff => r.power_off = v,
            ConfigKey::PowerRescue => r.power_rescue = v,
        }
        r
    }
}

} // verus!
