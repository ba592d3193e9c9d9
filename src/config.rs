use vstd::prelude::*;
use crate::can::{CanChlCfg, ZCanChlType};
use crate::device::ZCanDeviceType;
use crate::text::{decimal, decimal_string, push_decimal};
use vstd::string::StringExecFns;

verus! {

/// The properties written while a CAN channel is configured.
#[derive(Clone, Copy, Debug, PartialEq, Eq, Structural)]
pub enum PropertyKey {
    /// The device clock; a device-wide property.
    Clock,
    Resistance,
    Protocol,
    CanfdAbitBaudRate,
    CanfdDbitBaudRate,
    BaudRate,
}

impl PropertyKey {
    pub open spec fn spec_name(self) -> Seq<char> {
        match self {
            PropertyKey::Clock => "clock"@,
            PropertyKey::Resistance => "resistance"@,
            PropertyKey::Protocol => "protocol"@,
            PropertyKey::CanfdAbitBaudRate => "canfd_abit_baudrate"@,
            PropertyKey::CanfdDbitBaudRate => "canfd_dbit_baudrate"@,
            PropertyKey::BaudRate => "baud_rate"@,
        }
    }

    /// The key as it appears in a property path.
    pub fn name(&self) -> (r: &'static str)
        ensures
            r@ == self.spec_name(),
    {
        match self {
            PropertyKey::Clock => "clock",
            PropertyKey::Resistance => "resistance",
            PropertyKey::Protocol => "protocol",
            PropertyKey::CanfdAbitBaudRate => "canfd_abit_baudrate",
            PropertyKey::CanfdDbitBaudRate => "canfd_dbit_baudrate",
            PropertyKey::BaudRate => "baud_rate",
        }
    }
}

/// One property write: a key, the channel it applies to (not used by
/// device-wide keys), and a numeric value written as decimal text.
#[derive(Clone, Copy, Debug, PartialEq, Eq, Structural)]
pub struct PropertyWrite {
    pub key: PropertyKey,
    pub channel: u8,
    pub value: u32,
}

impl PropertyWrite {
    /// The property path: the key alone for a device-wide key, otherwise
    /// `<channel>/<key>`.
    pub open spec fn spec_path(self) -> Seq<char> {
        if self.key is Clock {
            self.key.spec_name()
        } else {
            decimal(self.channel as nat) + "/"@ + self.key.spec_name()
        }
    }

    pub fn path(&self) -> (r: String)
        ensures
            r@ == self.spec_path(),
    {
        let mut s = String::new();
        if !matches!(self.key, PropertyKey::Clock) {
            push_decimal(self.channel as u32, &mut s);
            s.append("/");
        }
        s.append(self.key.name());
        assert(s@ =~= self.spec_path());
        s
    }

    /// The value as decimal text.
    pub fn value_text(&self) -> (r: String)
        ensures
            r@ == decimal(self.value as nat),
    {
        decimal_string(self.value)
    }
}

pub open spec fn write_of(key: PropertyKey, channel: u8, value: u32) -> PropertyWrite {
    PropertyWrite { key, channel, value }
}

/// The data bitrate a CAN-FD channel runs at: the explicit one, else the
/// arbitration bitrate.
pub open spec fn spec_data_bitrate(cfg: CanChlCfg) -> u32 {
    match cfg.dbitrate {
        Some(d) => d,
        None => cfg.bitrate,
    }
}

/// The writes that set the bitrates: the arbitration and, for a CAN-FD
/// channel, the data bitrate on a CAN-FD family; the plain bitrate elsewhere.
pub open spec fn spec_bitrate_writes(dev_type: ZCanDeviceType, channel: u8, cfg: CanChlCfg) -> Seq<PropertyWrite> {
    if dev_type.spec_canfd() {
        seq![write_of(PropertyKey::CanfdAbitBaudRate, channel, cfg.bitrate)] + if cfg.can_type.spec_is_fd() {
            seq![write_of(PropertyKey::CanfdDbitBaudRate, channel, spec_data_bitrate(cfg))]
        } else {
            Seq::<PropertyWrite>::empty()
        }
    } else {
        seq![write_of(PropertyKey::BaudRate, channel, cfg.bitrate)]
    }
}

/// The ordered property writes that configure `channel` of a device of family
/// `dev_type` for `cfg`: clock, termination, protocol, bitrates. Families that
/// take their settings in the initialization record alone get none.
pub open spec fn spec_can_chl_writes(dev_type: ZCanDeviceType, channel: u8, cfg: CanChlCfg) -> Seq<PropertyWrite> {
    if !dev_type.spec_property_config() {
        Seq::empty()
    } else {
        let clock = match cfg.clock {
            Some(c) => seq![write_of(PropertyKey::Clock, channel, c)],
            None => Seq::empty(),
        };
        let resistance = if dev_type.spec_resistance() {
            seq![write_of(PropertyKey::Resistance, channel, if cfg.resistance { 1u32 } else { 0u32 })]
        } else {
            Seq::empty()
        };
        let protocol = seq![write_of(PropertyKey::Protocol, channel, cfg.can_type.spec_protocol())];
        clock + resistance + protocol + spec_bitrate_writes(dev_type, channel, cfg)
    }
}

/// The property writes that configure `channel` for `cfg`, in the order they
/// must be made.
pub fn can_chl_writes(dev_type: ZCanDeviceType, channel: u8, cfg: &CanChlCfg) -> (r: Vec<PropertyWrite>)
    ensures
        r@ == spec_can_chl_writes(dev_type, channel, *cfg),
{
    let mut writes: Vec<PropertyWrite> = Vec::new();
    if !dev_type.property_config_support() {
        return writes;
    }
    if let Some(c) = cfg.clock {
        writes.push(PropertyWrite { key: PropertyKey::Clock, channel, value: c });
    }
    if dev_type.has_resistance() {
        let state: u32 = if cfg.resistance { 1 } else { 0 };
        writes.push(PropertyWrite { key: PropertyKey::Resistance, channel, value: state });
    }
    writes.push(PropertyWrite { key: PropertyKey::Protocol, channel, value: cfg.can_type.protocol() });
    if dev_type.canfd_support() {
        writes.push(PropertyWrite { key: PropertyKey::CanfdAbitBaudRate, channel, value: cfg.bitrate });
        if cfg.can_type.is_fd() {
            let dbitrate = match cfg.dbitrate {
                Some(d) => d,
                None => cfg.bitrate,
            };
            writes.push(PropertyWrite { key: PropertyKey::CanfdDbitBaudRate, channel, value: dbitrate });
        }
    } else {
        writes.push(PropertyWrite { key: PropertyKey::BaudRate, channel, value: cfg.bitrate });
    }
    proof {
        let clock = match cfg.clock {
            Some(c) => seq![write_of(PropertyKey::Clock, channel, c)],
            None => Seq::<PropertyWrite>::empty(),
        };
        let resistance = if dev_type.spec_resistance() {
            seq![write_of(PropertyKey::Resistance, channel, if cfg.resistance { 1u32 } else { 0u32 })]
        } else {
            Seq::<PropertyWrite>::empty()
        };
        let protocol = seq![write_of(PropertyKey::Protocol, channel, cfg.can_type.spec_protocol())];
        assert(writes@ =~= clock + resistance + protocol + spec_bitrate_writes(dev_type, channel, *cfg));
    }
    writes
}

/// On a family without CAN-FD, configuring a channel never writes the
/// CAN-FD arbitration bitrate; where the family takes its settings as
/// properties, it writes the plain bitrate, with the configured value.
pub proof fn lemma_classic_family_writes_baud_rate(dev_type: ZCanDeviceType, channel: u8, cfg: CanChlCfg)
    requires
        !dev_type.spec_canfd(),
    ensures
        forall|k: int| 0 <= k < spec_can_chl_writes(dev_type, channel, cfg).len()
            ==> spec_can_chl_writes(dev_type, channel, cfg)[k].key != PropertyKey::CanfdAbitBaudRate,
        dev_type.spec_property_config() ==> exists|k: int| 0 <= k < spec_can_chl_writes(dev_type, channel, cfg).len()
            && spec_can_chl_writes(dev_type, channel, cfg)[k] == write_of(PropertyKey::BaudRate, channel, cfg.bitrate),
{
    let w = spec_can_chl_writes(dev_type, channel, cfg);
    if dev_type.spec_property_config() {
        let k = w.len() - 1;
        assert(w[k] == write_of(PropertyKey::BaudRate, channel, cfg.bitrate));
        assert forall|j: int| 0 <= j < w.len() implies w[j].key != PropertyKey::CanfdAbitBaudRate by {}
    }
}

/// On a CAN-FD family, a CAN-FD channel configured without a data bitrate
/// gets the arbitration bitrate written as its data bitrate too.
pub proof fn lemma_data_bitrate_falls_back(dev_type: ZCanDeviceType, channel: u8, cfg: CanChlCfg)
    requires
        dev_type.spec_canfd(),
        cfg.can_type.spec_is_fd(),
        cfg.dbitrate is None,
    ensures
        exists|k: int, l: int| {
            &&& 0 <= k < spec_can_chl_writes(dev_type, channel, cfg).len()
            &&& 0 <= l < spec_can_chl_writes(dev_type, channel, cfg).len()
            &&& spec_can_chl_writes(dev_type, channel, cfg)[k].key == PropertyKey::CanfdAbitBaudRate
            &&& spec_can_chl_writes(dev_type, channel, cfg)[l].key == PropertyKey::CanfdDbitBaudRate
            &&& spec_can_chl_writes(dev_type, channel, cfg)[l].value == spec_can_chl_writes(dev_type, channel, cfg)[k].value
            &&& spec_can_chl_writes(dev_type, channel, cfg)[k].value == cfg.bitrate
        },
{
    let w = spec_can_chl_writes(dev_type, channel, cfg);
    let k = w.len() - 2;
    let l = w.len() - 1;
    assert(w[k] == write_of(PropertyKey::CanfdAbitBaudRate, channel, cfg.bitrate));
    assert(w[l] == write_of(PropertyKey::CanfdDbitBaudRate, channel, cfg.bitrate));
}

} // verus!
