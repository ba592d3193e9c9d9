use vstd::prelude::*;

verus! {

/// The protocol a CAN channel runs.
#[allow(non_camel_case_types)]
#[derive(Clone, Copy, Debug, PartialEq, Eq, Structural)]
pub enum ZCanChlType {
    CAN,
    CANFD_ISO,
    CANFD_NON_ISO,
}

impl ZCanChlType {
    /// The numeric protocol code written to the `protocol` property.
    pub open spec fn spec_protocol(self) -> u32 {
        match self {
            ZCanChlType::CAN => 0,
            ZCanChlType::CANFD_ISO => 1,
            ZCanChlType::CANFD_NON_ISO => 2,
        }
    }

    pub open spec fn spec_is_fd(self) -> bool {
        !(self is CAN)
    }

    pub fn protocol(&self) -> (r: u32)
        ensures
            r == self.spec_protocol(),
    {
        match self {
            ZCanChlType::CAN => 0,
            ZCanChlType::CANFD_ISO => 1,
            ZCanChlType::CANFD_NON_ISO => 2,
        }
    }

    /// Whether the channel type is one of the CAN-FD variants.
    pub fn is_fd(&self) -> (r: bool)
        ensures
            r == self.spec_is_fd(),
    {
        !matches!(self, ZCanChlType::CAN)
    }
}

/// The kind of frame a pending-count query asks about.
#[derive(Clone, Copy, Debug, PartialEq, Eq, Structural)]
pub enum ZCanFrameType {
    CAN,
    CANFD,
    ALL,
}

impl ZCanFrameType {
    pub open spec fn spec_code(self) -> u8 {
        match self {
            ZCanFrameType::CAN => 0,
            ZCanFrameType::CANFD => 1,
            ZCanFrameType::ALL => 2,
        }
    }

    /// The native code of the frame kind.
    pub fn code(&self) -> (r: u8)
        ensures
            r == self.spec_code(),
    {
        match self {
            ZCanFrameType::CAN => 0,
            ZCanFrameType::CANFD => 1,
            ZCanFrameType::ALL => 2,
        }
    }
}

/// What a caller wants of one CAN channel.
#[derive(Clone, Copy, Debug, PartialEq, Eq, Structural)]
pub struct CanChlCfg {
    pub can_type: ZCanChlType,
    /// Listen-only when true, normal mode otherwise.
    pub listen_only: bool,
    /// The (arbitration) bitrate.
    pub bitrate: u32,
    /// The data bitrate of a CAN-FD channel; the bitrate when absent.
    pub dbitrate: Option<u32>,
    /// The device clock, where the family lets it be set.
    pub clock: Option<u32>,
    /// Whether the bus termination resistance is switched on.
    pub resistance: bool,
    pub acc_code: u32,
    pub acc_mask: u32,
}

impl CanChlCfg {
    /// A configuration with the given type and bitrate, normal mode, the
    /// resistance on, no data bitrate or clock, and an open acceptance filter.
    pub fn new(can_type: ZCanChlType, bitrate: u32) -> (r: CanChlCfg)
        ensures
            r == (CanChlCfg {
                can_type,
                listen_only: false,
                bitrate,
                dbitrate: None,
                clock: None,
                resistance: true,
                acc_code: 0,
                acc_mask: 0xFFFF_FFFF,
            }),
    {
        CanChlCfg {
            can_type,
            listen_only: false,
            bitrate,
            dbitrate: None,
            clock: None,
            resistance: true,
            acc_code: 0,
            acc_mask: 0xFFFF_FFFF,
        }
    }
}

/// The bus timing registers (timing0, timing1) of the controllers of
/// families that take the bitrate in the initialization record, for the
/// bitrates they support.
pub open spec fn spec_bus_timing(bitrate: u32) -> Option<(u8, u8)> {
    if bitrate == 1000000 { Some((0x00u8, 0x14u8)) }
    else if bitrate == 800000 { Some((0x00u8, 0x16u8)) }
    else if bitrate == 500000 { Some((0x00u8, 0x1Cu8)) }
    else if bitrate == 250000 { Some((0x01u8, 0x1Cu8)) }
    else if bitrate == 125000 { Some((0x03u8, 0x1Cu8)) }
    else if bitrate == 100000 { Some((0x04u8, 0x1Cu8)) }
    else if bitrate == 50000 { Some((0x09u8, 0x1Cu8)) }
    else if bitrate == 20000 { Some((0x18u8, 0x1Cu8)) }
    else if bitrate == 10000 { Some((0x31u8, 0x1Cu8)) }
    else { None }
}

/// The bus timing registers for `bitrate`, if the controller supports it.
pub fn bus_timing(bitrate: u32) -> (r: Option<(u8, u8)>)
    ensures
        r == spec_bus_timing(bitrate),
{
    if bitrate == 1000000 { Some((0x00, 0x14)) }
    else if bitrate == 800000 { Some((0x00, 0x16)) }
    else if bitrate == 500000 { Some((0x00, 0x1C)) }
    else if bitrate == 250000 { Some((0x01, 0x1C)) }
    else if bitrate == 125000 { Some((0x03, 0x1C)) }
    else if bitrate == 100000 { Some((0x04, 0x1C)) }
    else if bitrate == 50000 { Some((0x09, 0x1C)) }
    else if bitrate == 20000 { Some((0x18, 0x1C)) }
    else if bitrate == 10000 { Some((0x31, 0x1C)) }
    else { None }
}

/// A CAN or CAN-FD frame as exchanged with the device.
#[derive(Clone, Debug)]
pub struct CanMessage {
    pub id: u32,
    pub channel: u8,
    pub timestamp: u64,
    pub is_fd: bool,
    pub is_extended: bool,
    pub is_remote: bool,
    pub is_error: bool,
    pub bitrate_switch: bool,
    pub error_state_indicator: bool,
    pub data: Vec<u8>,
}

impl CanMessage {
    /// A data frame on the given channel.
    pub fn new(channel: u8, id: u32, data: Vec<u8>, is_fd: bool) -> (r: CanMessage)
        ensures
            r.channel == channel,
            r.id == id,
            r.data@ == data@,
            r.is_fd == is_fd,
            r.timestamp == 0,
            !r.is_extended && !r.is_remote && !r.is_error,
            !r.bitrate_switch && !r.error_state_indicator,
    {
        CanMessage {
            id,
            channel,
            timestamp: 0,
            is_fd,
            is_extended: false,
            is_remote: false,
            is_error: false,
            bitrate_switch: false,
            error_state_indicator: false,
            data,
        }
    }

    pub fn channel(&self) -> (r: u8)
        ensures
            r == self.channel,
    {
        self.channel
    }

    pub fn is_can_fd(&self) -> (r: bool)
        ensures
            r == self.is_fd,
    {
        self.is_fd
    }
}

/// The controller registers of a CAN channel.
#[derive(Clone, Copy, Debug, Default, PartialEq, Eq, Structural)]
pub struct ZCanChlStatus {
    pub reg_mode: u8,
    pub reg_status: u8,
    pub reg_al_capture: u8,
    pub reg_ec_capture: u8,
    pub reg_ew_limit: u8,
    pub reg_re_counter: u8,
    pub reg_te_counter: u8,
}

/// The last error a CAN channel recorded.
#[derive(Clone, Copy, Debug, Default, PartialEq, Eq)]
pub struct ZCanChlError {
    pub error_code: u32,
    pub passive_err_data: [u8; 3],
    pub ar_lost_err_data: u8,
}

} // verus!
