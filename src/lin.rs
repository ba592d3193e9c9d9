use vstd::prelude::*;

verus! {

/// What a caller wants of one LIN channel.
#[derive(Clone, Copy, Debug, PartialEq, Eq, Structural)]
pub struct ZLinChlCfg {
    /// Master when true, slave otherwise.
    pub is_master: bool,
    pub checksum_mode: u8,
    pub max_length: u8,
    pub baud_rate: u32,
}

/// A LIN frame as exchanged with the device.
#[derive(Clone, Debug)]
pub struct ZLinFrame {
    pub channel: u8,
    pub pid: u8,
    pub timestamp: u64,
    pub data: Vec<u8>,
}

/// A response the device listens for as a LIN slave.
#[derive(Clone, Copy, Debug, PartialEq, Eq, Structural)]
pub struct ZLinSubscribe {
    pub id: u8,
    pub data_len: u8,
    pub checksum_mode: u8,
}

/// A response the device publishes as a LIN slave.
#[derive(Clone, Debug)]
pub struct ZLinPublish {
    pub pid: u8,
    pub data: Vec<u8>,
    pub checksum_mode: u8,
}

/// A published response with an explicit data length.
#[derive(Clone, Debug)]
pub struct ZLinPublishEx {
    pub pid: u8,
    pub data: Vec<u8>,
    pub data_len: u8,
    pub checksum_mode: u8,
}

} // verus!
