use vstd::prelude::*;

verus! {

/// Where the cloud telemetry service is reached.
#[derive(Clone, Debug)]
pub struct ZCloudServerInfo {
    pub http_url: String,
    pub http_port: u16,
    pub mqtt_url: String,
    pub mqtt_port: u16,
}

/// One device registered with the cloud service.
#[derive(Clone, Debug)]
pub struct ZCloudDevInfo {
    pub dev_idx: i32,
    pub id: String,
    pub name: String,
    pub owner: String,
    pub model: String,
    pub fw_version: String,
    pub hw_version: String,
    pub serial: String,
    pub status: i32,
    pub can_num: u8,
    pub gps_upload: bool,
}

/// The cloud account and the devices it holds.
#[derive(Clone, Debug)]
pub struct ZCloudUserData {
    pub username: String,
    pub mobile: String,
    pub devices: Vec<ZCloudDevInfo>,
}

/// A GPS fix reported through the cloud service. Latitude, longitude and
/// speed are single-precision values carried as their IEEE-754 bit patterns.
#[derive(Clone, Copy, Debug, PartialEq, Eq, Structural)]
pub struct ZCloudGpsFrame {
    pub latitude_bits: u32,
    pub longitude_bits: u32,
    pub speed_bits: u32,
    pub year: u16,
    pub month: u16,
    pub day: u16,
    pub hour: u16,
    pub minute: u16,
    pub second: u16,
}

} // verus!
