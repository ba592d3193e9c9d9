use vstd::prelude::*;
use crate::can::{CanChlCfg, CanMessage, ZCanChlError, ZCanChlStatus};
use crate::cloud::{ZCloudGpsFrame, ZCloudServerInfo, ZCloudUserData};
use crate::device::ZDeviceInfo;
use crate::lin::{ZLinChlCfg, ZLinFrame, ZLinPublish, ZLinPublishEx, ZLinSubscribe};

verus! {

/// The native function table of the vendor library, one method per entry
/// point. Handles are plain integers with 0 as "no handle"; status results
/// are 1 on success and any other value is a failure code. The table is
/// injected into the driver, so a program binds it to the loaded library and
/// a test to a scripted stand-in. Nothing is assumed of what it returns.
pub trait ZNativeApi {
    /// The generic property interface object of an open device.
    type Property;

    fn open_device(&self, dev_type: u32, dev_idx: u32) -> u32;
    fn close_device(&self, dev_hdl: u32) -> u32;
    fn get_device_info(&self, dev_hdl: u32) -> (u32, ZDeviceInfo);
    fn is_device_online(&self, dev_hdl: u32) -> u32;

    /// `None` where the library hands out no property interface.
    fn get_iproperty(&self, dev_hdl: u32) -> Option<Self::Property>;
    fn release_iproperty(&self, property: &Self::Property) -> u32;
    fn property_has_set(&self, property: &Self::Property) -> bool;
    fn property_has_get(&self, property: &Self::Property) -> bool;
    fn property_set_value(&self, property: &Self::Property, path: &str, value: &str) -> u32;
    /// `None` where the library returned no value.
    fn property_get_value(&self, property: &Self::Property, path: &str) -> Option<String>;

    /// `None` where the library returned no value.
    fn get_value(&self, dev_hdl: u32, path: &str) -> Option<String>;
    fn set_value(&self, dev_hdl: u32, path: &str, value: &str) -> u32;

    fn init_can(&self, dev_hdl: u32, channel: u32, cfg: &CanChlCfg) -> u32;
    fn start_can(&self, chl_hdl: u32) -> u32;
    fn reset_can(&self, chl_hdl: u32) -> u32;
    fn read_channel_status(&self, chl_hdl: u32) -> (u32, ZCanChlStatus);
    fn read_channel_err_info(&self, chl_hdl: u32) -> (u32, ZCanChlError);
    fn clear_buffer(&self, chl_hdl: u32) -> u32;
    fn get_receive_num(&self, chl_hdl: u32, frame_type: u8) -> u32;
    /// Receives at most one classic CAN frame: the count of frames filled and
    /// the frame buffer.
    fn receive(&self, chl_hdl: u32, timeout: u32) -> (u32, CanMessage);
    /// Transmits one classic CAN frame: the count of frames taken.
    fn transmit(&self, chl_hdl: u32, frame: &CanMessage) -> u32;
    fn receive_fd(&self, chl_hdl: u32, timeout: u32) -> (u32, CanMessage);
    fn transmit_fd(&self, chl_hdl: u32, frame: &CanMessage) -> u32;

    fn init_lin(&self, dev_hdl: u32, channel: u32, cfg: &ZLinChlCfg) -> u32;
    fn start_lin(&self, chl_hdl: u32) -> u32;
    fn reset_lin(&self, chl_hdl: u32) -> u32;
    fn get_lin_receive_num(&self, chl_hdl: u32) -> u32;
    /// Receives up to `size` LIN frames: the count filled and the buffer.
    fn receive_lin(&self, chl_hdl: u32, size: u32, timeout: u32) -> (u32, Vec<ZLinFrame>);
    fn transmit_lin(&self, chl_hdl: u32, frames: &Vec<ZLinFrame>) -> u32;
    fn set_lin_subscribe(&self, chl_hdl: u32, cfg: &Vec<ZLinSubscribe>) -> u32;
    fn set_lin_publish(&self, chl_hdl: u32, cfg: &Vec<ZLinPublish>) -> u32;
    fn set_lin_publish_ex(&self, chl_hdl: u32, cfg: &Vec<ZLinPublishEx>) -> u32;
    fn wakeup_lin(&self, chl_hdl: u32) -> u32;
    fn set_lin_slave_msg(&self, chl_hdl: u32, msg: &Vec<ZLinFrame>) -> u32;
    fn clear_lin_slave_msg(&self, chl_hdl: u32, pids: &Vec<u8>) -> u32;

    fn set_server_info(&self, server: &ZCloudServerInfo);
    fn connect_server(&self, username: &str, password: &str) -> u32;
    fn is_connected_server(&self) -> bool;
    /// Returns 0 on success.
    fn disconnect_server(&self) -> u32;
    /// `None` where the library returned no data.
    fn get_user_data(&self, update: i32) -> Option<ZCloudUserData>;
    /// Receives up to `size` GPS fixes: the count filled and the buffer.
    fn receive_gps(&self, dev_hdl: u32, size: u32, timeout: u32) -> (u32, Vec<ZCloudGpsFrame>);
}

} // verus!
