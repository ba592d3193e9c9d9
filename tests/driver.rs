use std::cell::RefCell;

use zlgcan::can::{CanChlCfg, CanMessage, ZCanChlError, ZCanChlStatus, ZCanChlType, ZCanFrameType};
use zlgcan::cloud::{ZCloudGpsFrame, ZCloudServerInfo, ZCloudUserData};
use zlgcan::config::PropertyKey;
use zlgcan::device::{DeriveInfo, ZCanDeviceType, ZDeviceInfo};
use zlgcan::driver::{join_received, ZCanDriver, ZDevice, WAIT_FOREVER};
use zlgcan::error::{NativeOp, ZCanError};
use zlgcan::lin::{ZLinChlCfg, ZLinFrame, ZLinPublish, ZLinPublishEx, ZLinSubscribe};
use zlgcan::native::ZNativeApi;

/// A scripted native table that records every call it receives.
struct Mock {
    open_handle: u32,
    close_status: u32,
    info_status: u32,
    can_num: u8,
    init_handle: u32,
    start_status: u32,
    reset_status: u32,
    set_value_status: u32,
    online_status: u32,
    property_rejects: Vec<usize>,
    transmit_results: RefCell<Vec<u32>>,
    can_queue: RefCell<Vec<CanMessage>>,
    fd_queue: RefCell<Vec<CanMessage>>,
    calls: RefCell<Vec<String>>,
    writes: RefCell<Vec<(String, String)>>,
    timeouts: RefCell<Vec<u32>>,
    property_count: RefCell<usize>,
}

fn mock() -> Mock {
    Mock {
        open_handle: 7,
        close_status: 1,
        info_status: 1,
        can_num: 2,
        init_handle: 21,
        start_status: 1,
        reset_status: 1,
        set_value_status: 1,
        online_status: 2,
        property_rejects: vec![],
        transmit_results: RefCell::new(vec![]),
        can_queue: RefCell::new(vec![]),
        fd_queue: RefCell::new(vec![]),
        calls: RefCell::new(vec![]),
        writes: RefCell::new(vec![]),
        timeouts: RefCell::new(vec![]),
        property_count: RefCell::new(0),
    }
}

impl Mock {
    fn log(&self, name: &str) {
        self.calls.borrow_mut().push(name.to_string());
    }

    fn next_transmit(&self) -> u32 {
        let mut results = self.transmit_results.borrow_mut();
        if results.is_empty() { 1 } else { results.remove(0) }
    }
}

fn frame(channel: u8, id: u32, fd: bool) -> CanMessage {
    CanMessage::new(channel, id, vec![1, 2, 3], fd)
}

impl ZNativeApi for Mock {
    type Property = u32;

    fn open_device(&self, _dev_type: u32, _dev_idx: u32) -> u32 { self.log("open_device"); self.open_handle }
    fn close_device(&self, _dev_hdl: u32) -> u32 { self.log("close_device"); self.close_status }
    fn get_device_info(&self, _dev_hdl: u32) -> (u32, ZDeviceInfo) {
        self.log("get_device_info");
        let info = ZDeviceInfo {
            hw_version: 1, fw_version: 2, dr_version: 3, in_version: 4, irq_num: 0,
            can_num: self.can_num, serial: "SN".to_string(), hw_type: "HW".to_string(),
        };
        (self.info_status, info)
    }
    fn is_device_online(&self, _dev_hdl: u32) -> u32 { self.log("is_device_online"); self.online_status }
    fn get_iproperty(&self, _dev_hdl: u32) -> Option<u32> { self.log("get_iproperty"); Some(5) }
    fn release_iproperty(&self, _p: &u32) -> u32 { self.log("release_iproperty"); 1 }
    fn property_has_set(&self, _p: &u32) -> bool { true }
    fn property_has_get(&self, _p: &u32) -> bool { true }
    fn property_set_value(&self, _p: &u32, path: &str, value: &str) -> u32 {
        self.log("property_set_value");
        let mut n = self.property_count.borrow_mut();
        let idx = *n;
        *n += 1;
        self.writes.borrow_mut().push((path.to_string(), value.to_string()));
        if self.property_rejects.contains(&idx) { 0 } else { 1 }
    }
    fn property_get_value(&self, _p: &u32, path: &str) -> Option<String> {
        self.log("property_get_value");
        Some(format!("value of {}", path))
    }
    fn get_value(&self, _dev_hdl: u32, path: &str) -> Option<String> {
        self.log("get_value");
        Some(format!("value of {}", path))
    }
    fn set_value(&self, _dev_hdl: u32, path: &str, value: &str) -> u32 {
        self.log("set_value");
        self.writes.borrow_mut().push((path.to_string(), value.to_string()));
        self.set_value_status
    }
    fn init_can(&self, _dev_hdl: u32, _channel: u32, _cfg: &CanChlCfg) -> u32 { self.log("init_can"); self.init_handle }
    fn start_can(&self, _chl_hdl: u32) -> u32 { self.log("start_can"); self.start_status }
    fn reset_can(&self, _chl_hdl: u32) -> u32 { self.log("reset_can"); self.reset_status }
    fn read_channel_status(&self, _chl_hdl: u32) -> (u32, ZCanChlStatus) {
        self.log("read_channel_status");
        (1, ZCanChlStatus { reg_te_counter: 9, ..Default::default() })
    }
    fn read_channel_err_info(&self, _chl_hdl: u32) -> (u32, ZCanChlError) {
        self.log("read_channel_err_info");
        (4, ZCanChlError::default())
    }
    fn clear_buffer(&self, _chl_hdl: u32) -> u32 { self.log("clear_buffer"); 1 }
    fn get_receive_num(&self, _chl_hdl: u32, frame_type: u8) -> u32 {
        self.log("get_receive_num");
        if frame_type == 0 { self.can_queue.borrow().len() as u32 } else { self.fd_queue.borrow().len() as u32 }
    }
    fn receive(&self, _chl_hdl: u32, timeout: u32) -> (u32, CanMessage) {
        self.log("receive");
        self.timeouts.borrow_mut().push(timeout);
        let mut q = self.can_queue.borrow_mut();
        if q.is_empty() { (0, frame(0, 0, false)) } else { (1, q.remove(0)) }
    }
    fn transmit(&self, _chl_hdl: u32, _frame: &CanMessage) -> u32 { self.log("transmit"); self.next_transmit() }
    fn receive_fd(&self, _chl_hdl: u32, timeout: u32) -> (u32, CanMessage) {
        self.log("receive_fd");
        self.timeouts.borrow_mut().push(timeout);
        let mut q = self.fd_queue.borrow_mut();
        if q.is_empty() { (0, frame(0, 0, true)) } else { (1, q.remove(0)) }
    }
    fn transmit_fd(&self, _chl_hdl: u32, _frame: &CanMessage) -> u32 { self.log("transmit_fd"); self.next_transmit() }
    fn init_lin(&self, _dev_hdl: u32, _channel: u32, _cfg: &ZLinChlCfg) -> u32 { self.log("init_lin"); 31 }
    fn start_lin(&self, _chl_hdl: u32) -> u32 { self.log("start_lin"); 1 }
    fn reset_lin(&self, _chl_hdl: u32) -> u32 { self.log("reset_lin"); 1 }
    fn get_lin_receive_num(&self, _chl_hdl: u32) -> u32 { self.log("get_lin_receive_num"); 3 }
    fn receive_lin(&self, _chl_hdl: u32, size: u32, _timeout: u32) -> (u32, Vec<ZLinFrame>) {
        self.log("receive_lin");
        let frames = (0..size).map(|i| ZLinFrame { channel: 0, pid: i as u8, timestamp: 0, data: vec![] }).collect();
        (2, frames)
    }
    fn transmit_lin(&self, _chl_hdl: u32, frames: &Vec<ZLinFrame>) -> u32 { self.log("transmit_lin"); frames.len() as u32 }
    fn set_lin_subscribe(&self, _chl_hdl: u32, _cfg: &Vec<ZLinSubscribe>) -> u32 { self.log("set_lin_subscribe"); 1 }
    fn set_lin_publish(&self, _chl_hdl: u32, _cfg: &Vec<ZLinPublish>) -> u32 { self.log("set_lin_publish"); 1 }
    fn set_lin_publish_ex(&self, _chl_hdl: u32, _cfg: &Vec<ZLinPublishEx>) -> u32 { self.log("set_lin_publish_ex"); 1 }
    fn wakeup_lin(&self, _chl_hdl: u32) -> u32 { self.log("wakeup_lin"); 1 }
    fn set_lin_slave_msg(&self, _chl_hdl: u32, _msg: &Vec<ZLinFrame>) -> u32 { self.log("set_lin_slave_msg"); 1 }
    fn clear_lin_slave_msg(&self, _chl_hdl: u32, _pids: &Vec<u8>) -> u32 { self.log("clear_lin_slave_msg"); 1 }
    fn set_server_info(&self, _server: &ZCloudServerInfo) { self.log("set_server_info"); }
    fn connect_server(&self, _username: &str, _password: &str) -> u32 { self.log("connect_server"); 1 }
    fn is_connected_server(&self) -> bool { self.log("is_connected_server"); true }
    fn disconnect_server(&self) -> u32 { self.log("disconnect_server"); 0 }
    fn get_user_data(&self, _update: i32) -> Option<ZCloudUserData> { self.log("get_user_data"); None }
    fn receive_gps(&self, _dev_hdl: u32, size: u32, _timeout: u32) -> (u32, Vec<ZCloudGpsFrame>) {
        self.log("receive_gps");
        let fix = ZCloudGpsFrame {
            latitude_bits: 0, longitude_bits: 0, speed_bits: 0,
            year: 2024, month: 1, day: 1, hour: 0, minute: 0, second: 0,
        };
        (size + 4, vec![fix; size as usize])
    }
}

fn writes(d: &ZCanDriver<Mock>) -> Vec<(String, String)> {
    d.native().writes.borrow().clone()
}

fn pair(p: &str, v: &str) -> (String, String) {
    (p.to_string(), v.to_string())
}

fn calls(d: &ZCanDriver<Mock>) -> Vec<String> {
    d.native().calls.borrow().clone()
}

fn opened(native: Mock, dev_type: ZCanDeviceType) -> ZCanDriver<Mock> {
    let mut d = ZCanDriver::new(native, dev_type, 0, None);
    d.open().unwrap();
    d
}

#[test]
fn classic_family_lifecycle_scenario() {
    let mut d = opened(mock(), ZCanDeviceType::ZCAN_PCI9820);
    assert_eq!(d.device_info().unwrap().can_num, 2);
    d.init_can_chl(vec![CanChlCfg::new(ZCanChlType::CAN, 500000)]).unwrap();
    assert_eq!(writes(&d), vec![pair("0/protocol", "0"), pair("0/baud_rate", "500000")]);
    assert_eq!(d.opened_channels(), vec![0]);
    assert_eq!(d.transmit_can(0, vec![frame(0, 0x123, false)]), Ok(1));
    d.close();
    assert_eq!(d.device_info().err(), Some(ZCanError::DeviceNotOpened));
    assert!(d.is_closed());
}

#[test]
fn close_clears_handle_when_native_close_fails() {
    let mut native = mock();
    native.close_status = 0;
    let mut d = opened(native, ZCanDeviceType::ZCAN_PCI9820);
    d.init_can_chl(vec![CanChlCfg::new(ZCanChlType::CAN, 500000)]).unwrap();
    d.close();
    assert!(calls(&d).contains(&"close_device".to_string()));
    assert!(calls(&d).contains(&"reset_can".to_string()));
    assert_eq!(d.can_handler(0), Err(ZCanError::DeviceNotOpened));
    assert_eq!(d.transmit_can(0, vec![frame(0, 1, false)]), Err(ZCanError::DeviceNotOpened));
}

#[test]
fn receive_returns_fewer_frames_than_requested() {
    let native = mock();
    let mut d = opened(native, ZCanDeviceType::ZCAN_PCI9820);
    d.init_can_chl(vec![CanChlCfg::new(ZCanChlType::CAN, 500000)]).unwrap();
    d.native().can_queue.borrow_mut().push(frame(0, 0x10, false));
    d.native().can_queue.borrow_mut().push(frame(0, 0x11, false));
    let got = d.receive_can(0, 5, Some(100)).unwrap();
    assert_eq!(got.len(), 2);
    assert_eq!(got[0].id, 0x10);
    assert_eq!(got[1].id, 0x11);
    assert_eq!(*d.native().timeouts.borrow(), vec![100, 100, 100, 100, 100]);
}

#[test]
fn receive_without_timeout_waits_forever() {
    let mut d = opened(mock(), ZCanDeviceType::ZCAN_PCI9820);
    d.init_can_chl(vec![CanChlCfg::new(ZCanChlType::CAN, 250000)]).unwrap();
    let got = d.receive_can(0, 2, None).unwrap();
    assert!(got.is_empty());
    assert_eq!(*d.native().timeouts.borrow(), vec![WAIT_FOREVER, WAIT_FOREVER]);
}

#[test]
fn canfd_iso_data_bitrate_falls_back_to_bitrate() {
    let mut d = opened(mock(), ZCanDeviceType::ZCAN_USBCANFD_200U);
    d.init_can_chl(vec![CanChlCfg::new(ZCanChlType::CANFD_ISO, 500000)]).unwrap();
    assert_eq!(
        writes(&d),
        vec![
            pair("0/resistance", "1"),
            pair("0/protocol", "1"),
            pair("0/canfd_abit_baudrate", "500000"),
            pair("0/canfd_dbit_baudrate", "500000"),
        ]
    );
}

#[test]
fn canfd_explicit_data_bitrate_and_clock() {
    let mut d = opened(mock(), ZCanDeviceType::ZCAN_USBCANFD_100U);
    let mut cfg = CanChlCfg::new(ZCanChlType::CANFD_NON_ISO, 1000000);
    cfg.dbitrate = Some(5000000);
    cfg.clock = Some(60000000);
    cfg.resistance = false;
    d.init_can_chl(vec![CanChlCfg::new(ZCanChlType::CAN, 500000), cfg]).unwrap();
    assert_eq!(
        writes(&d),
        vec![
            pair("0/resistance", "1"),
            pair("0/protocol", "0"),
            pair("0/canfd_abit_baudrate", "500000"),
            pair("clock", "60000000"),
            pair("1/resistance", "0"),
            pair("1/protocol", "2"),
            pair("1/canfd_abit_baudrate", "1000000"),
            pair("1/canfd_dbit_baudrate", "5000000"),
        ]
    );
    assert_eq!(d.opened_channels(), vec![0, 1]);
}

#[test]
fn classic_family_never_writes_arbitration_bitrate() {
    let mut d = opened(mock(), ZCanDeviceType::ZCAN_USBCAN_E_U);
    d.init_can_chl(vec![CanChlCfg::new(ZCanChlType::CANFD_ISO, 125000)]).unwrap();
    let w = writes(&d);
    assert_eq!(w, vec![pair("0/resistance", "1"), pair("0/protocol", "1"), pair("0/baud_rate", "125000")]);
    assert!(w.iter().all(|(p, _)| !p.contains("canfd_abit_baudrate")));
}

#[test]
fn usbcan2_takes_settings_in_record_only() {
    let mut d = opened(mock(), ZCanDeviceType::ZCAN_USBCAN2);
    d.init_can_chl(vec![CanChlCfg::new(ZCanChlType::CAN, 500000)]).unwrap();
    assert!(writes(&d).is_empty());
    assert!(calls(&d).contains(&"init_can".to_string()));
}

#[test]
fn configs_beyond_channel_count_are_ignored() {
    let mut d = opened(mock(), ZCanDeviceType::ZCAN_PCI9820);
    let cfg = CanChlCfg::new(ZCanChlType::CAN, 500000);
    d.init_can_chl(vec![cfg, cfg, cfg]).unwrap();
    assert_eq!(d.opened_channels(), vec![0, 1]);
    assert_eq!(d.can_handler(2), Err(ZCanError::ChannelNotOpened));
}

#[test]
fn derived_device_takes_channel_count_from_caller() {
    let mut d = ZCanDriver::new(mock(), ZCanDeviceType::ZCAN_PCI9820, 0, Some(DeriveInfo { channels: 3 }));
    d.open().unwrap();
    assert!(d.is_derive_device());
    assert_eq!(d.device_info().unwrap().can_num, 3);
    assert!(!calls(&d).contains(&"get_device_info".to_string()));
}

#[test]
fn unopened_device_channel_resolution_fails_without_native_call() {
    let d = ZCanDriver::new(mock(), ZCanDeviceType::ZCAN_PCI9820, 0, None);
    assert_eq!(d.can_handler(0), Err(ZCanError::DeviceNotOpened));
    assert_eq!(d.lin_handler(0), Err(ZCanError::DeviceNotOpened));
    assert_eq!(d.read_can_chl_status(0), Err(ZCanError::DeviceNotOpened));
    assert_eq!(d.receive_can(0, 3, None).err(), Some(ZCanError::DeviceNotOpened));
    assert!(calls(&d).is_empty());
}

#[test]
fn unstarted_channel_resolution_fails() {
    let d = opened(mock(), ZCanDeviceType::ZCAN_PCI9820);
    let before = calls(&d).len();
    assert_eq!(d.can_handler(1), Err(ZCanError::ChannelNotOpened));
    assert_eq!(d.clear_can_buffer(1), Err(ZCanError::ChannelNotOpened));
    assert_eq!(d.get_can_num(1, ZCanFrameType::CAN), Err(ZCanError::ChannelNotOpened));
    assert_eq!(calls(&d).len(), before);
}

#[test]
fn partial_transmit_returns_accepted_count() {
    let mut d = opened(mock(), ZCanDeviceType::ZCAN_PCI9820);
    d.init_can_chl(vec![CanChlCfg::new(ZCanChlType::CAN, 500000)]).unwrap();
    *d.native().transmit_results.borrow_mut() = vec![1, 0, 1];
    let frames = vec![frame(0, 1, false), frame(0, 2, false), frame(0, 3, false)];
    assert_eq!(d.transmit_can(0, frames), Ok(2));
    assert_eq!(calls(&d).iter().filter(|c| *c == "transmit").count(), 3);
}

#[test]
fn lin_and_cloud_unsupported_without_capability() {
    let mut d = opened(mock(), ZCanDeviceType::ZCAN_PCI9820);
    let before = calls(&d).len();
    let unsupported = Some(ZCanError::MethodNotSupported);
    assert_eq!(d.init_lin_chl(vec![ZLinChlCfg { is_master: true, checksum_mode: 1, max_length: 8, baud_rate: 19200 }]).err(), unsupported);
    assert_eq!(d.reset_lin_chl(0).err(), unsupported);
    assert_eq!(d.clear_lin_buffer(0).err(), unsupported);
    assert_eq!(d.get_lin_num(0).err(), unsupported);
    assert_eq!(d.receive_lin(0, 2, None).err(), unsupported);
    assert_eq!(d.transmit_lin(0, vec![]).err(), unsupported);
    assert_eq!(d.set_lin_subscribe(0, vec![]).err(), unsupported);
    assert_eq!(d.set_lin_publish(0, vec![]).err(), unsupported);
    assert_eq!(d.set_lin_publish_ext(0, vec![]).err(), unsupported);
    assert_eq!(d.wakeup_lin(0).err(), unsupported);
    assert_eq!(d.set_lin_slave_msg(0, vec![]).err(), unsupported);
    assert_eq!(d.clear_lin_slave_msg(0, vec![]).err(), unsupported);
    let server = ZCloudServerInfo { http_url: "h".to_string(), http_port: 80, mqtt_url: "m".to_string(), mqtt_port: 1883 };
    assert_eq!(d.set_server(server).err(), unsupported);
    assert_eq!(d.connect_server("u", "p").err(), unsupported);
    assert_eq!(d.is_connected_server().err(), unsupported);
    assert_eq!(d.disconnect_server().err(), unsupported);
    assert_eq!(d.get_userdata(None).err(), unsupported);
    assert_eq!(d.receive_gps(1, None).err(), unsupported);
    assert_eq!(d.receive_canfd(0, 1, None).err(), unsupported);
    assert_eq!(d.transmit_canfd(0, vec![]).err(), unsupported);
    assert_eq!(calls(&d).len(), before);
}

#[test]
fn lin_channel_lifecycle_on_lin_family() {
    let mut d = opened(mock(), ZCanDeviceType::ZCAN_USBCANFD_200U);
    let cfg = ZLinChlCfg { is_master: true, checksum_mode: 1, max_length: 8, baud_rate: 19200 };
    d.init_lin_chl(vec![cfg, cfg, cfg]).unwrap();
    assert!(d.lin_handler(0).is_ok());
    assert!(d.lin_handler(1).is_ok());
    assert_eq!(d.lin_handler(2), Err(ZCanError::ChannelNotOpened));
    assert_eq!(d.get_lin_num(0), Ok(3));
    let got = d.receive_lin(0, 5, Some(10)).unwrap();
    assert_eq!(got.len(), 2);
    assert_eq!(d.transmit_lin(0, vec![ZLinFrame { channel: 0, pid: 1, timestamp: 0, data: vec![1] }]), Ok(1));
    assert_eq!(d.wakeup_lin(0), Ok(()));
    assert_eq!(d.clear_lin_buffer(0), Err(ZCanError::MethodNotSupported));
    assert_eq!(d.reset_lin_chl(0), Ok(()));
    assert_eq!(d.lin_handler(0), Err(ZCanError::ChannelNotOpened));
}

#[test]
fn cloud_operations_on_cloud_family() {
    let d = opened(mock(), ZCanDeviceType::ZCAN_CLOUD);
    let server = ZCloudServerInfo { http_url: "h".to_string(), http_port: 80, mqtt_url: "m".to_string(), mqtt_port: 1883 };
    assert_eq!(d.set_server(server).err(), None);
    assert_eq!(d.connect_server("user", "pass").err(), None);
    assert_eq!(d.connect_server("us\0er", "pass").err(), Some(ZCanError::CStringConvertFailed(2)));
    assert_eq!(d.is_connected_server().unwrap(), true);
    assert_eq!(d.disconnect_server(), Ok(()));
    assert_eq!(d.get_userdata(Some(1)).err(), Some(ZCanError::MethodExecuteFailed(NativeOp::ZCLOUD_GetUserData, 0)));
    assert_eq!(d.receive_gps(3, None).unwrap().len(), 3);
}

#[test]
fn path_with_nul_fails_encoding_before_native_call() {
    let d = opened(mock(), ZCanDeviceType::ZCAN_USBCANFD_200U);
    let before = calls(&d).len();
    assert_eq!(d.get_value(0, "0/clo\0ck").err(), Some(ZCanError::CStringConvertFailed(5)));
    assert_eq!(d.set_value(0, "\0", "1").err(), Some(ZCanError::CStringConvertFailed(0)));
    assert_eq!(d.set_value(0, "0/protocol", "1\0").err(), Some(ZCanError::CStringConvertFailed(1)));
    assert_eq!(calls(&d).len(), before);
    let closed = ZCanDriver::new(mock(), ZCanDeviceType::ZCAN_PCI9820, 0, None);
    assert_eq!(closed.get_value(0, "a\0").err(), Some(ZCanError::CStringConvertFailed(1)));
}

#[test]
fn direct_property_access_follows_capability() {
    let d = opened(mock(), ZCanDeviceType::ZCAN_USBCANFD_200U);
    assert_eq!(d.get_value(0, "0/clock"), Ok("value of 0/clock".to_string()));
    assert_eq!(d.set_value(0, "0/protocol", "1"), Ok(()));
    let classic = opened(mock(), ZCanDeviceType::ZCAN_PCI9820);
    assert_eq!(classic.get_value(0, "0/clock"), Err(ZCanError::MethodNotSupported));
    assert_eq!(classic.set_value(0, "0/protocol", "1"), Err(ZCanError::MethodNotSupported));
}

#[test]
fn set_values_continues_after_rejected_pair() {
    let mut native = mock();
    native.property_rejects = vec![1];
    let d = opened(native, ZCanDeviceType::ZCAN_USBCANFD_200U);
    let values = vec![pair("0/a", "1"), pair("0/b", "2"), pair("0/c", "3")];
    assert_eq!(d.set_values(0, &values), Ok(vec![1]));
    assert_eq!(writes(&d).len(), 3);
    assert!(calls(&d).contains(&"release_iproperty".to_string()));
}

#[test]
fn get_values_reads_channel_paths() {
    let d = opened(mock(), ZCanDeviceType::ZCAN_USBCANFD_200U);
    let got = d.get_values(1, &vec!["clock".to_string(), "protocol".to_string()]).unwrap();
    assert_eq!(got, vec!["value of 1/clock".to_string(), "value of 1/protocol".to_string()]);
}

#[test]
fn open_failure_on_invalid_handle() {
    let mut native = mock();
    native.open_handle = 0;
    let mut d = ZCanDriver::new(native, ZCanDeviceType::ZCAN_PCI9820, 0, None);
    assert_eq!(d.open(), Err(ZCanError::MethodExecuteFailed(NativeOp::ZCAN_OpenDevice, 0)));
    assert_eq!(d.device_info().err(), Some(ZCanError::DeviceNotOpened));
}

#[test]
fn open_failure_on_device_info_closes_device() {
    let mut native = mock();
    native.info_status = 0;
    let mut d = ZCanDriver::new(native, ZCanDeviceType::ZCAN_PCI9820, 0, None);
    assert_eq!(d.open(), Err(ZCanError::MethodExecuteFailed(NativeOp::ZCAN_GetDeviceInf, 0)));
    assert!(calls(&d).contains(&"close_device".to_string()));
}

#[test]
fn start_failure_leaves_channel_unstarted() {
    let mut native = mock();
    native.start_status = 5;
    let mut d = opened(native, ZCanDeviceType::ZCAN_PCI9820);
    assert_eq!(
        d.init_can_chl(vec![CanChlCfg::new(ZCanChlType::CAN, 500000)]),
        Err(ZCanError::MethodExecuteFailed(NativeOp::ZCAN_StartCAN, 5))
    );
    assert_eq!(d.can_handler(0), Err(ZCanError::ChannelNotOpened));
}

#[test]
fn init_failure_on_invalid_channel_handle() {
    let mut native = mock();
    native.init_handle = 0;
    let mut d = opened(native, ZCanDeviceType::ZCAN_PCI9820);
    assert_eq!(
        d.init_can_chl(vec![CanChlCfg::new(ZCanChlType::CAN, 500000)]),
        Err(ZCanError::MethodExecuteFailed(NativeOp::ZCAN_InitCAN, 0))
    );
    assert!(!calls(&d).contains(&"start_can".to_string()));
}

#[test]
fn property_write_failure_names_key() {
    let mut native = mock();
    native.set_value_status = 0;
    let mut d = opened(native, ZCanDeviceType::ZCAN_PCI9820);
    assert_eq!(
        d.init_can_chl(vec![CanChlCfg::new(ZCanChlType::CAN, 500000)]),
        Err(ZCanError::PropertyWriteFailed(PropertyKey::Protocol, 0))
    );
    assert!(!calls(&d).contains(&"init_can".to_string()));
}

#[test]
fn init_on_unopened_device_fails() {
    let mut d = ZCanDriver::new(mock(), ZCanDeviceType::ZCAN_PCI9820, 0, None);
    assert_eq!(d.init_can_chl(vec![CanChlCfg::new(ZCanChlType::CAN, 500000)]), Err(ZCanError::DeviceNotOpened));
    assert!(calls(&d).is_empty());
}

#[test]
fn reset_invalidates_channel() {
    let mut d = opened(mock(), ZCanDeviceType::ZCAN_PCI9820);
    d.init_can_chl(vec![CanChlCfg::new(ZCanChlType::CAN, 500000)]).unwrap();
    assert_eq!(d.reset_can_chl(0), Ok(()));
    assert_eq!(d.can_handler(0), Err(ZCanError::ChannelNotOpened));
    assert_eq!(d.reset_can_chl(0), Err(ZCanError::ChannelNotOpened));
}

#[test]
fn reset_failure_keeps_channel() {
    let mut native = mock();
    native.reset_status = 3;
    let mut d = opened(native, ZCanDeviceType::ZCAN_PCI9820);
    d.init_can_chl(vec![CanChlCfg::new(ZCanChlType::CAN, 500000)]).unwrap();
    assert_eq!(d.reset_can_chl(0), Err(ZCanError::MethodExecuteFailed(NativeOp::ZCAN_ResetCAN, 3)));
    assert!(d.can_handler(0).is_ok());
}

#[test]
fn status_and_error_reads() {
    let mut d = opened(mock(), ZCanDeviceType::ZCAN_PCI9820);
    d.init_can_chl(vec![CanChlCfg::new(ZCanChlType::CAN, 500000)]).unwrap();
    assert_eq!(d.read_can_chl_status(0).unwrap().reg_te_counter, 9);
    assert_eq!(d.read_can_chl_error(0).err(), Some(ZCanError::MethodExecuteFailed(NativeOp::ZCAN_ReadChannelErrInfo, 4)));
    assert_eq!(d.clear_can_buffer(0), Ok(()));
}

#[test]
fn online_status_is_mapped() {
    let d = opened(mock(), ZCanDeviceType::ZCAN_PCI9820);
    assert_eq!(d.is_online(), Ok(true));
    let mut offline = mock();
    offline.online_status = 3;
    assert_eq!(opened(offline, ZCanDeviceType::ZCAN_PCI9820).is_online(), Ok(false));
    let mut odd = mock();
    odd.online_status = 7;
    assert_eq!(
        opened(odd, ZCanDeviceType::ZCAN_PCI9820).is_online(),
        Err(ZCanError::MethodExecuteFailed(NativeOp::ZCAN_IsDeviceOnLine, 7))
    );
}

#[test]
fn canfd_receive_keeps_delivered_frames_only() {
    let mut d = opened(mock(), ZCanDeviceType::ZCAN_USBCANFD_200U);
    d.init_can_chl(vec![CanChlCfg::new(ZCanChlType::CANFD_ISO, 500000)]).unwrap();
    d.native().fd_queue.borrow_mut().push(frame(0, 0x7, true));
    let got = d.receive_canfd(0, 3, Some(5)).unwrap();
    assert_eq!(got.len(), 1);
    assert_eq!(got[0].id, 0x7);
}

#[test]
fn transmit_routes_by_frame_kind() {
    let mut d = opened(mock(), ZCanDeviceType::ZCAN_USBCANFD_200U);
    d.init_can_chl(vec![CanChlCfg::new(ZCanChlType::CANFD_ISO, 500000)]).unwrap();
    assert_eq!(d.transmit(frame(0, 1, true), None), Ok(()));
    assert_eq!(d.transmit(frame(0, 2, false), None), Ok(()));
    let c = calls(&d);
    assert!(c.contains(&"transmit_fd".to_string()));
    assert!(c.contains(&"transmit".to_string()));
    let classic = opened(mock(), ZCanDeviceType::ZCAN_PCI9820);
    assert_eq!(classic.transmit(frame(0, 1, true), None), Err(ZCanError::MethodNotSupported));
}

#[test]
fn receive_gathers_classic_then_fd_frames() {
    let mut d = opened(mock(), ZCanDeviceType::ZCAN_USBCANFD_200U);
    d.init_can_chl(vec![CanChlCfg::new(ZCanChlType::CANFD_ISO, 500000)]).unwrap();
    d.native().can_queue.borrow_mut().push(frame(0, 0x1, false));
    d.native().fd_queue.borrow_mut().push(frame(0, 0x2, true));
    d.native().fd_queue.borrow_mut().push(frame(0, 0x3, true));
    let got = d.receive(0, Some(1)).unwrap();
    let ids: Vec<u32> = got.iter().map(|f| f.id).collect();
    assert_eq!(ids, vec![0x1, 0x2, 0x3]);
    assert_eq!(d.receive(1, None).err(), Some(ZCanError::ChannelNotOpened));
}

#[test]
fn shutdown_closes_device() {
    let mut d = opened(mock(), ZCanDeviceType::ZCAN_PCI9820);
    d.shutdown();
    assert_eq!(d.device_handler().err(), Some(ZCanError::DeviceNotOpened));
    assert_eq!(d.device_type(), ZCanDeviceType::ZCAN_PCI9820);
    assert_eq!(d.device_index(), 0);
}

#[test]
fn open_twice_keeps_state() {
    let mut d = opened(mock(), ZCanDeviceType::ZCAN_PCI9820);
    d.init_can_chl(vec![CanChlCfg::new(ZCanChlType::CAN, 500000)]).unwrap();
    assert_eq!(d.open(), Ok(()));
    assert_eq!(calls(&d).iter().filter(|c| *c == "open_device").count(), 1);
    assert!(d.can_handler(0).is_ok());
}

#[test]
fn set_values_with_nul_fails_before_native_call() {
    let d = opened(mock(), ZCanDeviceType::ZCAN_USBCANFD_200U);
    let before = calls(&d).len();
    let values = vec![pair("0/a", "1"), pair("0/b", "2\0")];
    assert_eq!(d.set_values(0, &values), Err(ZCanError::CStringConvertFailed(1)));
    assert_eq!(calls(&d).len(), before);
    assert!(writes(&d).is_empty());
}

#[test]
fn get_values_with_nul_fails_before_native_call() {
    let d = opened(mock(), ZCanDeviceType::ZCAN_USBCANFD_200U);
    let before = calls(&d).len();
    assert_eq!(d.get_values(0, &vec!["clo\0ck".to_string()]), Err(ZCanError::CStringConvertFailed(3)));
    assert_eq!(calls(&d).len(), before);
}

#[test]
fn batch_on_closed_device_fails_not_opened() {
    let d = ZCanDriver::new(mock(), ZCanDeviceType::ZCAN_USBCANFD_200U, 0, None);
    assert_eq!(d.set_values(0, &vec![pair("0/a", "1")]), Err(ZCanError::DeviceNotOpened));
    assert_eq!(d.get_values(0, &vec!["a".to_string()]), Err(ZCanError::DeviceNotOpened));
    assert!(calls(&d).is_empty());
}

#[test]
fn received_frames_carry_their_channel() {
    let mut d = opened(mock(), ZCanDeviceType::ZCAN_USBCANFD_200U);
    let cfg = CanChlCfg::new(ZCanChlType::CANFD_ISO, 500000);
    d.init_can_chl(vec![cfg, cfg]).unwrap();
    d.native().can_queue.borrow_mut().push(frame(0, 0x5, false));
    d.native().fd_queue.borrow_mut().push(frame(0, 0x6, true));
    let got = d.receive(1, Some(1)).unwrap();
    assert_eq!(got.len(), 2);
    assert!(got.iter().all(|f| f.channel == 1));
}

#[test]
fn join_keeps_classic_before_fd() {
    let joined = join_received(vec![frame(0, 1, false)], vec![frame(0, 2, true), frame(0, 3, true)]);
    let ids: Vec<u32> = joined.iter().map(|f| f.id).collect();
    assert_eq!(ids, vec![1, 2, 3]);
}

#[test]
fn closed_device_reports_no_channels() {
    let d = ZCanDriver::new(mock(), ZCanDeviceType::ZCAN_PCI9820, 0, None);
    assert!(d.opened_channels().is_empty());
    assert!(d.is_closed());
    assert_eq!(d.timestamp(0), Err(ZCanError::MethodNotSupported));
}

#[test]
fn transmit_count_is_the_sum_of_reported_counts() {
    let mut d = opened(mock(), ZCanDeviceType::ZCAN_PCI9820);
    d.init_can_chl(vec![CanChlCfg::new(ZCanChlType::CAN, 500000)]).unwrap();
    *d.native().transmit_results.borrow_mut() = vec![2, 0];
    assert_eq!(d.transmit_can(0, vec![frame(0, 1, false), frame(0, 2, false)]), Ok(2));
}
