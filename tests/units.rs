use zlgcan::api::{channel_path, label_channel, online_from_status};
use zlgcan::can::CanMessage;
use zlgcan::bulk::{count_accepted, keep_delivered, rejected_positions, reversed, take_received};
use zlgcan::can::{CanChlCfg, ZCanChlType, ZCanFrameType};
use zlgcan::config::{can_chl_writes, PropertyKey, PropertyWrite};
use zlgcan::device::ZCanDeviceType;
use zlgcan::error::{check_handle, check_status, NativeOp, ZCanError};
use zlgcan::text::{check_c_str, decimal_string};

#[test]
fn decimal_text_of_edge_values() {
    assert_eq!(decimal_string(0), "0");
    assert_eq!(decimal_string(7), "7");
    assert_eq!(decimal_string(10), "10");
    assert_eq!(decimal_string(500000), "500000");
    assert_eq!(decimal_string(u32::MAX), "4294967295");
}

#[test]
fn nul_position_is_reported() {
    assert_eq!(check_c_str(""), Ok(()));
    assert_eq!(check_c_str("0/baud_rate"), Ok(()));
    assert_eq!(check_c_str("ab\0c\0"), Err(ZCanError::CStringConvertFailed(2)));
    assert_eq!(check_c_str("é\0"), Err(ZCanError::CStringConvertFailed(1)));
}

#[test]
fn property_paths_and_values() {
    let w = PropertyWrite { key: PropertyKey::CanfdDbitBaudRate, channel: 12, value: 2000000 };
    assert_eq!(w.path(), "12/canfd_dbit_baudrate");
    assert_eq!(w.value_text(), "2000000");
    let clock = PropertyWrite { key: PropertyKey::Clock, channel: 3, value: 80000000 };
    assert_eq!(clock.path(), "clock");
}

#[test]
fn classic_writes_on_family_with_resistance() {
    let mut cfg = CanChlCfg::new(ZCanChlType::CAN, 250000);
    cfg.resistance = false;
    let w = can_chl_writes(ZCanDeviceType::ZCAN_USBCAN_4E_U, 1, &cfg);
    assert_eq!(
        w,
        vec![
            PropertyWrite { key: PropertyKey::Resistance, channel: 1, value: 0 },
            PropertyWrite { key: PropertyKey::Protocol, channel: 1, value: 0 },
            PropertyWrite { key: PropertyKey::BaudRate, channel: 1, value: 250000 },
        ]
    );
    assert!(can_chl_writes(ZCanDeviceType::ZCAN_USBCAN1, 0, &cfg).is_empty());
}

#[test]
fn transmit_count_counts_taken_frames() {
    assert_eq!(count_accepted(&vec![]), 0);
    assert_eq!(count_accepted(&vec![1, 0, 1, 1, 0]), 3);
    assert_eq!(count_accepted(&vec![0, 0]), 0);
    assert_eq!(count_accepted(&vec![2, 0]), 2);
    assert_eq!(count_accepted(&vec![u32::MAX, 1, 0]), u32::MAX);
}

#[test]
fn delivered_frames_keep_order() {
    let got = keep_delivered(vec![(1, 'a'), (0, 'x'), (1, 'b'), (2, 'y'), (1, 'c')]);
    assert_eq!(got, vec!['a', 'b', 'c']);
    assert!(keep_delivered::<u8>(vec![]).is_empty());
}

#[test]
fn bulk_counts_are_bounded() {
    assert_eq!(take_received(2, vec![1, 2, 3, 4]), vec![1, 2]);
    assert_eq!(take_received(9, vec![1, 2]), vec![1, 2]);
    assert_eq!(take_received(0, vec![1, 2]), Vec::<i32>::new());
}

#[test]
fn status_and_handle_checks() {
    assert_eq!(check_status(NativeOp::ZCAN_ResetCAN, 1), Ok(()));
    assert_eq!(check_status(NativeOp::ZCAN_ResetCAN, 0), Err(ZCanError::MethodExecuteFailed(NativeOp::ZCAN_ResetCAN, 0)));
    assert_eq!(check_handle(NativeOp::ZCAN_InitCAN, 0), Err(ZCanError::MethodExecuteFailed(NativeOp::ZCAN_InitCAN, 0)));
    assert_eq!(check_handle(NativeOp::ZCAN_InitCAN, 44), Ok(44));
    assert_eq!(NativeOp::ZCAN_StartCAN.name(), "ZCAN_StartCAN");
}

#[test]
fn online_status_codes() {
    assert_eq!(online_from_status(2), Ok(true));
    assert_eq!(online_from_status(3), Ok(false));
    assert_eq!(online_from_status(0), Err(ZCanError::MethodExecuteFailed(NativeOp::ZCAN_IsDeviceOnLine, 0)));
}

#[test]
fn device_codes_round_trip() {
    for code in 0..128u32 {
        if let Some(t) = ZCanDeviceType::from_code(code) {
            assert_eq!(t.code(), code);
        }
    }
    assert_eq!(ZCanDeviceType::from_code(41), Some(ZCanDeviceType::ZCAN_USBCANFD_200U));
    assert_eq!(ZCanDeviceType::from_code(1), None);
    assert_eq!(ZCanFrameType::CANFD.code(), 1);
}

#[test]
fn capability_table_rows() {
    let fd = ZCanDeviceType::ZCAN_USBCANFD_200U.capabilities();
    assert!(fd.canfd && fd.lin && fd.resistance && fd.get_value && fd.property_config);
    assert_eq!(fd.lin_channels, 2);
    let usbcan1 = ZCanDeviceType::ZCAN_USBCAN1.capabilities();
    assert!(!usbcan1.canfd && !usbcan1.lin && !usbcan1.property_config);
    assert!(ZCanDeviceType::ZCAN_CLOUD.cloud_support());
    assert!(!ZCanDeviceType::ZCAN_PCI9820.has_resistance());
}

#[test]
fn channel_paths_put_channel_first() {
    assert_eq!(channel_path(0, "clock"), "0/clock");
    assert_eq!(channel_path(255, "baud_rate"), "255/baud_rate");
}

#[test]
fn labelling_keeps_order_and_sets_channel() {
    let frames = vec![CanMessage::new(0, 10, vec![1], false), CanMessage::new(3, 11, vec![2], true)];
    let got = label_channel(frames, 4);
    assert_eq!(got.iter().map(|f| (f.id, f.channel)).collect::<Vec<_>>(), vec![(10, 4), (11, 4)]);
    assert_eq!(got[1].data, vec![2]);
}

#[test]
fn rejected_positions_list_failed_codes() {
    assert_eq!(rejected_positions(&vec![1, 0, 1, 5, 1]), vec![1, 3]);
    assert!(rejected_positions(&vec![1, 1]).is_empty());
    assert!(rejected_positions(&vec![]).is_empty());
}

#[test]
fn reversed_reverses() {
    assert_eq!(reversed(vec![1, 2, 3]), vec![3, 2, 1]);
    assert!(reversed(Vec::<u8>::new()).is_empty());
}
