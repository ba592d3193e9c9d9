use vstd::prelude::*;
use crate::config::PropertyKey;

verus! {

/// The native entry points whose failures are reported to callers.
#[allow(non_camel_case_types)]
#[derive(Clone, Copy, Debug, PartialEq, Eq, Structural)]
pub enum NativeOp {
    ZCAN_OpenDevice,
    ZCAN_CloseDevice,
    ZCAN_GetDeviceInf,
    ZCAN_IsDeviceOnLine,
    GetIProperty,
    ReleaseIProperty,
    ZCAN_GetValue,
    ZCAN_SetValue,
    ZCAN_InitCAN,
    ZCAN_StartCAN,
    ZCAN_ResetCAN,
    ZCAN_ReadChannelStatus,
    ZCAN_ReadChannelErrInfo,
    ZCAN_ClearBuffer,
    ZCAN_InitLIN,
    ZCAN_StartLIN,
    ZCAN_ResetLIN,
    ZCAN_SetLINSubscribe,
    ZCAN_SetLINPublish,
    ZCAN_SetLINPublishEx,
    ZCAN_WakeUpLIN,
    ZCAN_SetLINSlaveMsg,
    ZCAN_ClearLINSlaveMsg,
    ZCLOUD_ConnectServer,
    ZCLOUD_DisconnectServer,
    ZCLOUD_GetUserData,
}

impl NativeOp {
    /// The symbol name of the native entry point.
    pub fn name(&self) -> &'static str {
        match self {
            NativeOp::ZCAN_OpenDevice => "ZCAN_OpenDevice",
            NativeOp::ZCAN_CloseDevice => "ZCAN_CloseDevice",
            NativeOp::ZCAN_GetDeviceInf => "ZCAN_GetDeviceInf",
            NativeOp::ZCAN_IsDeviceOnLine => "ZCAN_IsDeviceOnLine",
            NativeOp::GetIProperty => "GetIProperty",
            NativeOp::ReleaseIProperty => "ReleaseIProperty",
            NativeOp::ZCAN_GetValue => "ZCAN_GetValue",
            NativeOp::ZCAN_SetValue => "ZCAN_SetValue",
            NativeOp::ZCAN_InitCAN => "ZCAN_InitCAN",
            NativeOp::ZCAN_StartCAN => "ZCAN_StartCAN",
            NativeOp::ZCAN_ResetCAN => "ZCAN_ResetCAN",
            NativeOp::ZCAN_ReadChannelStatus => "ZCAN_ReadChannelStatus",
            NativeOp::ZCAN_ReadChannelErrInfo => "ZCAN_ReadChannelErrInfo",
            NativeOp::ZCAN_ClearBuffer => "ZCAN_ClearBuffer",
            NativeOp::ZCAN_InitLIN => "ZCAN_InitLIN",
            NativeOp::ZCAN_StartLIN => "ZCAN_StartLIN",
            NativeOp::ZCAN_ResetLIN => "ZCAN_ResetLIN",
            NativeOp::ZCAN_SetLINSubscribe => "ZCAN_SetLINSubscribe",
            NativeOp::ZCAN_SetLINPublish => "ZCAN_SetLINPublish",
            NativeOp::ZCAN_SetLINPublishEx => "ZCAN_SetLINPublishEx",
            NativeOp::ZCAN_WakeUpLIN => "ZCAN_WakeUpLIN",
            NativeOp::ZCAN_SetLINSlaveMsg => "ZCAN_SetLINSlaveMsg",
            NativeOp::ZCAN_ClearLINSlaveMsg => "ZCAN_ClearLINSlaveMsg",
            NativeOp::ZCLOUD_ConnectServer => "ZCLOUD_ConnectServer",
            NativeOp::ZCLOUD_DisconnectServer => "ZCLOUD_DisconnectServer",
            NativeOp::ZCLOUD_GetUserData => "ZCLOUD_GetUserData",
        }
    }
}

/// The failures a device operation can report.
#[derive(Clone, Copy, Debug, PartialEq, Eq, Structural)]
pub enum ZCanError {
    /// The device has not been opened, or has been closed.
    DeviceNotOpened,
    /// The channel has not been initialized and started on an open device.
    ChannelNotOpened,
    /// The operation has no meaning for this device family.
    MethodNotSupported,
    /// A native call returned a failure status or an invalid handle.
    MethodExecuteFailed(NativeOp, u32),
    /// Writing a configuration property failed with the given native code.
    PropertyWriteFailed(PropertyKey, u32),
    /// A string holds a NUL character (at the given character position) and
    /// cannot be handed to the native layer.
    CStringConvertFailed(usize),
}

/// The status a native call returns on success.
pub const STATUS_OK: u32 = 1;
/// The handle value that stands for "no handle".
pub const INVALID_HANDLE: u32 = 0;

/// Maps a native status code: `STATUS_OK` is success, every other code a
/// failure of `op` that carries the code.
pub fn check_status(op: NativeOp, code: u32) -> (r: Result<(), ZCanError>)
    ensures
        code == STATUS_OK ==> r == Ok::<(), ZCanError>(()),
        code != STATUS_OK ==> r == Err::<(), ZCanError>(ZCanError::MethodExecuteFailed(op, code)),
{
    if code == STATUS_OK {
        Ok(())
    } else {
        Err(ZCanError::MethodExecuteFailed(op, code))
    }
}

/// Maps a handle returned by a native call: the invalid handle is a failure
/// of `op`, every other value is the handle.
pub fn check_handle(op: NativeOp, handle: u32) -> (r: Result<u32, ZCanError>)
    ensures
        handle == INVALID_HANDLE ==> r == Err::<u32, ZCanError>(
            ZCanError::MethodExecuteFailed(op, INVALID_HANDLE),
        ),
        handle != INVALID_HANDLE ==> r == Ok::<u32, ZCanError>(handle),
{
    if handle == INVALID_HANDLE {
        Err(ZCanError::MethodExecuteFailed(op, INVALID_HANDLE))
    } else {
        Ok(handle)
    }
}

} // verus!
