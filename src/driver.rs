use vstd::prelude::*;
use crate::api::{is_status_error, pairs_hold_nul, spec_online, strs_hold_nul, Api};
use crate::can::{CanChlCfg, CanMessage, ZCanChlError, ZCanChlStatus, ZCanFrameType};
use crate::cloud::{ZCloudGpsFrame, ZCloudServerInfo, ZCloudUserData};
use crate::device::{DeriveInfo, ZCanDeviceType, ZChannelContext, ZDeviceContext, ZDeviceInfo};
use crate::error::{NativeOp, ZCanError, INVALID_HANDLE};
use crate::lin::{ZLinChlCfg, ZLinFrame, ZLinPublish, ZLinPublishEx, ZLinSubscribe};
use crate::handler::{Handler, CHANNEL_SLOTS};
use crate::native::ZNativeApi;
use crate::text::{check_c_str, first_nul};

verus! {

/// The timeout handed to the native layer when the caller gives none: wait
/// without limit.
pub const WAIT_FOREVER: u32 = 0xFFFF_FFFF;

pub open spec fn spec_timeout(timeout: Option<u32>) -> u32 {
    match timeout {
        Some(t) => t,
        None => WAIT_FOREVER,
    }
}

pub fn native_timeout(timeout: Option<u32>) -> (r: u32)
    ensures
        r == spec_timeout(timeout),
{
    match timeout {
        Some(t) => t,
        None => WAIT_FOREVER,
    }
}

/// The error that resolving a channel gives before any native call: the
/// device is not open, or the channel is not started; `None` when it resolves.
pub open spec fn resolution_error(opened: bool, chl_hdl: Option<u32>) -> Option<ZCanError> {
    if !opened {
        Some(ZCanError::DeviceNotOpened)
    } else if chl_hdl is None {
        Some(ZCanError::ChannelNotOpened)
    } else {
        None
    }
}

/// A device: lifecycle, CAN data plane, and the LIN and cloud groups, which
/// answer `MethodNotSupported` unless the family has the capability. Every
/// channel operation first resolves the channel, and fails before any native
/// call when the device is not open or the channel is not started.
pub trait ZDevice: Sized {
    /// The well-formedness of the device state.
    spec fn inv(&self) -> bool;

    spec fn spec_device_type(&self) -> ZCanDeviceType;

    /// Whether the device holds a live device handle.
    spec fn spec_opened(&self) -> bool;

    /// The handle of CAN channel `channel`, if it is started.
    spec fn spec_can_chl(&self, channel: u8) -> Option<u32>;

    /// The handle of LIN channel `channel`, if it is started.
    spec fn spec_lin_chl(&self, channel: u8) -> Option<u32>;

    fn device_type(&self) -> (r: ZCanDeviceType)
        ensures
            r == self.spec_device_type();

    fn device_index(&self) -> u32;

    fn open(&mut self) -> (r: Result<(), ZCanError>)
        requires
            old(self).inv(),
        ensures
            final(self).inv(),
            final(self).spec_device_type() == old(self).spec_device_type(),
            r is Ok <==> final(self).spec_opened();

    /// Closes the device; whatever the native layer answers, the device
    /// handle and every channel handle are dropped.
    fn close(&mut self)
        requires
            old(self).inv(),
        ensures
            final(self).inv(),
            final(self).spec_device_type() == old(self).spec_device_type(),
            !final(self).spec_opened(),
            forall|c: u8| final(self).spec_can_chl(c) is None && final(self).spec_lin_chl(c) is None;

    fn device_info(&self) -> (r: Result<&ZDeviceInfo, ZCanError>)
        requires
            self.inv(),
        ensures
            r is Ok <==> self.spec_opened(),
            r is Err ==> r->Err_0 == ZCanError::DeviceNotOpened;

    fn is_derive_device(&self) -> bool;

    fn is_online(&self) -> (r: Result<bool, ZCanError>)
        requires
            self.inv(),
        default_ensures
            r is Err && r->Err_0 == ZCanError::MethodNotSupported,
    {
        Err(ZCanError::MethodNotSupported)
    }

    fn init_can_chl(&mut self, cfg: Vec<CanChlCfg>) -> (r: Result<(), ZCanError>)
        requires
            old(self).inv(),
        ensures
            final(self).inv(),
            final(self).spec_device_type() == old(self).spec_device_type(),
            !old(self).spec_opened() ==> r == Err::<(), ZCanError>(ZCanError::DeviceNotOpened),
            old(self).spec_opened() ==> r != Err::<(), ZCanError>(ZCanError::DeviceNotOpened);

    /// Resets a started CAN channel. A reset stops the channel and ends its
    /// handle: it takes a new `init_can_chl` to start it again.
    fn reset_can_chl(&mut self, channel: u8) -> (r: Result<(), ZCanError>)
        requires
            old(self).inv(),
        ensures
            final(self).inv(),
            final(self).spec_device_type() == old(self).spec_device_type(),
            resolution_error(old(self).spec_opened(), old(self).spec_can_chl(channel)) matches Some(e)
                ==> r == Err::<(), ZCanError>(e),
            r is Ok ==> final(self).spec_can_chl(channel) is None;

    fn read_can_chl_status(&self, channel: u8) -> (r: Result<ZCanChlStatus, ZCanError>)
        requires
            self.inv(),
        ensures
            resolution_error(self.spec_opened(), self.spec_can_chl(channel)) matches Some(e)
                ==> r == Err::<ZCanChlStatus, ZCanError>(e);

    fn read_can_chl_error(&self, channel: u8) -> (r: Result<ZCanChlError, ZCanError>)
        requires
            self.inv(),
        ensures
            resolution_error(self.spec_opened(), self.spec_can_chl(channel)) matches Some(e)
                ==> r is Err && r->Err_0 == e;

    fn clear_can_buffer(&self, channel: u8) -> (r: Result<(), ZCanError>)
        requires
            self.inv(),
        ensures
            resolution_error(self.spec_opened(), self.spec_can_chl(channel)) matches Some(e)
                ==> r == Err::<(), ZCanError>(e);

    fn get_can_num(&self, channel: u8, can_type: ZCanFrameType) -> (r: Result<u32, ZCanError>)
        requires
            self.inv(),
        ensures
            resolution_error(self.spec_opened(), self.spec_can_chl(channel)) matches Some(e)
                ==> r == Err::<u32, ZCanError>(e);

    fn receive_can(&self, channel: u8, size: u32, timeout: Option<u32>) -> (r: Result<Vec<CanMessage>, ZCanError>)
        requires
            self.inv(),
        ensures
            resolution_error(self.spec_opened(), self.spec_can_chl(channel)) matches Some(e)
                ==> r is Err && r->Err_0 == e,
            r matches Ok(v) ==> v.len() <= size,
            r matches Ok(v) ==> forall|i: int| 0 <= i < v.len() ==> (#[trigger] v@[i]).channel == channel;

    fn transmit_can(&self, channel: u8, frames: Vec<CanMessage>) -> (r: Result<u32, ZCanError>)
        requires
            self.inv(),
        ensures
            resolution_error(self.spec_opened(), self.spec_can_chl(channel)) matches Some(e)
                ==> r == Err::<u32, ZCanError>(e);

    fn receive_canfd(&self, channel: u8, size: u32, timeout: Option<u32>) -> (r: Result<Vec<CanMessage>, ZCanError>)
        requires
            self.inv(),
        ensures
            !self.spec_device_type().spec_canfd() ==> r is Err && r->Err_0 == ZCanError::MethodNotSupported,
            r matches Ok(v) ==> v.len() <= size,
            r matches Ok(v) ==> forall|i: int| 0 <= i < v.len() ==> (#[trigger] v@[i]).channel == channel,
        default_ensures
            r is Err && r->Err_0 == ZCanError::MethodNotSupported,
    {
        Err(ZCanError::MethodNotSupported)
    }

    fn transmit_canfd(&self, channel: u8, frames: Vec<CanMessage>) -> (r: Result<u32, ZCanError>)
        requires
            self.inv(),
        ensures
            !self.spec_device_type().spec_canfd() ==> r == Err::<u32, ZCanError>(ZCanError::MethodNotSupported),
        default_ensures
            r == Err::<u32, ZCanError>(ZCanError::MethodNotSupported),
    {
        Err(ZCanError::MethodNotSupported)
    }

    fn init_lin_chl(&mut self, cfg: Vec<ZLinChlCfg>) -> (r: Result<(), ZCanError>)
        requires
            old(self).inv(),
        ensures
            final(self).inv(),
            final(self).spec_device_type() == old(self).spec_device_type(),
            !old(self).spec_device_type().spec_lin() ==> r == Err::<(), ZCanError>(ZCanError::MethodNotSupported)
                && *final(self) == *old(self),
            old(self).spec_opened() ==> r != Err::<(), ZCanError>(ZCanError::DeviceNotOpened),
        default_ensures
            r == Err::<(), ZCanError>(ZCanError::MethodNotSupported),
            *final(self) == *old(self),
    {
        Err(ZCanError::MethodNotSupported)
    }

    /// Resets a started LIN channel; like a CAN reset, it ends the handle.
    fn reset_lin_chl(&mut self, channel: u8) -> (r: Result<(), ZCanError>)
        requires
            old(self).inv(),
        ensures
            final(self).inv(),
            final(self).spec_device_type() == old(self).spec_device_type(),
            !old(self).spec_device_type().spec_lin() ==> r == Err::<(), ZCanError>(ZCanError::MethodNotSupported)
                && *final(self) == *old(self),
            r is Ok ==> final(self).spec_lin_chl(channel) is None,
        default_ensures
            r == Err::<(), ZCanError>(ZCanError::MethodNotSupported),
            *final(self) == *old(self),
    {
        Err(ZCanError::MethodNotSupported)
    }

    fn clear_lin_buffer(&self, channel: u8) -> (r: Result<(), ZCanError>)
        requires
            self.inv(),
        ensures
            !self.spec_device_type().spec_lin() ==> r == Err::<(), ZCanError>(ZCanError::MethodNotSupported),
        default_ensures
            r == Err::<(), ZCanError>(ZCanError::MethodNotSupported),
    {
        Err(ZCanError::MethodNotSupported)
    }

    fn get_lin_num(&self, channel: u8) -> (r: Result<u32, ZCanError>)
        requires
            self.inv(),
        ensures
            !self.spec_device_type().spec_lin() ==> r == Err::<u32, ZCanError>(ZCanError::MethodNotSupported),
        default_ensures
            r == Err::<u32, ZCanError>(ZCanError::MethodNotSupported),
    {
        Err(ZCanError::MethodNotSupported)
    }

    fn receive_lin(&self, channel: u8, size: u32, timeout: Option<u32>) -> (r: Result<Vec<ZLinFrame>, ZCanError>)
        requires
            self.inv(),
        ensures
            !self.spec_device_type().spec_lin() ==> r is Err && r->Err_0 == ZCanError::MethodNotSupported,
            r matches Ok(v) ==> v.len() <= size,
        default_ensures
            r is Err && r->Err_0 == ZCanError::MethodNotSupported,
    {
        Err(ZCanError::MethodNotSupported)
    }

    fn transmit_lin(&self, channel: u8, frames: Vec<ZLinFrame>) -> (r: Result<u32, ZCanError>)
        requires
            self.inv(),
        ensures
            !self.spec_device_type().spec_lin() ==> r == Err::<u32, ZCanError>(ZCanError::MethodNotSupported),
        default_ensures
            r == Err::<u32, ZCanError>(ZCanError::MethodNotSupported),
    {
        Err(ZCanError::MethodNotSupported)
    }

    fn set_lin_subscribe(&self, channel: u8, cfg: Vec<ZLinSubscribe>) -> (r: Result<(), ZCanError>)
        requires
            self.inv(),
        ensures
            !self.spec_device_type().spec_lin() ==> r == Err::<(), ZCanError>(ZCanError::MethodNotSupported),
        default_ensures
            r == Err::<(), ZCanError>(ZCanError::MethodNotSupported),
    {
        Err(ZCanError::MethodNotSupported)
    }

    fn set_lin_publish(&self, channel: u8, cfg: Vec<ZLinPublish>) -> (r: Result<(), ZCanError>)
        requires
            self.inv(),
        ensures
            !self.spec_device_type().spec_lin() ==> r == Err::<(), ZCanError>(ZCanError::MethodNotSupported),
        default_ensures
            r == Err::<(), ZCanError>(ZCanError::MethodNotSupported),
    {
        Err(ZCanError::MethodNotSupported)
    }

    fn set_lin_publish_ext(&self, channel: u8, cfg: Vec<ZLinPublishEx>) -> (r: Result<(), ZCanError>)
        requires
            self.inv(),
        ensures
            !self.spec_device_type().spec_lin() ==> r == Err::<(), ZCanError>(ZCanError::MethodNotSupported),
        default_ensures
            r == Err::<(), ZCanError>(ZCanError::MethodNotSupported),
    {
        Err(ZCanError::MethodNotSupported)
    }

    fn wakeup_lin(&self, channel: u8) -> (r: Result<(), ZCanError>)
        requires
            self.inv(),
        ensures
            !self.spec_device_type().spec_lin() ==> r == Err::<(), ZCanError>(ZCanError::MethodNotSupported),
        default_ensures
            r == Err::<(), ZCanError>(ZCanError::MethodNotSupported),
    {
        Err(ZCanError::MethodNotSupported)
    }

    /// Sets slave responses; kept for older callers, `set_lin_publish` replaces it.
    fn set_lin_slave_msg(&self, channel: u8, msg: Vec<ZLinFrame>) -> (r: Result<(), ZCanError>)
        requires
            self.inv(),
        ensures
            !self.spec_device_type().spec_lin() ==> r == Err::<(), ZCanError>(ZCanError::MethodNotSupported),
        default_ensures
            r == Err::<(), ZCanError>(ZCanError::MethodNotSupported),
    {
        Err(ZCanError::MethodNotSupported)
    }

    /// Clears slave responses; kept for older callers.
    fn clear_lin_slave_msg(&self, channel: u8, pids: Vec<u8>) -> (r: Result<(), ZCanError>)
        requires
            self.inv(),
        ensures
            !self.spec_device_type().spec_lin() ==> r == Err::<(), ZCanError>(ZCanError::MethodNotSupported),
        default_ensures
            r == Err::<(), ZCanError>(ZCanError::MethodNotSupported),
    {
        Err(ZCanError::MethodNotSupported)
    }

    fn set_server(&self, server: ZCloudServerInfo) -> (r: Result<(), ZCanError>)
        requires
            self.inv(),
        ensures
            !self.spec_device_type().spec_cloud() ==> r == Err::<(), ZCanError>(ZCanError::MethodNotSupported),
        default_ensures
            r == Err::<(), ZCanError>(ZCanError::MethodNotSupported),
    {
        Err(ZCanError::MethodNotSupported)
    }

    fn connect_server(&self, username: &str, password: &str) -> (r: Result<(), ZCanError>)
        requires
            self.inv(),
        ensures
            !self.spec_device_type().spec_cloud() ==> r == Err::<(), ZCanError>(ZCanError::MethodNotSupported),
        default_ensures
            r == Err::<(), ZCanError>(ZCanError::MethodNotSupported),
    {
        Err(ZCanError::MethodNotSupported)
    }

    fn is_connected_server(&self) -> (r: Result<bool, ZCanError>)
        requires
            self.inv(),
        ensures
            !self.spec_device_type().spec_cloud() ==> r == Err::<bool, ZCanError>(ZCanError::MethodNotSupported),
        default_ensures
            r == Err::<bool, ZCanError>(ZCanError::MethodNotSupported),
    {
        Err(ZCanError::MethodNotSupported)
    }

    fn disconnect_server(&self) -> (r: Result<(), ZCanError>)
        requires
            self.inv(),
        ensures
            !self.spec_device_type().spec_cloud() ==> r == Err::<(), ZCanError>(ZCanError::MethodNotSupported),
        default_ensures
            r == Err::<(), ZCanError>(ZCanError::MethodNotSupported),
    {
        Err(ZCanError::MethodNotSupported)
    }

    fn get_userdata(&self, update: Option<i32>) -> (r: Result<ZCloudUserData, ZCanError>)
        requires
            self.inv(),
        ensures
            !self.spec_device_type().spec_cloud() ==> r is Err && r->Err_0 == ZCanError::MethodNotSupported,
        default_ensures
            r is Err && r->Err_0 == ZCanError::MethodNotSupported,
    {
        Err(ZCanError::MethodNotSupported)
    }

    fn receive_gps(&self, size: u32, timeout: Option<u32>) -> (r: Result<Vec<ZCloudGpsFrame>, ZCanError>)
        requires
            self.inv(),
        ensures
            !self.spec_device_type().spec_cloud() ==> r is Err && r->Err_0 == ZCanError::MethodNotSupported,
            r matches Ok(v) ==> v.len() <= size,
        default_ensures
            r is Err && r->Err_0 == ZCanError::MethodNotSupported,
    {
        Err(ZCanError::MethodNotSupported)
    }

    /// The device time of a channel. Only devices whose native layer keeps a
    /// readable clock provide it.
    fn timestamp(&self, channel: u8) -> (r: Result<u64, ZCanError>)
        requires
            self.inv(),
        default_ensures
            r == Err::<u64, ZCanError>(ZCanError::MethodNotSupported),
    {
        Err(ZCanError::MethodNotSupported)
    }

    fn device_handler(&self) -> (r: Result<&Handler, ZCanError>)
        requires
            self.inv(),
        ensures
            r is Ok <==> self.spec_opened(),
            r is Err ==> r->Err_0 == ZCanError::DeviceNotOpened;

    /// Resolves a started CAN channel to its context.
    fn can_handler(&self, channel: u8) -> (r: Result<ZChannelContext, ZCanError>)
        requires
            self.inv(),
        ensures
            resolution_error(self.spec_opened(), self.spec_can_chl(channel)) matches Some(e)
                ==> r == Err::<ZChannelContext, ZCanError>(e),
            resolution_error(self.spec_opened(), self.spec_can_chl(channel)) is None
                ==> (r matches Ok(c) && c.channel == channel && c.chl_hdl == self.spec_can_chl(channel));

    /// Resolves a started LIN channel to its context.
    fn lin_handler(&self, channel: u8) -> (r: Result<ZChannelContext, ZCanError>)
        requires
            self.inv(),
        ensures
            resolution_error(self.spec_opened(), self.spec_lin_chl(channel)) matches Some(e)
                ==> r == Err::<ZChannelContext, ZCanError>(e),
            resolution_error(self.spec_opened(), self.spec_lin_chl(channel)) is None
                ==> (r matches Ok(c) && c.channel == channel && c.chl_hdl == self.spec_lin_chl(channel));
}

/// The errors starting a CAN channel of an open device can give: a failed
/// property write, an invalid channel handle from `ZCAN_InitCAN`, a failed
/// `ZCAN_StartCAN`, or a failed `ZCAN_ResetCAN` when the channel was
/// already started.
pub open spec fn can_start_error(e: ZCanError) -> bool {
    ||| e is PropertyWriteFailed
    ||| e == ZCanError::MethodExecuteFailed(NativeOp::ZCAN_InitCAN, INVALID_HANDLE)
    ||| is_status_error(e, NativeOp::ZCAN_StartCAN)
    ||| is_status_error(e, NativeOp::ZCAN_ResetCAN)
}

/// The errors starting a LIN channel of an open device can give.
pub open spec fn lin_start_error(e: ZCanError) -> bool {
    ||| e == ZCanError::MethodExecuteFailed(NativeOp::ZCAN_InitLIN, INVALID_HANDLE)
    ||| is_status_error(e, NativeOp::ZCAN_StartLIN)
    ||| is_status_error(e, NativeOp::ZCAN_ResetLIN)
}

/// Starts CAN channel `channel` of an open device for `cfg`; a channel that
/// is already started is reset first.
fn start_can_channel<N: ZNativeApi>(api: &Api<N>, h: &mut Handler, channel: u8, cfg: &CanChlCfg) -> (r: Result<(), ZCanError>)
    requires
        old(h).wf(),
    ensures
        final(h).wf(),
        final(h).spec_device() == old(h).spec_device(),
        final(h).spec_info() == old(h).spec_info(),
        r is Ok ==> final(h).can_chl(channel) is Some,
        r matches Err(e) ==> can_start_error(e),
        forall|c: u8| c != channel ==> final(h).can_chl(c) == old(h).can_chl(c),
        forall|c: u8| final(h).lin_chl(c) == old(h).lin_chl(c),
{
    let slot = h.can_slot(channel);
    if slot.chl_hdl.is_some() {
        api.reset_can_chl(&slot)?;
        h.set_can(ZChannelContext::new(slot.device, channel));
    }
    let mut context = ZChannelContext::new(slot.device, channel);
    api.init_can_chl(&mut context, cfg)?;
    h.set_can(context);
    Ok(())
}

/// Starts LIN channel `channel` of an open device for `cfg`; a channel that
/// is already started is reset first.
fn start_lin_channel<N: ZNativeApi>(api: &Api<N>, h: &mut Handler, channel: u8, cfg: &ZLinChlCfg) -> (r: Result<(), ZCanError>)
    requires
        old(h).wf(),
    ensures
        final(h).wf(),
        final(h).spec_device() == old(h).spec_device(),
        final(h).spec_info() == old(h).spec_info(),
        r is Ok ==> final(h).lin_chl(channel) is Some,
        r matches Err(e) ==> lin_start_error(e),
        forall|c: u8| c != channel ==> final(h).lin_chl(c) == old(h).lin_chl(c),
        forall|c: u8| final(h).can_chl(c) == old(h).can_chl(c),
{
    let slot = h.lin_slot(channel);
    if slot.chl_hdl.is_some() {
        api.reset_lin_chl(&slot)?;
        h.set_lin(ZChannelContext::new(slot.device, channel));
    }
    let mut context = ZChannelContext::new(slot.device, channel);
    api.init_lin_chl(&mut context, cfg)?;
    h.set_lin(context);
    Ok(())
}

/// The frames of one receive: the classic frames, then the CAN-FD frames.
pub fn join_received(classic: Vec<CanMessage>, fd: Vec<CanMessage>) -> (r: Vec<CanMessage>)
    ensures
        r@ == classic@ + fd@,
{
    let mut r = classic;
    let mut fd = fd;
    r.append(&mut fd);
    r
}

/// A device of one family and index, driven through the native table `N`.
pub struct ZCanDriver<N: ZNativeApi> {
    api: Api<N>,
    dev_type: ZCanDeviceType,
    dev_idx: u32,
    derive: Option<DeriveInfo>,
    handler: Option<Handler>,
}

impl<N: ZNativeApi> ZCanDriver<N> {
    /// A closed device of family `dev_type` and index `dev_idx`.
    pub fn new(native: N, dev_type: ZCanDeviceType, dev_idx: u32, derive: Option<DeriveInfo>) -> (r: Self)
        ensures
            r.inv(),
            r.spec_device_type() == dev_type,
            r.spec_dev_idx() == dev_idx,
            !r.spec_opened(),
    {
        ZCanDriver { api: Api::new(native), dev_type, dev_idx, derive, handler: None }
    }

    /// A closed device has no started channel.
    pub proof fn lemma_closed_has_no_channels(&self)
        requires
            self.inv(),
        ensures
            !self.spec_opened() ==> forall|c: u8| self.spec_can_chl(c) is None && self.spec_lin_chl(c) is None,
    {
    }

    pub closed spec fn spec_derive(&self) -> Option<DeriveInfo> {
        self.derive
    }

    pub closed spec fn spec_dev_idx(&self) -> u32 {
        self.dev_idx
    }

    /// The live device handle, if the device is open.
    pub closed spec fn spec_dev_hdl(&self) -> Option<u32> {
        match self.handler {
            Some(h) => h.spec_device().dev_hdl,
            None => None,
        }
    }

    /// The number of CAN channels the open device has.
    pub closed spec fn spec_can_num(&self) -> nat {
        match self.handler {
            Some(h) => h.spec_info().can_num as nat,
            None => 0,
        }
    }

    /// The native table the device is driven through.
    pub fn native(&self) -> &N {
        &self.api.native
    }

    /// The CAN channels that are started, in ascending order.
    pub fn opened_channels(&self) -> (r: Vec<u8>)
        requires
            self.inv(),
        ensures
            forall|k: int| 0 <= k < r.len() ==> self.spec_can_chl(#[trigger] r@[k]) is Some,
            forall|c: u8| self.spec_can_chl(c) is Some ==> r@.contains(c),
            forall|k: int, l: int| 0 <= k < l < r.len() ==> r@[k] < r@[l],
            !self.spec_opened() ==> r.len() == 0,
    {
        match &self.handler {
            Some(h) => h.can_channels(),
            None => Vec::new(),
        }
    }

    /// Whether no CAN channel is started.
    pub fn is_closed(&self) -> (r: bool)
        requires
            self.inv(),
        ensures
            r <==> forall|c: u8| self.spec_can_chl(c) is None,
            !self.spec_opened() ==> r,
    {
        let channels = self.opened_channels();
        if channels.len() == 0 {
            assert forall|c: u8| self.spec_can_chl(c) is None by {
                if self.spec_can_chl(c) is Some {
                    assert(channels@.contains(c));
                }
            }
            true
        } else {
            assert(self.spec_can_chl(channels@[0]) is Some);
            false
        }
    }

    /// Transmits one frame on the channel it names, as CAN-FD or classic CAN
    /// as the frame says.
    pub fn transmit(&self, msg: CanMessage, timeout: Option<u32>) -> (r: Result<(), ZCanError>)
        requires
            self.inv(),
        ensures
            msg.is_fd && !self.spec_device_type().spec_canfd() ==> r == Err::<(), ZCanError>(ZCanError::MethodNotSupported),
            (!msg.is_fd || self.spec_device_type().spec_canfd()) ==> match resolution_error(self.spec_opened(), self.spec_can_chl(msg.channel)) {
                Some(e) => r == Err::<(), ZCanError>(e),
                None => r is Ok,
            },
    {
        let channel = msg.channel();
        if msg.is_can_fd() {
            self.transmit_canfd(channel, vec![msg])?;
        } else {
            self.transmit_can(channel, vec![msg])?;
        }
        Ok(())
    }

    /// Receives what waits on a channel: the classic frames, then, on a
    /// CAN-FD family, the CAN-FD frames.
    pub fn receive(&self, channel: u8, timeout: Option<u32>) -> (r: Result<Vec<CanMessage>, ZCanError>)
        requires
            self.inv(),
        ensures
            match resolution_error(self.spec_opened(), self.spec_can_chl(channel)) {
                Some(e) => r is Err && r->Err_0 == e,
                None => r is Ok,
            },
            r matches Ok(v) ==> forall|i: int| 0 <= i < v.len() ==> (#[trigger] v@[i]).channel == channel,
    {
        let count_can = self.get_can_num(channel, ZCanFrameType::CAN)?;
        let classic = if count_can > 0 {
            self.receive_can(channel, count_can, timeout)?
        } else {
            Vec::new()
        };
        let mut fd: Vec<CanMessage> = Vec::new();
        if self.dev_type.canfd_support() {
            let count_fd = self.get_can_num(channel, ZCanFrameType::CANFD)?;
            if count_fd > 0 {
                fd = self.receive_canfd(channel, count_fd, timeout)?;
            }
        }
        Ok(join_received(classic, fd))
    }

    /// Closes the device.
    pub fn shutdown(&mut self)
        requires
            old(self).inv(),
        ensures
            final(self).inv(),
            !final(self).spec_opened(),
            final(self).spec_device_type() == old(self).spec_device_type(),
            forall|c: u8| final(self).spec_can_chl(c) is None && final(self).spec_lin_chl(c) is None,
    {
        self.close()
    }

    /// Reads a property by path, on a family with direct property access.
    /// A path holding a NUL character fails before anything else.
    pub fn get_value(&self, channel: u8, path: &str) -> (r: Result<String, ZCanError>)
        requires
            self.inv(),
        ensures
            first_nul(path@) matches Some(i) ==> r is Err && r->Err_0 == ZCanError::CStringConvertFailed(i),
            first_nul(path@) is None && !self.spec_device_type().spec_get_value()
                ==> r is Err && r->Err_0 == ZCanError::MethodNotSupported,
            first_nul(path@) is None && self.spec_device_type().spec_get_value() && !self.spec_opened()
                ==> r is Err && r->Err_0 == ZCanError::DeviceNotOpened,
            first_nul(path@) is None && self.spec_device_type().spec_get_value() && self.spec_opened() && r is Err
                ==> r->Err_0 == ZCanError::MethodExecuteFailed(NativeOp::ZCAN_GetValue, INVALID_HANDLE),
    {
        let context = self.channel_context(channel);
        self.api.get_value(&context, path)
    }

    /// Writes a property by path, on a family with direct property access.
    /// A path or value holding a NUL character fails before anything else.
    pub fn set_value(&self, channel: u8, path: &str, value: &str) -> (r: Result<(), ZCanError>)
        requires
            self.inv(),
        ensures
            first_nul(path@) matches Some(i) ==> r == Err::<(), ZCanError>(ZCanError::CStringConvertFailed(i)),
            first_nul(value@) matches Some(i) ==> (first_nul(path@) is None
                ==> r == Err::<(), ZCanError>(ZCanError::CStringConvertFailed(i))),
            first_nul(path@) is None && first_nul(value@) is None && !self.spec_device_type().spec_get_value()
                ==> r == Err::<(), ZCanError>(ZCanError::MethodNotSupported),
            first_nul(path@) is None && first_nul(value@) is None && self.spec_device_type().spec_get_value()
                && !self.spec_opened() ==> r == Err::<(), ZCanError>(ZCanError::DeviceNotOpened),
            r matches Err(e) ==> (first_nul(path@) is None && first_nul(value@) is None
                && self.spec_device_type().spec_get_value() && self.spec_opened()
                ==> is_status_error(e, NativeOp::ZCAN_SetValue)),
    {
        check_c_str(path)?;
        check_c_str(value)?;
        if !self.dev_type.get_value_support() {
            return Err(ZCanError::MethodNotSupported);
        }
        let context = self.channel_context(channel);
        self.api.set_value(&context, path, value)
    }

    /// Writes a batch of (path, value) pairs, on a family with direct
    /// property access. A pair the native layer rejects does not stop the
    /// batch: the positions of the rejected pairs come back in order.
    pub fn set_values(&self, channel: u8, values: &Vec<(String, String)>) -> (r: Result<Vec<usize>, ZCanError>)
        requires
            self.inv(),
        ensures
            !self.spec_device_type().spec_get_value() ==> r is Err && r->Err_0 == ZCanError::MethodNotSupported,
            self.spec_device_type().spec_get_value() && pairs_hold_nul(values@)
                ==> r is Err && r->Err_0 is CStringConvertFailed,
            self.spec_device_type().spec_get_value() && !pairs_hold_nul(values@) && !self.spec_opened()
                ==> r is Err && r->Err_0 == ZCanError::DeviceNotOpened,
            r matches Err(e) ==> (self.spec_device_type().spec_get_value() ==> {
                &&& (e is CStringConvertFailed <==> pairs_hold_nul(values@))
                &&& (e == ZCanError::DeviceNotOpened <==> !pairs_hold_nul(values@) && !self.spec_opened())
            }),
            r matches Ok(rejected) ==> {
                &&& forall|k: int| 0 <= k < rejected.len() ==> rejected@[k] < values.len()
                &&& forall|k: int, l: int| 0 <= k < l < rejected.len() ==> rejected@[k] < rejected@[l]
            },
    {
        if !self.dev_type.get_value_support() {
            return Err(ZCanError::MethodNotSupported);
        }
        let context = self.channel_context(channel);
        self.api.set_values(&context, values)
    }

    /// Reads a batch of channel properties, on a family with direct property
    /// access; each key is read at `<channel>/<key>` (see `channel_path`).
    pub fn get_values(&self, channel: u8, keys: &Vec<String>) -> (r: Result<Vec<String>, ZCanError>)
        requires
            self.inv(),
        ensures
            !self.spec_device_type().spec_get_value() ==> r is Err && r->Err_0 == ZCanError::MethodNotSupported,
            self.spec_device_type().spec_get_value() && strs_hold_nul(keys@)
                ==> r is Err && r->Err_0 is CStringConvertFailed,
            self.spec_device_type().spec_get_value() && !strs_hold_nul(keys@) && !self.spec_opened()
                ==> r is Err && r->Err_0 == ZCanError::DeviceNotOpened,
            r matches Err(e) ==> (self.spec_device_type().spec_get_value() ==> {
                &&& (e is CStringConvertFailed <==> strs_hold_nul(keys@))
                &&& (e == ZCanError::DeviceNotOpened <==> !strs_hold_nul(keys@) && !self.spec_opened())
            }),
            r matches Ok(v) ==> v.len() == keys.len(),
    {
        if !self.dev_type.get_value_support() {
            return Err(ZCanError::MethodNotSupported);
        }
        let context = self.channel_context(channel);
        self.api.get_values(&context, keys)
    }

    /// The context of channel `channel`, started or not, of the device as it
    /// stands; its device handle is absent when the device is closed.
    fn channel_context(&self, channel: u8) -> (r: ZChannelContext)
        requires
            self.inv(),
        ensures
            r.device.dev_type == self.dev_type,
            r.device.dev_hdl == self.spec_dev_hdl(),
            self.spec_opened() ==> r.device.dev_hdl is Some,
    {
        match &self.handler {
            Some(h) => h.can_slot(channel),
            None => ZChannelContext::new(ZDeviceContext::new(self.dev_type, self.dev_idx), channel),
        }
    }
}

impl<N: ZNativeApi> ZDevice for ZCanDriver<N> {
    closed spec fn inv(&self) -> bool {
        self.handler matches Some(h) ==> {
            &&& h.wf()
            &&& h.spec_device().dev_type == self.dev_type
            &&& h.spec_device().dev_idx == self.dev_idx
            &&& h.spec_device().dev_hdl matches Some(d) && d != INVALID_HANDLE
        }
    }

    closed spec fn spec_device_type(&self) -> ZCanDeviceType {
        self.dev_type
    }

    closed spec fn spec_opened(&self) -> bool {
        self.handler is Some
    }

    closed spec fn spec_can_chl(&self, channel: u8) -> Option<u32> {
        match self.handler {
            Some(h) => h.can_chl(channel),
            None => None,
        }
    }

    closed spec fn spec_lin_chl(&self, channel: u8) -> Option<u32> {
        match self.handler {
            Some(h) => h.lin_chl(channel),
            None => None,
        }
    }

    fn device_type(&self) -> (r: ZCanDeviceType) {
        self.dev_type
    }

    fn device_index(&self) -> (r: u32)
        ensures
            r == self.spec_dev_idx(),
    {
        self.dev_idx
    }

    fn open(&mut self) -> (r: Result<(), ZCanError>)
        ensures
            old(self).spec_opened() ==> r is Ok && *final(self) == *old(self),
            !old(self).spec_opened() && r is Ok ==> {
                &&& final(self).spec_dev_hdl() matches Some(h) && h != INVALID_HANDLE
                &&& forall|c: u8| final(self).spec_can_chl(c) is None && final(self).spec_lin_chl(c) is None
            },
            r matches Err(e) ==> *final(self) == *old(self)
                && (e == ZCanError::MethodExecuteFailed(NativeOp::ZCAN_OpenDevice, INVALID_HANDLE)
                    || is_status_error(e, NativeOp::ZCAN_GetDeviceInf)),
    {
        if self.handler.is_some() {
            return Ok(());
        }
        let mut context = ZDeviceContext::new(self.dev_type, self.dev_idx);
        self.api.open(&mut context)?;
        let info = match self.derive {
            Some(d) => ZDeviceInfo::from_derive(d),
            None => match self.api.read_device_info(&context) {
                Ok(info) => info,
                Err(e) => {
                    let _ = self.api.close(&context);
                    return Err(e);
                },
            },
        };
        self.handler = Some(Handler::new(context, info));
        Ok(())
    }

    fn close(&mut self)
        ensures
            final(self).spec_dev_idx() == old(self).spec_dev_idx(),
    {
        if let Some(h) = self.handler.take() {
            let mut i: usize = 0;
            while i < CHANNEL_SLOTS
                invariant
                    h.wf(),
                    i <= CHANNEL_SLOTS,
                decreases CHANNEL_SLOTS - i,
            {
                if let Some(c) = h.find_can(i as u8) {
                    let _ = self.api.reset_can_chl(&c);
                }
                if let Some(c) = h.find_lin(i as u8) {
                    let _ = self.api.reset_lin_chl(&c);
                }
                i += 1;
            }
            let _ = self.api.close(h.device_context());
        }
    }

    fn device_info(&self) -> (r: Result<&ZDeviceInfo, ZCanError>) {
        match &self.handler {
            Some(h) => Ok(h.device_info()),
            None => Err(ZCanError::DeviceNotOpened),
        }
    }

    fn is_derive_device(&self) -> (r: bool)
        ensures
            r == (self.spec_derive() is Some),
    {
        self.derive.is_some()
    }

    fn is_online(&self) -> (r: Result<bool, ZCanError>)
        ensures
            !self.spec_opened() ==> r == Err::<bool, ZCanError>(ZCanError::DeviceNotOpened),
            self.spec_opened() ==> exists|c: u32| r == spec_online(c),
    {
        let h = self.device_handler()?;
        self.api.is_online(h.device_context())
    }

    fn init_can_chl(&mut self, cfg: Vec<CanChlCfg>) -> (r: Result<(), ZCanError>)
        ensures
            !old(self).spec_opened() ==> *final(self) == *old(self),
            final(self).spec_opened() == old(self).spec_opened(),
            final(self).spec_dev_hdl() == old(self).spec_dev_hdl(),
            final(self).spec_can_num() == old(self).spec_can_num(),
            forall|c: u8| final(self).spec_lin_chl(c) == old(self).spec_lin_chl(c),
            forall|c: u8| (c as int) >= cfg.len() || (c as int) >= old(self).spec_can_num()
                ==> final(self).spec_can_chl(c) == old(self).spec_can_chl(c),
            r is Ok ==> forall|c: u8| (c as int) < cfg.len() && (c as int) < old(self).spec_can_num()
                ==> final(self).spec_can_chl(c) is Some,
            r matches Err(e) ==> (e == ZCanError::DeviceNotOpened && !old(self).spec_opened())
                || can_start_error(e),
    {
        let mut h = match self.handler.take() {
            Some(h) => h,
            None => return Err(ZCanError::DeviceNotOpened),
        };
        let can_num = h.device_info().can_num as usize;
        let count = if cfg.len() < can_num { cfg.len() } else { can_num };
        let ghost h0 = h;
        let mut result: Result<(), ZCanError> = Ok(());
        let mut i: usize = 0;
        while i < count && result.is_ok()
            invariant
                count <= cfg.len(),
                count <= h0.spec_info().can_num,
                count < CHANNEL_SLOTS,
                i <= count,
                h.wf(),
                h.spec_device() == h0.spec_device(),
                h.spec_info() == h0.spec_info(),
                forall|c: u8| h.lin_chl(c) == h0.lin_chl(c),
                forall|c: u8| (c as int) > i || ((c as int) == i && result is Ok) ==> h.can_chl(c) == h0.can_chl(c),
                result is Ok ==> forall|c: u8| (c as int) < i ==> h.can_chl(c) is Some,
                result is Err ==> i < count,
                result matches Err(e) ==> can_start_error(e),
            decreases count - i, (if result is Ok { 1int } else { 0int }),
        {
            match start_can_channel(&self.api, &mut h, i as u8, &cfg[i]) {
                Ok(()) => {
                    i += 1;
                },
                Err(e) => {
                    result = Err(e);
                },
            }
        }
        self.handler = Some(h);
        result
    }

    fn reset_can_chl(&mut self, channel: u8) -> (r: Result<(), ZCanError>)
        ensures
            final(self).spec_opened() == old(self).spec_opened(),
            final(self).spec_dev_hdl() == old(self).spec_dev_hdl(),
            final(self).spec_can_num() == old(self).spec_can_num(),
            forall|c: u8| final(self).spec_lin_chl(c) == old(self).spec_lin_chl(c),
            forall|c: u8| c != channel ==> final(self).spec_can_chl(c) == old(self).spec_can_chl(c),
            r is Ok ==> final(self).spec_can_chl(channel) is None,
            r is Err ==> final(self).spec_can_chl(channel) == old(self).spec_can_chl(channel),
            r matches Err(e) ==> (resolution_error(old(self).spec_opened(), old(self).spec_can_chl(channel)) is None
                ==> is_status_error(e, NativeOp::ZCAN_ResetCAN)),
    {
        let mut h = match self.handler.take() {
            Some(h) => h,
            None => return Err(ZCanError::DeviceNotOpened),
        };
        let result = match h.find_can(channel) {
            None => Err(ZCanError::ChannelNotOpened),
            Some(context) => match self.api.reset_can_chl(&context) {
                Ok(()) => {
                    h.set_can(ZChannelContext::new(context.device, channel));
                    Ok(())
                },
                Err(e) => Err(e),
            },
        };
        self.handler = Some(h);
        result
    }

    fn read_can_chl_status(&self, channel: u8) -> (r: Result<ZCanChlStatus, ZCanError>)
        ensures
            r matches Err(e) ==> (resolution_error(self.spec_opened(), self.spec_can_chl(channel)) is None
                ==> is_status_error(e, NativeOp::ZCAN_ReadChannelStatus)),
    {
        let context = self.can_handler(channel)?;
        self.api.read_can_chl_status(&context)
    }

    fn read_can_chl_error(&self, channel: u8) -> (r: Result<ZCanChlError, ZCanError>)
        ensures
            r matches Err(e) ==> (resolution_error(self.spec_opened(), self.spec_can_chl(channel)) is None
                ==> is_status_error(e, NativeOp::ZCAN_ReadChannelErrInfo)),
    {
        let context = self.can_handler(channel)?;
        self.api.read_can_chl_error(&context)
    }

    fn clear_can_buffer(&self, channel: u8) -> (r: Result<(), ZCanError>)
        ensures
            r matches Err(e) ==> (resolution_error(self.spec_opened(), self.spec_can_chl(channel)) is None
                ==> is_status_error(e, NativeOp::ZCAN_ClearBuffer)),
    {
        let context = self.can_handler(channel)?;
        self.api.clear_can_buffer(&context)
    }

    fn get_can_num(&self, channel: u8, can_type: ZCanFrameType) -> (r: Result<u32, ZCanError>)
        ensures
            resolution_error(self.spec_opened(), self.spec_can_chl(channel)) is None ==> r is Ok,
    {
        let context = self.can_handler(channel)?;
        self.api.get_can_num(&context, can_type)
    }

    fn receive_can(&self, channel: u8, size: u32, timeout: Option<u32>) -> (r: Result<Vec<CanMessage>, ZCanError>)
        ensures
            resolution_error(self.spec_opened(), self.spec_can_chl(channel)) is None ==> r is Ok,
    {
        let context = self.can_handler(channel)?;
        self.api.receive_can(&context, size, native_timeout(timeout))
    }

    fn transmit_can(&self, channel: u8, frames: Vec<CanMessage>) -> (r: Result<u32, ZCanError>)
        ensures
            resolution_error(self.spec_opened(), self.spec_can_chl(channel)) is None ==> r is Ok,
    {
        let context = self.can_handler(channel)?;
        self.api.transmit_can(&context, &frames)
    }

    fn receive_canfd(&self, channel: u8, size: u32, timeout: Option<u32>) -> (r: Result<Vec<CanMessage>, ZCanError>)
        ensures
            self.spec_device_type().spec_canfd() ==> match resolution_error(self.spec_opened(), self.spec_can_chl(channel)) {
                Some(e) => r is Err && r->Err_0 == e,
                None => r is Ok,
            },
    {
        if !self.dev_type.canfd_support() {
            return Err(ZCanError::MethodNotSupported);
        }
        let context = self.can_handler(channel)?;
        self.api.receive_canfd(&context, size, native_timeout(timeout))
    }

    fn transmit_canfd(&self, channel: u8, frames: Vec<CanMessage>) -> (r: Result<u32, ZCanError>)
        ensures
            self.spec_device_type().spec_canfd() ==> match resolution_error(self.spec_opened(), self.spec_can_chl(channel)) {
                Some(e) => r == Err::<u32, ZCanError>(e),
                None => r is Ok,
            },
    {
        if !self.dev_type.canfd_support() {
            return Err(ZCanError::MethodNotSupported);
        }
        let context = self.can_handler(channel)?;
        self.api.transmit_canfd(&context, &frames)
    }

    fn init_lin_chl(&mut self, cfg: Vec<ZLinChlCfg>) -> (r: Result<(), ZCanError>)
        ensures
            old(self).spec_device_type().spec_lin() && !old(self).spec_opened()
                ==> r == Err::<(), ZCanError>(ZCanError::DeviceNotOpened) && *final(self) == *old(self),
            final(self).spec_opened() == old(self).spec_opened(),
            final(self).spec_dev_hdl() == old(self).spec_dev_hdl(),
            final(self).spec_can_num() == old(self).spec_can_num(),
            forall|c: u8| final(self).spec_can_chl(c) == old(self).spec_can_chl(c),
            forall|c: u8| (c as int) >= cfg.len() || c >= old(self).spec_device_type().spec_lin_channels()
                ==> final(self).spec_lin_chl(c) == old(self).spec_lin_chl(c),
            r is Ok ==> forall|c: u8| (c as int) < cfg.len() && c < old(self).spec_device_type().spec_lin_channels()
                ==> final(self).spec_lin_chl(c) is Some,
            r matches Err(e) ==> (e == ZCanError::MethodNotSupported && !old(self).spec_device_type().spec_lin())
                || (e == ZCanError::DeviceNotOpened && !old(self).spec_opened())
                || lin_start_error(e),
    {
        if !self.dev_type.lin_support() {
            return Err(ZCanError::MethodNotSupported);
        }
        let mut h = match self.handler.take() {
            Some(h) => h,
            None => return Err(ZCanError::DeviceNotOpened),
        };
        let lin_num = self.dev_type.lin_channels() as usize;
        let count = if cfg.len() < lin_num { cfg.len() } else { lin_num };
        let ghost h0 = h;
        let mut result: Result<(), ZCanError> = Ok(());
        let mut i: usize = 0;
        while i < count && result.is_ok()
            invariant
                count <= cfg.len(),
                count <= self.dev_type.spec_lin_channels(),
                count < CHANNEL_SLOTS,
                i <= count,
                h.wf(),
                h.spec_device() == h0.spec_device(),
                h.spec_info() == h0.spec_info(),
                forall|c: u8| h.can_chl(c) == h0.can_chl(c),
                forall|c: u8| (c as int) > i || ((c as int) == i && result is Ok) ==> h.lin_chl(c) == h0.lin_chl(c),
                result is Ok ==> forall|c: u8| (c as int) < i ==> h.lin_chl(c) is Some,
                result is Err ==> i < count,
                result matches Err(e) ==> lin_start_error(e),
            decreases count - i, (if result is Ok { 1int } else { 0int }),
        {
            match start_lin_channel(&self.api, &mut h, i as u8, &cfg[i]) {
                Ok(()) => {
                    i += 1;
                },
                Err(e) => {
                    result = Err(e);
                },
            }
        }
        self.handler = Some(h);
        result
    }

    fn reset_lin_chl(&mut self, channel: u8) -> (r: Result<(), ZCanError>)
        ensures
            old(self).spec_device_type().spec_lin() ==> (resolution_error(old(self).spec_opened(), old(self).spec_lin_chl(channel)) matches Some(e)
                ==> r == Err::<(), ZCanError>(e)),
            final(self).spec_opened() == old(self).spec_opened(),
            final(self).spec_dev_hdl() == old(self).spec_dev_hdl(),
            forall|c: u8| final(self).spec_can_chl(c) == old(self).spec_can_chl(c),
            forall|c: u8| c != channel ==> final(self).spec_lin_chl(c) == old(self).spec_lin_chl(c),
            r is Ok ==> final(self).spec_lin_chl(channel) is None,
            r is Err ==> final(self).spec_lin_chl(channel) == old(self).spec_lin_chl(channel),
    {
        if !self.dev_type.lin_support() {
            return Err(ZCanError::MethodNotSupported);
        }
        let mut h = match self.handler.take() {
            Some(h) => h,
            None => return Err(ZCanError::DeviceNotOpened),
        };
        let result = match h.find_lin(channel) {
            None => Err(ZCanError::ChannelNotOpened),
            Some(context) => match self.api.reset_lin_chl(&context) {
                Ok(()) => {
                    h.set_lin(ZChannelContext::new(context.device, channel));
                    Ok(())
                },
                Err(e) => Err(e),
            },
        };
        self.handler = Some(h);
        result
    }

    fn get_lin_num(&self, channel: u8) -> (r: Result<u32, ZCanError>)
        ensures
            self.spec_device_type().spec_lin() ==> match resolution_error(self.spec_opened(), self.spec_lin_chl(channel)) {
                Some(e) => r == Err::<u32, ZCanError>(e),
                None => r is Ok,
            },
    {
        if !self.dev_type.lin_support() {
            return Err(ZCanError::MethodNotSupported);
        }
        let context = self.lin_handler(channel)?;
        self.api.get_lin_num(&context)
    }

    fn receive_lin(&self, channel: u8, size: u32, timeout: Option<u32>) -> (r: Result<Vec<ZLinFrame>, ZCanError>)
        ensures
            self.spec_device_type().spec_lin() ==> match resolution_error(self.spec_opened(), self.spec_lin_chl(channel)) {
                Some(e) => r is Err && r->Err_0 == e,
                None => r is Ok,
            },
    {
        if !self.dev_type.lin_support() {
            return Err(ZCanError::MethodNotSupported);
        }
        let context = self.lin_handler(channel)?;
        self.api.receive_lin(&context, size, native_timeout(timeout))
    }

    fn transmit_lin(&self, channel: u8, frames: Vec<ZLinFrame>) -> (r: Result<u32, ZCanError>)
        ensures
            self.spec_device_type().spec_lin() ==> match resolution_error(self.spec_opened(), self.spec_lin_chl(channel)) {
                Some(e) => r == Err::<u32, ZCanError>(e),
                None => r is Ok,
            },
    {
        if !self.dev_type.lin_support() {
            return Err(ZCanError::MethodNotSupported);
        }
        let context = self.lin_handler(channel)?;
        self.api.transmit_lin(&context, &frames)
    }

    fn set_lin_subscribe(&self, channel: u8, cfg: Vec<ZLinSubscribe>) -> (r: Result<(), ZCanError>)
        ensures
            self.spec_device_type().spec_lin() ==> match resolution_error(self.spec_opened(), self.spec_lin_chl(channel)) {
                Some(e) => r == Err::<(), ZCanError>(e),
                None => r is Ok || (r matches Err(e) && is_status_error(e, NativeOp::ZCAN_SetLINSubscribe)),
            },
    {
        if !self.dev_type.lin_support() {
            return Err(ZCanError::MethodNotSupported);
        }
        let context = self.lin_handler(channel)?;
        self.api.set_lin_subscribe(&context, &cfg)
    }

    fn set_lin_publish(&self, channel: u8, cfg: Vec<ZLinPublish>) -> (r: Result<(), ZCanError>)
        ensures
            self.spec_device_type().spec_lin() ==> match resolution_error(self.spec_opened(), self.spec_lin_chl(channel)) {
                Some(e) => r == Err::<(), ZCanError>(e),
                None => r is Ok || (r matches Err(e) && is_status_error(e, NativeOp::ZCAN_SetLINPublish)),
            },
    {
        if !self.dev_type.lin_support() {
            return Err(ZCanError::MethodNotSupported);
        }
        let context = self.lin_handler(channel)?;
        self.api.set_lin_publish(&context, &cfg)
    }

    fn set_lin_publish_ext(&self, channel: u8, cfg: Vec<ZLinPublishEx>) -> (r: Result<(), ZCanError>)
        ensures
            self.spec_device_type().spec_lin() ==> match resolution_error(self.spec_opened(), self.spec_lin_chl(channel)) {
                Some(e) => r == Err::<(), ZCanError>(e),
                None => r is Ok || (r matches Err(e) && is_status_error(e, NativeOp::ZCAN_SetLINPublishEx)),
            },
    {
        if !self.dev_type.lin_support() {
            return Err(ZCanError::MethodNotSupported);
        }
        let context = self.lin_handler(channel)?;
        self.api.set_lin_publish_ex(&context, &cfg)
    }

    fn wakeup_lin(&self, channel: u8) -> (r: Result<(), ZCanError>)
        ensures
            self.spec_device_type().spec_lin() ==> match resolution_error(self.spec_opened(), self.spec_lin_chl(channel)) {
                Some(e) => r == Err::<(), ZCanError>(e),
                None => r is Ok || (r matches Err(e) && is_status_error(e, NativeOp::ZCAN_WakeUpLIN)),
            },
    {
        if !self.dev_type.lin_support() {
            return Err(ZCanError::MethodNotSupported);
        }
        let context = self.lin_handler(channel)?;
        self.api.wakeup_lin(&context)
    }

    fn set_lin_slave_msg(&self, channel: u8, msg: Vec<ZLinFrame>) -> (r: Result<(), ZCanError>)
        ensures
            self.spec_device_type().spec_lin() ==> match resolution_error(self.spec_opened(), self.spec_lin_chl(channel)) {
                Some(e) => r == Err::<(), ZCanError>(e),
                None => r is Ok || (r matches Err(e) && is_status_error(e, NativeOp::ZCAN_SetLINSlaveMsg)),
            },
    {
        if !self.dev_type.lin_support() {
            return Err(ZCanError::MethodNotSupported);
        }
        let context = self.lin_handler(channel)?;
        self.api.set_lin_slave_msg(&context, &msg)
    }

    fn clear_lin_slave_msg(&self, channel: u8, pids: Vec<u8>) -> (r: Result<(), ZCanError>)
        ensures
            self.spec_device_type().spec_lin() ==> match resolution_error(self.spec_opened(), self.spec_lin_chl(channel)) {
                Some(e) => r == Err::<(), ZCanError>(e),
                None => r is Ok || (r matches Err(e) && is_status_error(e, NativeOp::ZCAN_ClearLINSlaveMsg)),
            },
    {
        if !self.dev_type.lin_support() {
            return Err(ZCanError::MethodNotSupported);
        }
        let context = self.lin_handler(channel)?;
        self.api.clear_lin_slave_msg(&context, &pids)
    }

    fn set_server(&self, server: ZCloudServerInfo) -> (r: Result<(), ZCanError>)
        ensures
            self.spec_device_type().spec_cloud() ==> (r is Ok <==> !server.http_url@.contains('\0') && !server.mqtt_url@.contains('\0')),
    {
        if !self.dev_type.cloud_support() {
            return Err(ZCanError::MethodNotSupported);
        }
        self.api.set_server(&server)
    }

    fn connect_server(&self, username: &str, password: &str) -> (r: Result<(), ZCanError>)
        ensures
            self.spec_device_type().spec_cloud() && (username@.contains('\0') || password@.contains('\0'))
                ==> r is Err && r->Err_0 is CStringConvertFailed,
            r matches Err(e) ==> (self.spec_device_type().spec_cloud() && !(e is CStringConvertFailed)
                ==> is_status_error(e, NativeOp::ZCLOUD_ConnectServer)),
    {
        if !self.dev_type.cloud_support() {
            return Err(ZCanError::MethodNotSupported);
        }
        self.api.connect_server(username, password)
    }

    fn is_connected_server(&self) -> (r: Result<bool, ZCanError>)
        ensures
            self.spec_device_type().spec_cloud() ==> r is Ok,
    {
        if !self.dev_type.cloud_support() {
            return Err(ZCanError::MethodNotSupported);
        }
        self.api.is_connected_server()
    }

    fn disconnect_server(&self) -> (r: Result<(), ZCanError>)
        ensures
            self.spec_device_type().spec_cloud() ==> r is Ok || exists|c: u32| c != 0
                && r == Err::<(), ZCanError>(ZCanError::MethodExecuteFailed(NativeOp::ZCLOUD_DisconnectServer, c)),
    {
        if !self.dev_type.cloud_support() {
            return Err(ZCanError::MethodNotSupported);
        }
        self.api.disconnect_server()
    }

    fn get_userdata(&self, update: Option<i32>) -> (r: Result<ZCloudUserData, ZCanError>)
        ensures
            self.spec_device_type().spec_cloud() && r is Err
                ==> r->Err_0 == ZCanError::MethodExecuteFailed(NativeOp::ZCLOUD_GetUserData, INVALID_HANDLE),
    {
        if !self.dev_type.cloud_support() {
            return Err(ZCanError::MethodNotSupported);
        }
        let update = match update {
            Some(u) => u,
            None => 0,
        };
        self.api.get_userdata(update)
    }

    fn receive_gps(&self, size: u32, timeout: Option<u32>) -> (r: Result<Vec<ZCloudGpsFrame>, ZCanError>)
        ensures
            self.spec_device_type().spec_cloud() && !self.spec_opened() ==> r is Err && r->Err_0 == ZCanError::DeviceNotOpened,
            self.spec_device_type().spec_cloud() && self.spec_opened() ==> r is Ok,
    {
        if !self.dev_type.cloud_support() {
            return Err(ZCanError::MethodNotSupported);
        }
        let h = self.device_handler()?;
        self.api.receive_gps(h.device_context(), size, native_timeout(timeout))
    }

    fn device_handler(&self) -> (r: Result<&Handler, ZCanError>)
        ensures
            r matches Ok(h) ==> h.wf() && h.spec_device().dev_hdl == self.spec_dev_hdl()
                && h.spec_device().dev_type == self.spec_device_type()
                && (forall|c: u8| h.can_chl(c) == self.spec_can_chl(c) && h.lin_chl(c) == self.spec_lin_chl(c)),
    {
        match &self.handler {
            Some(h) => Ok(h),
            None => Err(ZCanError::DeviceNotOpened),
        }
    }

    fn can_handler(&self, channel: u8) -> (r: Result<ZChannelContext, ZCanError>)
        ensures
            r matches Ok(c) ==> c.device.dev_type == self.spec_device_type() && c.device.dev_hdl == self.spec_dev_hdl(),
    {
        let h = self.device_handler()?;
        match h.find_can(channel) {
            Some(context) => Ok(context),
            None => Err(ZCanError::ChannelNotOpened),
        }
    }

    fn lin_handler(&self, channel: u8) -> (r: Result<ZChannelContext, ZCanError>)
        ensures
            r matches Ok(c) ==> c.device.dev_type == self.spec_device_type() && c.device.dev_hdl == self.spec_dev_hdl(),
    {
        let h = self.device_handler()?;
        match h.find_lin(channel) {
            Some(context) => Ok(context),
            None => Err(ZCanError::ChannelNotOpened),
        }
    }
}

} // verus!
