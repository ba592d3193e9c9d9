use vstd::prelude::*;
use crate::can::{CanChlCfg, CanMessage, ZCanChlError, ZCanChlStatus, ZCanFrameType};
use crate::bulk::{
    count_accepted, delivered, delivered_count, keep_delivered, lemma_delivered_len, lists_rejections, rejected_positions,
    reversed, take_received, transmit_count,
};
use crate::cloud::{ZCloudGpsFrame, ZCloudServerInfo, ZCloudUserData};
use crate::config::{can_chl_writes, spec_can_chl_writes, PropertyKey};
use crate::device::{ZChannelContext, ZDeviceContext, ZDeviceInfo};
use crate::error::{check_handle, check_status, NativeOp, ZCanError, INVALID_HANDLE, STATUS_OK};
use crate::lin::{ZLinChlCfg, ZLinFrame, ZLinPublish, ZLinPublishEx, ZLinSubscribe};
use crate::native::ZNativeApi;
use crate::text::{check_c_str, decimal, first_nul, push_decimal};
use vstd::string::StringExecFns;

verus! {

/// The status `ZCAN_IsDeviceOnLine` returns for a device that is online.
pub const STATUS_ONLINE: u32 = 2;
/// The status `ZCAN_IsDeviceOnLine` returns for a device that is offline.
pub const STATUS_OFFLINE: u32 = 3;

/// The online state a native status code reports.
pub open spec fn spec_online(code: u32) -> Result<bool, ZCanError> {
    if code == STATUS_ONLINE {
        Ok(true)
    } else if code == STATUS_OFFLINE {
        Ok(false)
    } else {
        Err(ZCanError::MethodExecuteFailed(NativeOp::ZCAN_IsDeviceOnLine, code))
    }
}

pub fn online_from_status(code: u32) -> (r: Result<bool, ZCanError>)
    ensures
        r == spec_online(code),
{
    if code == STATUS_ONLINE {
        Ok(true)
    } else if code == STATUS_OFFLINE {
        Ok(false)
    } else {
        Err(ZCanError::MethodExecuteFailed(NativeOp::ZCAN_IsDeviceOnLine, code))
    }
}

/// The outcomes a native status call of `op` can have: success, or the
/// failure of `op` with a code other than success.
pub open spec fn ok_or_status_error(r: Result<(), ZCanError>, op: NativeOp) -> bool {
    r is Ok || exists|c: u32| c != STATUS_OK && r == Err::<(), ZCanError>(ZCanError::MethodExecuteFailed(op, c))
}

/// The error of a failed status call of `op`, if `e` is one.
pub open spec fn is_status_error(e: ZCanError, op: NativeOp) -> bool {
    exists|c: u32| c != STATUS_OK && e == ZCanError::MethodExecuteFailed(op, c)
}

/// Whether some path or value of the pairs holds a NUL character.
pub open spec fn pairs_hold_nul(values: Seq<(String, String)>) -> bool {
    exists|i: int| 0 <= i < values.len() && (values[i].0@.contains('\0') || values[i].1@.contains('\0'))
}

/// Whether some string of `strs` holds a NUL character.
pub open spec fn strs_hold_nul(strs: Seq<String>) -> bool {
    exists|i: int| 0 <= i < strs.len() && strs[i]@.contains('\0')
}

/// Checks every path and value of `values` for NUL characters.
pub fn check_pairs(values: &Vec<(String, String)>) -> (r: Result<(), ZCanError>)
    ensures
        r is Ok <==> !pairs_hold_nul(values@),
        r matches Err(e) ==> e is CStringConvertFailed,
{
    let mut i: usize = 0;
    while i < values.len()
        invariant
            i <= values.len(),
            forall|j: int| 0 <= j < i ==> !values@[j].0@.contains('\0') && !values@[j].1@.contains('\0'),
        decreases values.len() - i,
    {
        check_c_str(values[i].0.as_str())?;
        check_c_str(values[i].1.as_str())?;
        i += 1;
    }
    Ok(())
}

/// Checks every string of `strs` for NUL characters.
pub fn check_strs(strs: &Vec<String>) -> (r: Result<(), ZCanError>)
    ensures
        r is Ok <==> !strs_hold_nul(strs@),
        r matches Err(e) ==> e is CStringConvertFailed,
{
    let mut i: usize = 0;
    while i < strs.len()
        invariant
            i <= strs.len(),
            forall|j: int| 0 <= j < i ==> !strs@[j]@.contains('\0'),
        decreases strs.len() - i,
    {
        check_c_str(strs[i].as_str())?;
        i += 1;
    }
    Ok(())
}

/// The path of a channel-scoped property: `<channel>/<key>`.
pub fn channel_path(channel: u8, key: &str) -> (r: String)
    ensures
        r@ == decimal(channel as nat) + "/"@ + key@,
{
    let mut path = String::new();
    push_decimal(channel as u32, &mut path);
    path.append("/");
    path.append(key);
    assert(path@ =~= decimal(channel as nat) + "/"@ + key@);
    path
}

/// Keeps the frames of the receive calls that reported exactly one frame,
/// in order, each marked with the channel it arrived on.
pub fn keep_delivered_on(results: Vec<(u32, CanMessage)>, channel: u8) -> (r: Vec<CanMessage>)
    ensures
        r.len() == delivered(results@).len(),
        r.len() == delivered_count(results@),
        forall|i: int| 0 <= i < r.len() ==> #[trigger] r@[i] == on_channel(delivered(results@)[i], channel),
{
    let frames = keep_delivered(results);
    label_channel(frames, channel)
}

/// The frame `m` marked as received on `channel`.
pub open spec fn on_channel(m: CanMessage, channel: u8) -> CanMessage {
    CanMessage { channel, ..m }
}

/// Marks every frame as received on `channel`, keeping their order.
pub fn label_channel(frames: Vec<CanMessage>, channel: u8) -> (r: Vec<CanMessage>)
    ensures
        r.len() == frames.len(),
        forall|i: int| 0 <= i < r.len() ==> #[trigger] r@[i] == on_channel(frames@[i], channel),
{
    let ghost all = frames@;
    let mut pending = reversed(frames);
    let mut out: Vec<CanMessage> = Vec::new();
    assert(pending@.reverse() =~= all.subrange(0, all.len() as int)) by {
        assert(pending@.reverse() =~= all.reverse().reverse());
    }
    while pending.len() > 0
        invariant
            out.len() + pending.len() == all.len(),
            pending@.reverse() == all.subrange(out.len() as int, all.len() as int),
            forall|i: int| 0 <= i < out.len() ==> #[trigger] out@[i] == on_channel(all[i], channel),
        decreases pending.len(),
    {
        let ghost before = pending@;
        let ghost k = out.len() as int;
        let mut m = pending.pop().unwrap();
        proof {
            assert(before =~= pending@.push(m));
            assert(before.reverse() =~= seq![m] + pending@.reverse());
            let tail = all.subrange(k, all.len() as int);
            assert(tail == seq![m] + pending@.reverse());
            assert(tail[0] == all[k]);
            assert((seq![m] + pending@.reverse())[0] == m);
            assert(tail.subrange(1, tail.len() as int) =~= all.subrange(k + 1, all.len() as int));
            assert((seq![m] + pending@.reverse()).subrange(1, tail.len() as int) =~= pending@.reverse());
        }
        m.channel = channel;
        out.push(m);
    }
    out
}

/// The verified operations over a native function table, one per native
/// facility, each working on a device or channel context.
pub struct Api<N: ZNativeApi> {
    pub native: N,
}

impl<N: ZNativeApi> Api<N> {
    pub fn new(native: N) -> (r: Api<N>)
        ensures
            r.native == native,
    {
        Api { native }
    }

    /// Opens the device and stores its handle in `context`; the invalid handle
    /// is a failure that leaves `context` as it was.
    pub fn open(&self, context: &mut ZDeviceContext) -> (r: Result<(), ZCanError>)
        ensures
            final(context).dev_type == old(context).dev_type,
            final(context).dev_idx == old(context).dev_idx,
            r is Ok ==> (final(context).dev_hdl matches Some(h) && h != INVALID_HANDLE),
            r is Err ==> r == Err::<(), ZCanError>(ZCanError::MethodExecuteFailed(NativeOp::ZCAN_OpenDevice, INVALID_HANDLE))
                && *final(context) == *old(context),
    {
        let ret = self.native.open_device(context.dev_type.code(), context.dev_idx);
        let h = check_handle(NativeOp::ZCAN_OpenDevice, ret)?;
        context.dev_hdl = Some(h);
        Ok(())
    }

    /// Closes the device.
    pub fn close(&self, context: &ZDeviceContext) -> (r: Result<(), ZCanError>)
        ensures
            context.dev_hdl is None ==> r == Err::<(), ZCanError>(ZCanError::DeviceNotOpened),
            context.dev_hdl is Some ==> ok_or_status_error(r, NativeOp::ZCAN_CloseDevice),
    {
        let dev_hdl = context.device_handler()?;
        check_status(NativeOp::ZCAN_CloseDevice, self.native.close_device(dev_hdl))
    }

    /// Reads what the device reports about itself.
    pub fn read_device_info(&self, context: &ZDeviceContext) -> (r: Result<ZDeviceInfo, ZCanError>)
        ensures
            context.dev_hdl is None ==> r == Err::<ZDeviceInfo, ZCanError>(ZCanError::DeviceNotOpened),
            r matches Err(e) ==> (context.dev_hdl is Some ==> is_status_error(e, NativeOp::ZCAN_GetDeviceInf)),
    {
        let dev_hdl = context.device_handler()?;
        let (ret, info) = self.native.get_device_info(dev_hdl);
        match check_status(NativeOp::ZCAN_GetDeviceInf, ret) {
            Ok(()) => Ok(info),
            Err(e) => Err(e),
        }
    }

    /// Asks whether the device is online.
    pub fn is_online(&self, context: &ZDeviceContext) -> (r: Result<bool, ZCanError>)
        ensures
            context.dev_hdl is None ==> r == Err::<bool, ZCanError>(ZCanError::DeviceNotOpened),
            context.dev_hdl is Some ==> exists|c: u32| r == spec_online(c),
    {
        let dev_hdl = context.device_handler()?;
        online_from_status(self.native.is_device_online(dev_hdl))
    }

    /// Obtains the generic property interface of the channel's device.
    pub fn get_property(&self, context: &ZChannelContext) -> (r: Result<N::Property, ZCanError>)
        ensures
            context.device.dev_hdl is None ==> r is Err && r->Err_0 == ZCanError::DeviceNotOpened,
            context.device.dev_hdl is Some && r is Err ==> r->Err_0 == ZCanError::MethodExecuteFailed(NativeOp::GetIProperty, INVALID_HANDLE),
    {
        let dev_hdl = context.device_handler()?;
        match self.native.get_iproperty(dev_hdl) {
            Some(p) => Ok(p),
            None => Err(ZCanError::MethodExecuteFailed(NativeOp::GetIProperty, INVALID_HANDLE)),
        }
    }

    /// Hands the property interface back.
    pub fn release_property(&self, p: &N::Property) -> (r: Result<(), ZCanError>)
        ensures
            ok_or_status_error(r, NativeOp::ReleaseIProperty),
    {
        check_status(NativeOp::ReleaseIProperty, self.native.release_iproperty(p))
    }

    /// Reads a property by path, on a family that allows direct property access.
    pub fn get_value(&self, context: &ZChannelContext, path: &str) -> (r: Result<String, ZCanError>)
        ensures
            first_nul(path@) matches Some(i) ==> r is Err && r->Err_0 == ZCanError::CStringConvertFailed(i),
            first_nul(path@) is None && !context.device.dev_type.spec_get_value()
                ==> r is Err && r->Err_0 == ZCanError::MethodNotSupported,
            first_nul(path@) is None && context.device.dev_type.spec_get_value() && context.device.dev_hdl is None
                ==> r is Err && r->Err_0 == ZCanError::DeviceNotOpened,
            first_nul(path@) is None && context.device.dev_type.spec_get_value() && context.device.dev_hdl is Some
                && r is Err ==> r->Err_0 == ZCanError::MethodExecuteFailed(NativeOp::ZCAN_GetValue, INVALID_HANDLE),
    {
        check_c_str(path)?;
        if !context.device_type().get_value_support() {
            return Err(ZCanError::MethodNotSupported);
        }
        let dev_hdl = context.device_handler()?;
        match self.native.get_value(dev_hdl, path) {
            Some(v) => Ok(v),
            None => Err(ZCanError::MethodExecuteFailed(NativeOp::ZCAN_GetValue, INVALID_HANDLE)),
        }
    }

    /// Writes a property by path.
    pub fn set_value(&self, context: &ZChannelContext, path: &str, value: &str) -> (r: Result<(), ZCanError>)
        ensures
            first_nul(path@) matches Some(i) ==> r == Err::<(), ZCanError>(ZCanError::CStringConvertFailed(i)),
            first_nul(value@) matches Some(i) ==> (first_nul(path@) is None
                ==> r == Err::<(), ZCanError>(ZCanError::CStringConvertFailed(i))),
            first_nul(path@) is None && first_nul(value@) is None && context.device.dev_hdl is None
                ==> r == Err::<(), ZCanError>(ZCanError::DeviceNotOpened),
            first_nul(path@) is None && first_nul(value@) is None && context.device.dev_hdl is Some
                ==> ok_or_status_error(r, NativeOp::ZCAN_SetValue),
    {
        check_c_str(path)?;
        check_c_str(value)?;
        let dev_hdl = context.device_handler()?;
        check_status(NativeOp::ZCAN_SetValue, self.native.set_value(dev_hdl, path, value))
    }

    /// Writes a batch of (path, value) pairs through the property interface.
    /// Every pair is checked for NUL characters before any native call, and a
    /// pair that holds one fails the batch with `CStringConvertFailed`. Each
    /// pair is then written once, in order; a pair the native layer rejects
    /// does not stop the batch, and the positions of the rejected pairs are
    /// returned in ascending order (see `rejected_positions`).
    pub fn set_values(&self, context: &ZChannelContext, values: &Vec<(String, String)>) -> (r: Result<Vec<usize>, ZCanError>)
        ensures
            pairs_hold_nul(values@) ==> r is Err && r->Err_0 is CStringConvertFailed,
            !pairs_hold_nul(values@) && context.device.dev_hdl is None
                ==> r is Err && r->Err_0 == ZCanError::DeviceNotOpened,
            r matches Err(e) ==> {
                &&& (e is CStringConvertFailed <==> pairs_hold_nul(values@))
                &&& (e == ZCanError::DeviceNotOpened <==> !pairs_hold_nul(values@) && context.device.dev_hdl is None)
                &&& (e == ZCanError::DeviceNotOpened
                    || e is CStringConvertFailed
                    || e == ZCanError::MethodExecuteFailed(NativeOp::GetIProperty, INVALID_HANDLE)
                    || e == ZCanError::MethodNotSupported)
            },
            r matches Ok(rejected) ==> exists|codes: Seq<u32>| codes.len() == values.len()
                && lists_rejections(rejected@, codes),
    {
        check_pairs(values)?;
        let p = self.get_property(context)?;
        if !self.native.property_has_set(&p) {
            let _ = self.release_property(&p);
            return Err(ZCanError::MethodNotSupported);
        }
        let mut codes: Vec<u32> = Vec::new();
        let mut i: usize = 0;
        while i < values.len()
            invariant
                i <= values.len(),
                codes.len() == i,
            decreases values.len() - i,
        {
            codes.push(self.native.property_set_value(&p, values[i].0.as_str(), values[i].1.as_str()));
            i += 1;
        }
        let _ = self.release_property(&p);
        Ok(rejected_positions(&codes))
    }

    /// Reads a batch of channel properties through the property interface;
    /// the key `keys[i]` is read at `channel_path(context.channel, keys[i])`.
    /// Every key is checked for NUL characters before any native call.
    pub fn get_values(&self, context: &ZChannelContext, keys: &Vec<String>) -> (r: Result<Vec<String>, ZCanError>)
        ensures
            strs_hold_nul(keys@) ==> r is Err && r->Err_0 is CStringConvertFailed,
            !strs_hold_nul(keys@) && context.device.dev_hdl is None
                ==> r is Err && r->Err_0 == ZCanError::DeviceNotOpened,
            r matches Ok(v) ==> v.len() == keys.len(),
            r matches Err(e) ==> {
                &&& (e is CStringConvertFailed <==> strs_hold_nul(keys@))
                &&& (e == ZCanError::DeviceNotOpened <==> !strs_hold_nul(keys@) && context.device.dev_hdl is None)
                &&& (e == ZCanError::DeviceNotOpened
                    || e is CStringConvertFailed
                    || e == ZCanError::MethodExecuteFailed(NativeOp::GetIProperty, INVALID_HANDLE)
                    || e == ZCanError::MethodNotSupported
                    || e == ZCanError::MethodExecuteFailed(NativeOp::ZCAN_GetValue, INVALID_HANDLE))
            },
    {
        check_strs(keys)?;
        let p = self.get_property(context)?;
        if !self.native.property_has_get(&p) {
            let _ = self.release_property(&p);
            return Err(ZCanError::MethodNotSupported);
        }
        let mut result: Vec<String> = Vec::new();
        let mut i: usize = 0;
        while i < keys.len()
            invariant
                i <= keys.len(),
                result.len() == i,
                !strs_hold_nul(keys@),
                context.device.dev_hdl is Some,
            decreases keys.len() - i,
        {
            let path = channel_path(context.channel, keys[i].as_str());
            match self.native.property_get_value(&p, path.as_str()) {
                Some(v) => result.push(v),
                None => {
                    let _ = self.release_property(&p);
                    return Err(ZCanError::MethodExecuteFailed(NativeOp::ZCAN_GetValue, INVALID_HANDLE));
                },
            }
            i += 1;
        }
        let _ = self.release_property(&p);
        Ok(result)
    }

    /// Configures and starts a CAN channel: writes the channel's properties
    /// in order, initializes the channel and starts it. Only when the start
    /// succeeds does `context` get the channel handle.
    pub fn init_can_chl(&self, context: &mut ZChannelContext, cfg: &CanChlCfg) -> (r: Result<(), ZCanError>)
        ensures
            final(context).device == old(context).device,
            final(context).channel == old(context).channel,
            old(context).device.dev_hdl is None ==> r == Err::<(), ZCanError>(ZCanError::DeviceNotOpened)
                && *final(context) == *old(context),
            r is Ok ==> (final(context).chl_hdl matches Some(h) && h != INVALID_HANDLE),
            r is Err ==> *final(context) == *old(context),
            r matches Err(e) ==> (e == ZCanError::DeviceNotOpened <==> old(context).device.dev_hdl is None),
            r matches Err(e) ==> (e == ZCanError::DeviceNotOpened
                || e == ZCanError::MethodExecuteFailed(NativeOp::ZCAN_InitCAN, INVALID_HANDLE)
                || is_status_error(e, NativeOp::ZCAN_StartCAN)
                || exists|k: int, c: u32| 0 <= k < spec_can_chl_writes(old(context).device.dev_type, old(context).channel, *cfg).len()
                    && c != STATUS_OK
                    && e == ZCanError::PropertyWriteFailed(spec_can_chl_writes(old(context).device.dev_type, old(context).channel, *cfg)[k].key, c)),
    {
        let dev_hdl = context.device_handler()?;
        let channel = context.channel;
        let writes = can_chl_writes(context.device_type(), channel, cfg);
        let mut i: usize = 0;
        while i < writes.len()
            invariant
                i <= writes.len(),
                writes@ == spec_can_chl_writes(context.device.dev_type, channel, *cfg),
                *context == *old(context),
                context.device.dev_hdl is Some,
                channel == context.channel,
            decreases writes.len() - i,
        {
            let w = writes[i];
            let path = w.path();
            let value = w.value_text();
            let code = self.native.set_value(dev_hdl, path.as_str(), value.as_str());
            if code != STATUS_OK {
                assert(writes@[i as int].key == w.key);
                return Err(ZCanError::PropertyWriteFailed(w.key, code));
            }
            i += 1;
        }
        let handle = check_handle(NativeOp::ZCAN_InitCAN, self.native.init_can(dev_hdl, channel as u32, cfg))?;
        check_status(NativeOp::ZCAN_StartCAN, self.native.start_can(handle))?;
        context.chl_hdl = Some(handle);
        Ok(())
    }


    /// Resets a started CAN channel.
    pub fn reset_can_chl(&self, context: &ZChannelContext) -> (r: Result<(), ZCanError>)
        ensures
            context.chl_hdl is None ==> r == Err::<(), ZCanError>(ZCanError::ChannelNotOpened),
            context.chl_hdl is Some ==> ok_or_status_error(r, NativeOp::ZCAN_ResetCAN),
    {
        let chl_hdl = context.channel_handler()?;
        check_status(NativeOp::ZCAN_ResetCAN, self.native.reset_can(chl_hdl))
    }

    /// Reads the controller registers of a started CAN channel.
    pub fn read_can_chl_status(&self, context: &ZChannelContext) -> (r: Result<ZCanChlStatus, ZCanError>)
        ensures
            context.chl_hdl is None ==> r == Err::<ZCanChlStatus, ZCanError>(ZCanError::ChannelNotOpened),
            r matches Err(e) ==> (context.chl_hdl is Some ==> is_status_error(e, NativeOp::ZCAN_ReadChannelStatus)),
    {
        let chl_hdl = context.channel_handler()?;
        let (ret, status) = self.native.read_channel_status(chl_hdl);
        match check_status(NativeOp::ZCAN_ReadChannelStatus, ret) {
            Ok(()) => Ok(status),
            Err(e) => Err(e),
        }
    }

    /// Reads the last error of a started CAN channel.
    pub fn read_can_chl_error(&self, context: &ZChannelContext) -> (r: Result<ZCanChlError, ZCanError>)
        ensures
            context.chl_hdl is None ==> r is Err && r->Err_0 == ZCanError::ChannelNotOpened,
            r matches Err(e) ==> (context.chl_hdl is Some ==> is_status_error(e, NativeOp::ZCAN_ReadChannelErrInfo)),
    {
        let chl_hdl = context.channel_handler()?;
        let (ret, info) = self.native.read_channel_err_info(chl_hdl);
        match check_status(NativeOp::ZCAN_ReadChannelErrInfo, ret) {
            Ok(()) => Ok(info),
            Err(e) => Err(e),
        }
    }

    /// Drops the frames a started CAN channel holds.
    pub fn clear_can_buffer(&self, context: &ZChannelContext) -> (r: Result<(), ZCanError>)
        ensures
            context.chl_hdl is None ==> r == Err::<(), ZCanError>(ZCanError::ChannelNotOpened),
            context.chl_hdl is Some ==> ok_or_status_error(r, NativeOp::ZCAN_ClearBuffer),
    {
        let chl_hdl = context.channel_handler()?;
        check_status(NativeOp::ZCAN_ClearBuffer, self.native.clear_buffer(chl_hdl))
    }

    /// The number of frames of the given kind waiting on a started channel.
    pub fn get_can_num(&self, context: &ZChannelContext, can_type: ZCanFrameType) -> (r: Result<u32, ZCanError>)
        ensures
            context.chl_hdl is None ==> r == Err::<u32, ZCanError>(ZCanError::ChannelNotOpened),
            context.chl_hdl is Some ==> r is Ok,
    {
        let chl_hdl = context.channel_handler()?;
        Ok(self.native.get_receive_num(chl_hdl, can_type.code()))
    }

    /// Receives up to `size` classic CAN frames, one native call per frame,
    /// each waiting at most `timeout`. The frames of the calls that delivered
    /// one are returned in order, marked with the channel; fewer than `size`
    /// is no error.
    pub fn receive_can(&self, context: &ZChannelContext, size: u32, timeout: u32) -> (r: Result<Vec<CanMessage>, ZCanError>)
        ensures
            context.chl_hdl is None ==> r is Err && r->Err_0 == ZCanError::ChannelNotOpened,
            context.chl_hdl is Some ==> (r matches Ok(v) && v.len() <= size),
            r matches Ok(v) ==> forall|i: int| 0 <= i < v.len() ==> (#[trigger] v@[i]).channel == context.channel,
    {
        let chl_hdl = context.channel_handler()?;
        let mut results: Vec<(u32, CanMessage)> = Vec::new();
        let mut i: u32 = 0;
        while i < size
            invariant
                i <= size,
                results.len() == i,
            decreases size - i,
        {
            results.push(self.native.receive(chl_hdl, timeout));
            i += 1;
        }
        proof {
            lemma_delivered_len(results@);
        }
        Ok(keep_delivered_on(results, context.channel))
    }

    /// Transmits classic CAN frames, one native call per frame, and returns
    /// the counts the calls reported, added up (see `count_accepted`); fewer
    /// than given is no error.
    pub fn transmit_can(&self, context: &ZChannelContext, frames: &Vec<CanMessage>) -> (r: Result<u32, ZCanError>)
        ensures
            context.chl_hdl is None ==> r == Err::<u32, ZCanError>(ZCanError::ChannelNotOpened),
            context.chl_hdl is Some ==> r is Ok,
            r matches Ok(n) ==> exists|rets: Seq<u32>| rets.len() == frames.len() && n == transmit_count(rets),
    {
        let chl_hdl = context.channel_handler()?;
        let mut rets: Vec<u32> = Vec::new();
        let mut i: usize = 0;
        while i < frames.len()
            invariant
                i <= frames.len(),
                rets.len() == i,
            decreases frames.len() - i,
        {
            rets.push(self.native.transmit(chl_hdl, &frames[i]));
            i += 1;
        }
        Ok(count_accepted(&rets))
    }

    /// Receives up to `size` CAN-FD frames, as `receive_can` does.
    pub fn receive_canfd(&self, context: &ZChannelContext, size: u32, timeout: u32) -> (r: Result<Vec<CanMessage>, ZCanError>)
        ensures
            context.chl_hdl is None ==> r is Err && r->Err_0 == ZCanError::ChannelNotOpened,
            context.chl_hdl is Some ==> (r matches Ok(v) && v.len() <= size),
            r matches Ok(v) ==> forall|i: int| 0 <= i < v.len() ==> (#[trigger] v@[i]).channel == context.channel,
    {
        let chl_hdl = context.channel_handler()?;
        let mut results: Vec<(u32, CanMessage)> = Vec::new();
        let mut i: u32 = 0;
        while i < size
            invariant
                i <= size,
                results.len() == i,
            decreases size - i,
        {
            results.push(self.native.receive_fd(chl_hdl, timeout));
            i += 1;
        }
        proof {
            lemma_delivered_len(results@);
        }
        Ok(keep_delivered_on(results, context.channel))
    }

    /// Transmits CAN-FD frames, as `transmit_can` does.
    pub fn transmit_canfd(&self, context: &ZChannelContext, frames: &Vec<CanMessage>) -> (r: Result<u32, ZCanError>)
        ensures
            context.chl_hdl is None ==> r == Err::<u32, ZCanError>(ZCanError::ChannelNotOpened),
            context.chl_hdl is Some ==> r is Ok,
            r matches Ok(n) ==> exists|rets: Seq<u32>| rets.len() == frames.len() && n == transmit_count(rets),
    {
        let chl_hdl = context.channel_handler()?;
        let mut rets: Vec<u32> = Vec::new();
        let mut i: usize = 0;
        while i < frames.len()
            invariant
                i <= frames.len(),
                rets.len() == i,
            decreases frames.len() - i,
        {
            rets.push(self.native.transmit_fd(chl_hdl, &frames[i]));
            i += 1;
        }
        Ok(count_accepted(&rets))
    }


    /// Configures and starts a LIN channel; only when the start succeeds does
    /// `context` get the channel handle.
    pub fn init_lin_chl(&self, context: &mut ZChannelContext, cfg: &ZLinChlCfg) -> (r: Result<(), ZCanError>)
        ensures
            final(context).device == old(context).device,
            final(context).channel == old(context).channel,
            old(context).device.dev_hdl is None ==> r == Err::<(), ZCanError>(ZCanError::DeviceNotOpened),
            r is Ok ==> (final(context).chl_hdl matches Some(h) && h != INVALID_HANDLE),
            r is Err ==> *final(context) == *old(context),
            r matches Err(e) ==> (e == ZCanError::DeviceNotOpened <==> old(context).device.dev_hdl is None),
            r matches Err(e) ==> (e == ZCanError::DeviceNotOpened
                || e == ZCanError::MethodExecuteFailed(NativeOp::ZCAN_InitLIN, INVALID_HANDLE)
                || is_status_error(e, NativeOp::ZCAN_StartLIN)),
    {
        let dev_hdl = context.device_handler()?;
        let handle = check_handle(NativeOp::ZCAN_InitLIN, self.native.init_lin(dev_hdl, context.channel as u32, cfg))?;
        check_status(NativeOp::ZCAN_StartLIN, self.native.start_lin(handle))?;
        context.chl_hdl = Some(handle);
        Ok(())
    }

    /// Resets a started LIN channel.
    pub fn reset_lin_chl(&self, context: &ZChannelContext) -> (r: Result<(), ZCanError>)
        ensures
            context.chl_hdl is None ==> r == Err::<(), ZCanError>(ZCanError::ChannelNotOpened),
            context.chl_hdl is Some ==> ok_or_status_error(r, NativeOp::ZCAN_ResetLIN),
    {
        let chl_hdl = context.channel_handler()?;
        check_status(NativeOp::ZCAN_ResetLIN, self.native.reset_lin(chl_hdl))
    }

    /// The number of LIN frames waiting on a started channel.
    pub fn get_lin_num(&self, context: &ZChannelContext) -> (r: Result<u32, ZCanError>)
        ensures
            context.chl_hdl is None ==> r == Err::<u32, ZCanError>(ZCanError::ChannelNotOpened),
            context.chl_hdl is Some ==> r is Ok,
    {
        let chl_hdl = context.channel_handler()?;
        Ok(self.native.get_lin_receive_num(chl_hdl))
    }

    /// Receives up to `size` LIN frames in one native call: the frames the
    /// call reports as filled, never more than it was asked for.
    pub fn receive_lin(&self, context: &ZChannelContext, size: u32, timeout: u32) -> (r: Result<Vec<ZLinFrame>, ZCanError>)
        ensures
            context.chl_hdl is None ==> r is Err && r->Err_0 == ZCanError::ChannelNotOpened,
            context.chl_hdl is Some ==> (r matches Ok(v) && v.len() <= size),
    {
        let chl_hdl = context.channel_handler()?;
        let (count, frames) = self.native.receive_lin(chl_hdl, size, timeout);
        let count = if count <= size { count } else { size };
        Ok(take_received(count, frames))
    }

    /// Transmits LIN frames in one native call and returns the count it
    /// reports, as it reports it.
    pub fn transmit_lin(&self, context: &ZChannelContext, frames: &Vec<ZLinFrame>) -> (r: Result<u32, ZCanError>)
        ensures
            context.chl_hdl is None ==> r == Err::<u32, ZCanError>(ZCanError::ChannelNotOpened),
            context.chl_hdl is Some ==> r is Ok,
    {
        let chl_hdl = context.channel_handler()?;
        Ok(self.native.transmit_lin(chl_hdl, frames))
    }

    /// Sets the responses a LIN slave channel listens for.
    pub fn set_lin_subscribe(&self, context: &ZChannelContext, cfg: &Vec<ZLinSubscribe>) -> (r: Result<(), ZCanError>)
        ensures
            context.chl_hdl is None ==> r == Err::<(), ZCanError>(ZCanError::ChannelNotOpened),
            context.chl_hdl is Some ==> ok_or_status_error(r, NativeOp::ZCAN_SetLINSubscribe),
    {
        let chl_hdl = context.channel_handler()?;
        check_status(NativeOp::ZCAN_SetLINSubscribe, self.native.set_lin_subscribe(chl_hdl, cfg))
    }

    /// Sets the responses a LIN slave channel publishes.
    pub fn set_lin_publish(&self, context: &ZChannelContext, cfg: &Vec<ZLinPublish>) -> (r: Result<(), ZCanError>)
        ensures
            context.chl_hdl is None ==> r == Err::<(), ZCanError>(ZCanError::ChannelNotOpened),
            context.chl_hdl is Some ==> ok_or_status_error(r, NativeOp::ZCAN_SetLINPublish),
    {
        let chl_hdl = context.channel_handler()?;
        check_status(NativeOp::ZCAN_SetLINPublish, self.native.set_lin_publish(chl_hdl, cfg))
    }

    /// Sets published responses with explicit lengths.
    pub fn set_lin_publish_ex(&self, context: &ZChannelContext, cfg: &Vec<ZLinPublishEx>) -> (r: Result<(), ZCanError>)
        ensures
            context.chl_hdl is None ==> r == Err::<(), ZCanError>(ZCanError::ChannelNotOpened),
            context.chl_hdl is Some ==> ok_or_status_error(r, NativeOp::ZCAN_SetLINPublishEx),
    {
        let chl_hdl = context.channel_handler()?;
        check_status(NativeOp::ZCAN_SetLINPublishEx, self.native.set_lin_publish_ex(chl_hdl, cfg))
    }

    /// Sends a wake-up on a LIN bus.
    pub fn wakeup_lin(&self, context: &ZChannelContext) -> (r: Result<(), ZCanError>)
        ensures
            context.chl_hdl is None ==> r == Err::<(), ZCanError>(ZCanError::ChannelNotOpened),
            context.chl_hdl is Some ==> ok_or_status_error(r, NativeOp::ZCAN_WakeUpLIN),
    {
        let chl_hdl = context.channel_handler()?;
        check_status(NativeOp::ZCAN_WakeUpLIN, self.native.wakeup_lin(chl_hdl))
    }

    /// Sets slave responses (the older form of publishing).
    pub fn set_lin_slave_msg(&self, context: &ZChannelContext, msg: &Vec<ZLinFrame>) -> (r: Result<(), ZCanError>)
        ensures
            context.chl_hdl is None ==> r == Err::<(), ZCanError>(ZCanError::ChannelNotOpened),
            context.chl_hdl is Some ==> ok_or_status_error(r, NativeOp::ZCAN_SetLINSlaveMsg),
    {
        let chl_hdl = context.channel_handler()?;
        check_status(NativeOp::ZCAN_SetLINSlaveMsg, self.native.set_lin_slave_msg(chl_hdl, msg))
    }

    /// Clears slave responses by PID.
    pub fn clear_lin_slave_msg(&self, context: &ZChannelContext, pids: &Vec<u8>) -> (r: Result<(), ZCanError>)
        ensures
            context.chl_hdl is None ==> r == Err::<(), ZCanError>(ZCanError::ChannelNotOpened),
            context.chl_hdl is Some ==> ok_or_status_error(r, NativeOp::ZCAN_ClearLINSlaveMsg),
    {
        let chl_hdl = context.channel_handler()?;
        check_status(NativeOp::ZCAN_ClearLINSlaveMsg, self.native.clear_lin_slave_msg(chl_hdl, pids))
    }

    /// Sets where the cloud service is reached; both addresses must be free of
    /// NUL characters.
    pub fn set_server(&self, server: &ZCloudServerInfo) -> (r: Result<(), ZCanError>)
        ensures
            first_nul(server.http_url@) matches Some(i) ==> r == Err::<(), ZCanError>(ZCanError::CStringConvertFailed(i)),
            first_nul(server.mqtt_url@) matches Some(i) ==> (first_nul(server.http_url@) is None
                ==> r == Err::<(), ZCanError>(ZCanError::CStringConvertFailed(i))),
            first_nul(server.http_url@) is None && first_nul(server.mqtt_url@) is None ==> r is Ok,
    {
        check_c_str(server.http_url.as_str())?;
        check_c_str(server.mqtt_url.as_str())?;
        self.native.set_server_info(server);
        Ok(())
    }

    /// Logs in to the cloud service.
    pub fn connect_server(&self, username: &str, password: &str) -> (r: Result<(), ZCanError>)
        ensures
            first_nul(username@) matches Some(i) ==> r == Err::<(), ZCanError>(ZCanError::CStringConvertFailed(i)),
            first_nul(password@) matches Some(i) ==> (first_nul(username@) is None
                ==> r == Err::<(), ZCanError>(ZCanError::CStringConvertFailed(i))),
            first_nul(username@) is None && first_nul(password@) is None
                ==> ok_or_status_error(r, NativeOp::ZCLOUD_ConnectServer),
    {
        check_c_str(username)?;
        check_c_str(password)?;
        check_status(NativeOp::ZCLOUD_ConnectServer, self.native.connect_server(username, password))
    }

    /// Whether a cloud session is up.
    pub fn is_connected_server(&self) -> (r: Result<bool, ZCanError>)
        ensures
            r is Ok,
    {
        Ok(self.native.is_connected_server())
    }

    /// Ends the cloud session; the native call reports success with 0.
    pub fn disconnect_server(&self) -> (r: Result<(), ZCanError>)
        ensures
            r is Ok || exists|c: u32| c != 0
                && r == Err::<(), ZCanError>(ZCanError::MethodExecuteFailed(NativeOp::ZCLOUD_DisconnectServer, c)),
    {
        let code = self.native.disconnect_server();
        if code == 0 {
            Ok(())
        } else {
            Err(ZCanError::MethodExecuteFailed(NativeOp::ZCLOUD_DisconnectServer, code))
        }
    }

    /// The cloud account data, refreshed first when `update` asks for it.
    pub fn get_userdata(&self, update: i32) -> (r: Result<ZCloudUserData, ZCanError>)
        ensures
            r is Err ==> r->Err_0 == ZCanError::MethodExecuteFailed(NativeOp::ZCLOUD_GetUserData, INVALID_HANDLE),
    {
        match self.native.get_user_data(update) {
            Some(data) => Ok(data),
            None => Err(ZCanError::MethodExecuteFailed(NativeOp::ZCLOUD_GetUserData, INVALID_HANDLE)),
        }
    }

    /// Receives up to `size` GPS fixes in one native call: those the call
    /// reports as filled, never more than it was asked for.
    pub fn receive_gps(&self, context: &ZDeviceContext, size: u32, timeout: u32) -> (r: Result<Vec<ZCloudGpsFrame>, ZCanError>)
        ensures
            context.dev_hdl is None ==> r is Err && r->Err_0 == ZCanError::DeviceNotOpened,
            context.dev_hdl is Some ==> (r matches Ok(v) && v.len() <= size),
    {
        let dev_hdl = context.device_handler()?;
        let (count, frames) = self.native.receive_gps(dev_hdl, size, timeout);
        let count = if count <= size { count } else { size };
        Ok(take_received(count, frames))
    }

}

} // verus!
