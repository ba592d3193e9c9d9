use vstd::prelude::*;
use crate::device::{ZChannelContext, ZDeviceContext, ZDeviceInfo};
use crate::error::INVALID_HANDLE;

verus! {

/// The number of channel numbers a device can address.
pub const CHANNEL_SLOTS: usize = 256;

/// The live state of an open device: its context, what it reported about
/// itself, and one slot per channel number for CAN and for LIN. A slot holds
/// a channel handle only between a successful init and start and the next
/// reset or close.
pub struct Handler {
    device: ZDeviceContext,
    info: ZDeviceInfo,
    can_channels: Vec<ZChannelContext>,
    lin_channels: Vec<ZChannelContext>,
}

pub open spec fn slots_wf(slots: Seq<ZChannelContext>, device: ZDeviceContext) -> bool {
    &&& slots.len() == CHANNEL_SLOTS
    &&& forall|i: int| 0 <= i < CHANNEL_SLOTS ==> {
        &&& (#[trigger] slots[i]).channel == i as u8
        &&& slots[i].device == device
        &&& (slots[i].chl_hdl matches Some(h) ==> h != INVALID_HANDLE)
    }
}

fn empty_slots(device: ZDeviceContext) -> (r: Vec<ZChannelContext>)
    ensures
        slots_wf(r@, device),
        forall|i: int| 0 <= i < CHANNEL_SLOTS ==> (#[trigger] r@[i]).chl_hdl is None,
{
    let mut slots: Vec<ZChannelContext> = Vec::new();
    let mut i: usize = 0;
    while i < CHANNEL_SLOTS
        invariant
            i <= CHANNEL_SLOTS,
            slots.len() == i,
            forall|j: int| 0 <= j < i ==> (#[trigger] slots@[j]).channel == j as u8 && slots@[j].device == device
                && slots@[j].chl_hdl is None,
        decreases CHANNEL_SLOTS - i,
    {
        slots.push(ZChannelContext::new(device, i as u8));
        i += 1;
    }
    slots
}

impl Handler {
    pub closed spec fn wf(&self) -> bool {
        &&& self.device.dev_hdl is Some
        &&& slots_wf(self.can_channels@, self.device)
        &&& slots_wf(self.lin_channels@, self.device)
    }

    pub closed spec fn spec_device(&self) -> ZDeviceContext {
        self.device
    }

    pub closed spec fn spec_info(&self) -> ZDeviceInfo {
        self.info
    }

    /// The handle of CAN channel `channel`, if it is started.
    pub closed spec fn can_chl(&self, channel: u8) -> Option<u32> {
        self.can_channels@[channel as int].chl_hdl
    }

    /// The handle of LIN channel `channel`, if it is started.
    pub closed spec fn lin_chl(&self, channel: u8) -> Option<u32> {
        self.lin_channels@[channel as int].chl_hdl
    }

    /// The state of a freshly opened device: no channel started.
    pub fn new(device: ZDeviceContext, info: ZDeviceInfo) -> (r: Handler)
        requires
            device.dev_hdl is Some,
        ensures
            r.wf(),
            r.spec_device() == device,
            r.spec_info() == info,
            forall|c: u8| r.can_chl(c) is None && r.lin_chl(c) is None,
    {
        let r = Handler { device, info, can_channels: empty_slots(device), lin_channels: empty_slots(device) };
        assert forall|c: u8| r.can_chl(c) is None && r.lin_chl(c) is None by {
            assert(0 <= c as int && (c as int) < CHANNEL_SLOTS);
        }
        r
    }

    pub fn device_context(&self) -> (r: &ZDeviceContext)
        ensures
            *r == self.spec_device(),
    {
        &self.device
    }

    pub fn device_info(&self) -> (r: &ZDeviceInfo)
        ensures
            *r == self.spec_info(),
    {
        &self.info
    }

    /// The context of CAN channel `channel`, whether or not it is started.
    pub fn can_slot(&self, channel: u8) -> (r: ZChannelContext)
        requires
            self.wf(),
        ensures
            r.device == self.spec_device(),
            r.channel == channel,
            r.chl_hdl == self.can_chl(channel),
            r.device.dev_hdl is Some,
    {
        self.can_channels[channel as usize]
    }

    /// The context of LIN channel `channel`, whether or not it is started.
    pub fn lin_slot(&self, channel: u8) -> (r: ZChannelContext)
        requires
            self.wf(),
        ensures
            r.device == self.spec_device(),
            r.channel == channel,
            r.chl_hdl == self.lin_chl(channel),
            r.device.dev_hdl is Some,
    {
        self.lin_channels[channel as usize]
    }

    /// The context of CAN channel `channel` if it is started.
    pub fn find_can(&self, channel: u8) -> (r: Option<ZChannelContext>)
        requires
            self.wf(),
        ensures
            r is None <==> self.can_chl(channel) is None,
            r matches Some(c) ==> c.device == self.spec_device() && c.channel == channel
                && c.chl_hdl == self.can_chl(channel),
    {
        let c = self.can_slot(channel);
        if c.chl_hdl.is_some() { Some(c) } else { None }
    }

    /// The context of LIN channel `channel` if it is started.
    pub fn find_lin(&self, channel: u8) -> (r: Option<ZChannelContext>)
        requires
            self.wf(),
        ensures
            r is None <==> self.lin_chl(channel) is None,
            r matches Some(c) ==> c.device == self.spec_device() && c.channel == channel
                && c.chl_hdl == self.lin_chl(channel),
    {
        let c = self.lin_slot(channel);
        if c.chl_hdl.is_some() { Some(c) } else { None }
    }

    /// Stores the context of a CAN channel in its slot.
    pub fn set_can(&mut self, context: ZChannelContext)
        requires
            old(self).wf(),
            context.device == old(self).spec_device(),
            context.chl_hdl matches Some(h) ==> h != INVALID_HANDLE,
        ensures
            final(self).wf(),
            final(self).spec_device() == old(self).spec_device(),
            final(self).spec_info() == old(self).spec_info(),
            final(self).can_chl(context.channel) == context.chl_hdl,
            forall|c: u8| c != context.channel ==> final(self).can_chl(c) == old(self).can_chl(c),
            forall|c: u8| final(self).lin_chl(c) == old(self).lin_chl(c),
    {
        self.can_channels.set(context.channel as usize, context);
    }

    /// Stores the context of a LIN channel in its slot.
    pub fn set_lin(&mut self, context: ZChannelContext)
        requires
            old(self).wf(),
            context.device == old(self).spec_device(),
            context.chl_hdl matches Some(h) ==> h != INVALID_HANDLE,
        ensures
            final(self).wf(),
            final(self).spec_device() == old(self).spec_device(),
            final(self).spec_info() == old(self).spec_info(),
            final(self).lin_chl(context.channel) == context.chl_hdl,
            forall|c: u8| c != context.channel ==> final(self).lin_chl(c) == old(self).lin_chl(c),
            forall|c: u8| final(self).can_chl(c) == old(self).can_chl(c),
    {
        self.lin_channels.set(context.channel as usize, context);
    }

    /// The CAN channels that are started, in ascending order.
    pub fn can_channels(&self) -> (r: Vec<u8>)
        requires
            self.wf(),
        ensures
            forall|k: int| 0 <= k < r.len() ==> self.can_chl(#[trigger] r@[k]) is Some,
            forall|c: u8| self.can_chl(c) is Some ==> r@.contains(c),
            forall|k: int, l: int| 0 <= k < l < r.len() ==> r@[k] < r@[l],
    {
        let mut r: Vec<u8> = Vec::new();
        let mut i: usize = 0;
        while i < CHANNEL_SLOTS
            invariant
                i <= CHANNEL_SLOTS,
                self.wf(),
                forall|k: int| 0 <= k < r.len() ==> self.can_chl(#[trigger] r@[k]) is Some && (r@[k] as int) < i,
                forall|c: u8| (c as int) < i && self.can_chl(c) is Some ==> r@.contains(c),
                forall|k: int, l: int| 0 <= k < l < r.len() ==> r@[k] < r@[l],
            decreases CHANNEL_SLOTS - i,
        {
            let c = i as u8;
            let ghost before = r@;
            if self.can_channels[i].chl_hdl.is_some() {
                r.push(c);
                assert(r@[r.len() - 1] == c);
            }
            proof {
                assert forall|d: u8| (d as int) < i + 1 && self.can_chl(d) is Some implies r@.contains(d) by {
                    if (d as int) < i {
                        assert(before.contains(d));
                        let k = choose|k: int| 0 <= k < before.len() && before[k] == d;
                        assert(r@[k] == d);
                    } else {
                        assert(d == c);
                        assert(self.can_channels@[i as int].chl_hdl == self.can_chl(d));
                        assert(r@[r.len() - 1] == d);
                    }
                }
            }
            i += 1;
        }
        r
    }
}

} // verus!
