use vstd::prelude::*;
use crate::error::ZCanError;

verus! {

/// The adapter families, each with a fixed native type code and a fixed set
/// of capabilities.
#[allow(non_camel_case_types)]
#[derive(Clone, Copy, Debug, PartialEq, Eq, Structural)]
pub enum ZCanDeviceType {
    ZCAN_PCI9810,
    ZCAN_USBCAN1,
    ZCAN_USBCAN2,
    ZCAN_PCI9820,
    ZCAN_CANETUDP,
    ZCAN_PCI9840,
    ZCAN_PCI9820I,
    ZCAN_CANETTCP,
    ZCAN_USBCAN_E_U,
    ZCAN_USBCAN_2E_U,
    ZCAN_WIFICAN_TCP,
    ZCAN_WIFICAN_UDP,
    ZCAN_USBCAN_4E_U,
    ZCAN_USBCAN_8E_U,
    ZCAN_PCIE_CANFD_100U,
    ZCAN_PCIE_CANFD_200U,
    ZCAN_PCIE_CANFD_400U,
    ZCAN_USBCANFD_200U,
    ZCAN_USBCANFD_100U,
    ZCAN_USBCANFD_MINI,
    ZCAN_CLOUD,
    ZCAN_CANFDNET_TCP,
    ZCAN_CANFDNET_UDP,
    ZCAN_USBCANFD_800U,
    ZCAN_VIRTUAL_DEVICE,
}

/// The static facts of one device family.
#[derive(Clone, Copy, Debug, PartialEq, Eq, Structural)]
pub struct Capabilities {
    /// Channels can run CAN-FD.
    pub canfd: bool,
    /// The device has LIN channels.
    pub lin: bool,
    /// The bus termination resistance can be switched.
    pub resistance: bool,
    /// The device reaches the cloud telemetry service.
    pub cloud: bool,
    /// Properties can be read and written directly by path.
    pub get_value: bool,
    /// Channel settings are written as properties before initialization;
    /// otherwise they travel in the initialization record alone.
    pub property_config: bool,
    /// The number of LIN channels.
    pub lin_channels: u8,
}

impl ZCanDeviceType {
    pub open spec fn spec_code(self) -> u32 {
        match self {
            ZCanDeviceType::ZCAN_PCI9810 => 2,
            ZCanDeviceType::ZCAN_USBCAN1 => 3,
            ZCanDeviceType::ZCAN_USBCAN2 => 4,
            ZCanDeviceType::ZCAN_PCI9820 => 5,
            ZCanDeviceType::ZCAN_CANETUDP => 12,
            ZCanDeviceType::ZCAN_PCI9840 => 14,
            ZCanDeviceType::ZCAN_PCI9820I => 16,
            ZCanDeviceType::ZCAN_CANETTCP => 17,
            ZCanDeviceType::ZCAN_USBCAN_E_U => 20,
            ZCanDeviceType::ZCAN_USBCAN_2E_U => 21,
            ZCanDeviceType::ZCAN_WIFICAN_TCP => 25,
            ZCanDeviceType::ZCAN_WIFICAN_UDP => 26,
            ZCanDeviceType::ZCAN_USBCAN_4E_U => 31,
            ZCanDeviceType::ZCAN_USBCAN_8E_U => 34,
            ZCanDeviceType::ZCAN_PCIE_CANFD_100U => 38,
            ZCanDeviceType::ZCAN_PCIE_CANFD_200U => 39,
            ZCanDeviceType::ZCAN_PCIE_CANFD_400U => 40,
            ZCanDeviceType::ZCAN_USBCANFD_200U => 41,
            ZCanDeviceType::ZCAN_USBCANFD_100U => 42,
            ZCanDeviceType::ZCAN_USBCANFD_MINI => 43,
            ZCanDeviceType::ZCAN_CLOUD => 46,
            ZCanDeviceType::ZCAN_CANFDNET_TCP => 48,
            ZCanDeviceType::ZCAN_CANFDNET_UDP => 49,
            ZCanDeviceType::ZCAN_USBCANFD_800U => 59,
            ZCanDeviceType::ZCAN_VIRTUAL_DEVICE => 99,
        }
    }

    /// The native type code of the family.
    pub fn code(&self) -> (r: u32)
        ensures
            r == self.spec_code(),
    {
        match self {
            ZCanDeviceType::ZCAN_PCI9810 => 2,
            ZCanDeviceType::ZCAN_USBCAN1 => 3,
            ZCanDeviceType::ZCAN_USBCAN2 => 4,
            ZCanDeviceType::ZCAN_PCI9820 => 5,
            ZCanDeviceType::ZCAN_CANETUDP => 12,
            ZCanDeviceType::ZCAN_PCI9840 => 14,
            ZCanDeviceType::ZCAN_PCI9820I => 16,
            ZCanDeviceType::ZCAN_CANETTCP => 17,
            ZCanDeviceType::ZCAN_USBCAN_E_U => 20,
            ZCanDeviceType::ZCAN_USBCAN_2E_U => 21,
            ZCanDeviceType::ZCAN_WIFICAN_TCP => 25,
            ZCanDeviceType::ZCAN_WIFICAN_UDP => 26,
            ZCanDeviceType::ZCAN_USBCAN_4E_U => 31,
            ZCanDeviceType::ZCAN_USBCAN_8E_U => 34,
            ZCanDeviceType::ZCAN_PCIE_CANFD_100U => 38,
            ZCanDeviceType::ZCAN_PCIE_CANFD_200U => 39,
            ZCanDeviceType::ZCAN_PCIE_CANFD_400U => 40,
            ZCanDeviceType::ZCAN_USBCANFD_200U => 41,
            ZCanDeviceType::ZCAN_USBCANFD_100U => 42,
            ZCanDeviceType::ZCAN_USBCANFD_MINI => 43,
            ZCanDeviceType::ZCAN_CLOUD => 46,
            ZCanDeviceType::ZCAN_CANFDNET_TCP => 48,
            ZCanDeviceType::ZCAN_CANFDNET_UDP => 49,
            ZCanDeviceType::ZCAN_USBCANFD_800U => 59,
            ZCanDeviceType::ZCAN_VIRTUAL_DEVICE => 99,
        }
    }

    /// The family with the given native type code, if there is one.
    pub fn from_code(code: u32) -> (r: Option<ZCanDeviceType>)
        ensures
            r matches Some(t) ==> t.spec_code() == code,
            r is None ==> forall|t: ZCanDeviceType| t.spec_code() != code,
    {
        match code {
            2 => Some(ZCanDeviceType::ZCAN_PCI9810),
            3 => Some(ZCanDeviceType::ZCAN_USBCAN1),
            4 => Some(ZCanDeviceType::ZCAN_USBCAN2),
            5 => Some(ZCanDeviceType::ZCAN_PCI9820),
            12 => Some(ZCanDeviceType::ZCAN_CANETUDP),
            14 => Some(ZCanDeviceType::ZCAN_PCI9840),
            16 => Some(ZCanDeviceType::ZCAN_PCI9820I),
            17 => Some(ZCanDeviceType::ZCAN_CANETTCP),
            20 => Some(ZCanDeviceType::ZCAN_USBCAN_E_U),
            21 => Some(ZCanDeviceType::ZCAN_USBCAN_2E_U),
            25 => Some(ZCanDeviceType::ZCAN_WIFICAN_TCP),
            26 => Some(ZCanDeviceType::ZCAN_WIFICAN_UDP),
            31 => Some(ZCanDeviceType::ZCAN_USBCAN_4E_U),
            34 => Some(ZCanDeviceType::ZCAN_USBCAN_8E_U),
            38 => Some(ZCanDeviceType::ZCAN_PCIE_CANFD_100U),
            39 => Some(ZCanDeviceType::ZCAN_PCIE_CANFD_200U),
            40 => Some(ZCanDeviceType::ZCAN_PCIE_CANFD_400U),
            41 => Some(ZCanDeviceType::ZCAN_USBCANFD_200U),
            42 => Some(ZCanDeviceType::ZCAN_USBCANFD_100U),
            43 => Some(ZCanDeviceType::ZCAN_USBCANFD_MINI),
            46 => Some(ZCanDeviceType::ZCAN_CLOUD),
            48 => Some(ZCanDeviceType::ZCAN_CANFDNET_TCP),
            49 => Some(ZCanDeviceType::ZCAN_CANFDNET_UDP),
            59 => Some(ZCanDeviceType::ZCAN_USBCANFD_800U),
            99 => Some(ZCanDeviceType::ZCAN_VIRTUAL_DEVICE),
            _ => None,
        }
    }

    pub open spec fn spec_canfd(self) -> bool {
        matches!(self,
            ZCanDeviceType::ZCAN_PCIE_CANFD_100U | ZCanDeviceType::ZCAN_PCIE_CANFD_200U
            | ZCanDeviceType::ZCAN_PCIE_CANFD_400U | ZCanDeviceType::ZCAN_USBCANFD_200U
            | ZCanDeviceType::ZCAN_USBCANFD_100U | ZCanDeviceType::ZCAN_USBCANFD_MINI
            | ZCanDeviceType::ZCAN_CANFDNET_TCP | ZCanDeviceType::ZCAN_CANFDNET_UDP
            | ZCanDeviceType::ZCAN_USBCANFD_800U)
    }

    pub open spec fn spec_lin(self) -> bool {
        matches!(self, ZCanDeviceType::ZCAN_USBCANFD_200U | ZCanDeviceType::ZCAN_USBCANFD_800U)
    }

    pub open spec fn spec_resistance(self) -> bool {
        matches!(self,
            ZCanDeviceType::ZCAN_USBCAN_E_U | ZCanDeviceType::ZCAN_USBCAN_2E_U
            | ZCanDeviceType::ZCAN_USBCAN_4E_U | ZCanDeviceType::ZCAN_USBCAN_8E_U
            | ZCanDeviceType::ZCAN_PCIE_CANFD_100U | ZCanDeviceType::ZCAN_PCIE_CANFD_200U
            | ZCanDeviceType::ZCAN_PCIE_CANFD_400U | ZCanDeviceType::ZCAN_USBCANFD_200U
            | ZCanDeviceType::ZCAN_USBCANFD_100U | ZCanDeviceType::ZCAN_USBCANFD_MINI
            | ZCanDeviceType::ZCAN_USBCANFD_800U)
    }

    pub open spec fn spec_cloud(self) -> bool {
        matches!(self, ZCanDeviceType::ZCAN_CLOUD)
    }

    pub open spec fn spec_get_value(self) -> bool {
        self.spec_canfd() || self.spec_cloud()
    }

    pub open spec fn spec_property_config(self) -> bool {
        !matches!(self, ZCanDeviceType::ZCAN_USBCAN1 | ZCanDeviceType::ZCAN_USBCAN2)
    }

    pub open spec fn spec_lin_channels(self) -> u8 {
        if self.spec_lin() { 2 } else { 0 }
    }

    /// The capability table, one row per family.
    pub open spec fn spec_capabilities(self) -> Capabilities {
        Capabilities {
            canfd: self.spec_canfd(),
            lin: self.spec_lin(),
            resistance: self.spec_resistance(),
            cloud: self.spec_cloud(),
            get_value: self.spec_get_value(),
            property_config: self.spec_property_config(),
            lin_channels: self.spec_lin_channels(),
        }
    }

    pub fn canfd_support(&self) -> (r: bool)
        ensures
            r == self.spec_canfd(),
    {
        matches!(self,
            ZCanDeviceType::ZCAN_PCIE_CANFD_100U | ZCanDeviceType::ZCAN_PCIE_CANFD_200U
            | ZCanDeviceType::ZCAN_PCIE_CANFD_400U | ZCanDeviceType::ZCAN_USBCANFD_200U
            | ZCanDeviceType::ZCAN_USBCANFD_100U | ZCanDeviceType::ZCAN_USBCANFD_MINI
            | ZCanDeviceType::ZCAN_CANFDNET_TCP | ZCanDeviceType::ZCAN_CANFDNET_UDP
            | ZCanDeviceType::ZCAN_USBCANFD_800U)
    }

    pub fn lin_support(&self) -> (r: bool)
        ensures
            r == self.spec_lin(),
    {
        matches!(self, ZCanDeviceType::ZCAN_USBCANFD_200U | ZCanDeviceType::ZCAN_USBCANFD_800U)
    }

    pub fn has_resistance(&self) -> (r: bool)
        ensures
            r == self.spec_resistance(),
    {
        matches!(self,
            ZCanDeviceType::ZCAN_USBCAN_E_U | ZCanDeviceType::ZCAN_USBCAN_2E_U
            | ZCanDeviceType::ZCAN_USBCAN_4E_U | ZCanDeviceType::ZCAN_USBCAN_8E_U
            | ZCanDeviceType::ZCAN_PCIE_CANFD_100U | ZCanDeviceType::ZCAN_PCIE_CANFD_200U
            | ZCanDeviceType::ZCAN_PCIE_CANFD_400U | ZCanDeviceType::ZCAN_USBCANFD_200U
            | ZCanDeviceType::ZCAN_USBCANFD_100U | ZCanDeviceType::ZCAN_USBCANFD_MINI
            | ZCanDeviceType::ZCAN_USBCANFD_800U)
    }

    pub fn cloud_support(&self) -> (r: bool)
        ensures
            r == self.spec_cloud(),
    {
        matches!(self, ZCanDeviceType::ZCAN_CLOUD)
    }

    pub fn get_value_support(&self) -> (r: bool)
        ensures
            r == self.spec_get_value(),
    {
        self.canfd_support() || self.cloud_support()
    }

    pub fn property_config_support(&self) -> (r: bool)
        ensures
            r == self.spec_property_config(),
    {
        !matches!(self, ZCanDeviceType::ZCAN_USBCAN1 | ZCanDeviceType::ZCAN_USBCAN2)
    }

    pub fn lin_channels(&self) -> (r: u8)
        ensures
            r == self.spec_lin_channels(),
    {
        if self.lin_support() { 2 } else { 0 }
    }

    /// The family's row of the capability table.
    pub fn capabilities(&self) -> (r: Capabilities)
        ensures
            r == self.spec_capabilities(),
    {
        Capabilities {
            canfd: self.canfd_support(),
            lin: self.lin_support(),
            resistance: self.has_resistance(),
            cloud: self.cloud_support(),
            get_value: self.get_value_support(),
            property_config: self.property_config_support(),
            lin_channels: self.lin_channels(),
        }
    }
}

/// What the native layer reports about an opened device.
#[derive(Clone, Debug)]
pub struct ZDeviceInfo {
    pub hw_version: u16,
    pub fw_version: u16,
    pub dr_version: u16,
    pub in_version: u16,
    pub irq_num: u16,
    pub can_num: u8,
    pub serial: String,
    pub hw_type: String,
}

impl ZDeviceInfo {
    /// What is known of a derived device: its number of CAN channels.
    pub fn from_derive(derive: DeriveInfo) -> (r: ZDeviceInfo)
        ensures
            r.can_num == derive.channels,
    {
        ZDeviceInfo {
            hw_version: 0,
            fw_version: 0,
            dr_version: 0,
            in_version: 0,
            irq_num: 0,
            can_num: derive.channels,
            serial: String::new(),
            hw_type: String::new(),
        }
    }
}

/// Facts given by the caller for a device that the native layer cannot
/// describe itself (a clone of a known family).
#[derive(Clone, Copy, Debug, PartialEq, Eq, Structural)]
pub struct DeriveInfo {
    pub channels: u8,
}

/// One physical adapter: its family, its index among adapters of that
/// family, and the native device handle once it is open.
#[derive(Clone, Copy, Debug, PartialEq, Eq, Structural)]
pub struct ZDeviceContext {
    pub dev_type: ZCanDeviceType,
    pub dev_idx: u32,
    /// The live native handle; `None` until a successful open.
    pub dev_hdl: Option<u32>,
}

impl ZDeviceContext {
    pub fn new(dev_type: ZCanDeviceType, dev_idx: u32) -> (r: ZDeviceContext)
        ensures
            r == (ZDeviceContext { dev_type, dev_idx, dev_hdl: None }),
    {
        ZDeviceContext { dev_type, dev_idx, dev_hdl: None }
    }

    /// The live device handle, or `DeviceNotOpened`.
    pub fn device_handler(&self) -> (r: Result<u32, ZCanError>)
        ensures
            r == match self.dev_hdl {
                Some(h) => Ok::<u32, ZCanError>(h),
                None => Err(ZCanError::DeviceNotOpened),
            },
    {
        match self.dev_hdl {
            Some(h) => Ok(h),
            None => Err(ZCanError::DeviceNotOpened),
        }
    }
}

/// One logical channel of a device: the device it belongs to, its number, and
/// the native channel handle once it is initialized and started.
#[derive(Clone, Copy, Debug, PartialEq, Eq, Structural)]
pub struct ZChannelContext {
    pub device: ZDeviceContext,
    pub channel: u8,
    /// The live native channel handle; `None` until a successful init and start.
    pub chl_hdl: Option<u32>,
}

impl ZChannelContext {
    pub fn new(device: ZDeviceContext, channel: u8) -> (r: ZChannelContext)
        ensures
            r == (ZChannelContext { device, channel, chl_hdl: None }),
    {
        ZChannelContext { device, channel, chl_hdl: None }
    }

    pub fn device_type(&self) -> (r: ZCanDeviceType)
        ensures
            r == self.device.dev_type,
    {
        self.device.dev_type
    }

    /// The handle of the device the channel belongs to, or `DeviceNotOpened`.
    pub fn device_handler(&self) -> (r: Result<u32, ZCanError>)
        ensures
            r == match self.device.dev_hdl {
                Some(h) => Ok::<u32, ZCanError>(h),
                None => Err(ZCanError::DeviceNotOpened),
            },
    {
        self.device.device_handler()
    }

    /// The live channel handle, or `ChannelNotOpened`.
    pub fn channel_handler(&self) -> (r: Result<u32, ZCanError>)
        ensures
            r == match self.chl_hdl {
                Some(h) => Ok::<u32, ZCanError>(h),
                None => Err(ZCanError::ChannelNotOpened),
            },
    {
        match self.chl_hdl {
            Some(h) => Ok(h),
            None => Err(ZCanError::ChannelNotOpened),
        }
    }
}

} // verus!
