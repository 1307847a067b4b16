//! The usbmuxd protocol: constants, message kinds and the records exchanged
//! with the daemon.
use vstd::prelude::*;

verus! {

/// The `kLibUSBMuxVersion` that requests carry.
pub const PLIST_LIBUSBMUX_VERSION: u32 = 3;

/// The protocol version written in every frame header.
pub const USBMUXD_PROTOCOL_VERSION: u32 = 1;

/// The size in bytes of a frame header: four `u32` fields.
pub const HEADER_SIZE: u32 = 16;

/// The result codes of a `Result` message.
#[derive(Debug, Clone, Copy, PartialEq, Eq)]
pub enum UsbmuxdResult {
    Success,
    BadCommand,
    BadDev,
    Connrefused,
    BadVersion,
}

impl UsbmuxdResult {
    pub open spec fn spec_code(self) -> u32 {
        match self {
            UsbmuxdResult::Success => 0,
            UsbmuxdResult::BadCommand => 1,
            UsbmuxdResult::BadDev => 2,
            UsbmuxdResult::Connrefused => 3,
            UsbmuxdResult::BadVersion => 6,
        }
    }

    /// The wire value of this result code.
    pub fn code(&self) -> (r: u32)
        ensures
            r == self.spec_code(),
    {
        match self {
            UsbmuxdResult::Success => 0,
            UsbmuxdResult::BadCommand => 1,
            UsbmuxdResult::BadDev => 2,
            UsbmuxdResult::Connrefused => 3,
            UsbmuxdResult::BadVersion => 6,
        }
    }
}

/// The message kinds of a frame header.
#[derive(Debug, Clone, Copy, PartialEq, Eq)]
pub enum UsbmuxdMsgType {
    Result,
    Connect,
    Listen,
    DeviceAdd,
    DeviceRemove,
    DevicePaired,
    Plist,
}

impl UsbmuxdMsgType {
    pub open spec fn spec_code(self) -> u32 {
        match self {
            UsbmuxdMsgType::Result => 1,
            UsbmuxdMsgType::Connect => 2,
            UsbmuxdMsgType::Listen => 3,
            UsbmuxdMsgType::DeviceAdd => 4,
            UsbmuxdMsgType::DeviceRemove => 5,
            UsbmuxdMsgType::DevicePaired => 6,
            UsbmuxdMsgType::Plist => 8,
        }
    }

    /// The wire value of this message kind.
    pub fn code(&self) -> (r: u32)
        ensures
            r == self.spec_code(),
    {
        match self {
            UsbmuxdMsgType::Result => 1,
            UsbmuxdMsgType::Connect => 2,
            UsbmuxdMsgType::Listen => 3,
            UsbmuxdMsgType::DeviceAdd => 4,
            UsbmuxdMsgType::DeviceRemove => 5,
            UsbmuxdMsgType::DevicePaired => 6,
            UsbmuxdMsgType::Plist => 8,
        }
    }

    /// The message kind with the given wire value, if there is one.
    pub fn from_code(code: u32) -> (r: Option<UsbmuxdMsgType>)
        ensures
            r matches Some(t) ==> t.spec_code() == code,
            r is None <==> !(exists|t: UsbmuxdMsgType| t.spec_code() == code),
    {
        let r = match code {
            1 => Some(UsbmuxdMsgType::Result),
            2 => Some(UsbmuxdMsgType::Connect),
            3 => Some(UsbmuxdMsgType::Listen),
            4 => Some(UsbmuxdMsgType::DeviceAdd),
            5 => Some(UsbmuxdMsgType::DeviceRemove),
            6 => Some(UsbmuxdMsgType::DevicePaired),
            8 => Some(UsbmuxdMsgType::Plist),
            _ => None,
        };
        proof {
            if r is None {
                assert forall|t: UsbmuxdMsgType| t.spec_code() != code by {
                    match t {
                        UsbmuxdMsgType::Result => {},
                        UsbmuxdMsgType::Connect => {},
                        UsbmuxdMsgType::Listen => {},
                        UsbmuxdMsgType::DeviceAdd => {},
                        UsbmuxdMsgType::DeviceRemove => {},
                        UsbmuxdMsgType::DevicePaired => {},
                        UsbmuxdMsgType::Plist => {},
                    }
                }
            }
        }
        r
    }
}

/// The fixed header of every frame: total length (header included),
/// protocol version, message kind and correlation tag.
#[derive(Debug, Clone, Copy, PartialEq, Eq)]
pub struct UsbmuxdHeader {
    pub length: u32,
    pub version: u32,
    pub message: u32,
    pub tag: u32,
}

/// A `Result` message: a header and a result code.
#[derive(Debug, Clone, Copy)]
pub struct UsbmuxdResultMsg {
    pub header: UsbmuxdHeader,
    pub result: u32,
}

/// A `Connect` request: a header, a device and a TCP port.
#[derive(Debug, Clone, Copy)]
pub struct UsbmuxdConnectRequest {
    pub header: UsbmuxdHeader,
    pub device_id: u32,
    /// TCP port number.
    pub port: u16,
    /// Always zero.
    pub reserved: u16,
}

/// A `Listen` request: a header alone.
#[derive(Debug, Clone, Copy)]
pub struct UsbmuxdListenRequest {
    pub header: UsbmuxdHeader,
}

/// The `Properties` record of a device.
#[derive(Debug, Clone)]
pub struct UsbmuxdDeviceProperties {
    pub connection_type: String,
    pub device_id: u32,
    pub location_id: u32,
    pub product_id: u32,
    pub serial_number: String,
    pub udid: String,
}

/// A device as the daemon reports it.
#[derive(Debug, Clone)]
pub struct UsbmuxdDevice {
    pub device_id: u32,
    /// "Attached" or "Detached".
    pub message_type: String,
    pub properties: UsbmuxdDeviceProperties,
}

/// The response to a `ListDevices` request, in the daemon's order.
#[derive(Debug, Clone)]
pub struct UsbmuxdDeviceList {
    pub device_list: Vec<UsbmuxdDevice>,
}

} // verus!
