//! The fixed facts of the supported instruments: who they are on the bus and
//! where commands go.

use vstd::prelude::*;

verus! {

/// Vendor ID of the data-acquisition device.
pub const VENDOR_ID: u16 = 0x0CD5;

/// Product ID of the data-acquisition device.
pub const PRODUCT_ID: u16 = 0x0001;

/// The configuration that must be active.
pub const CONFIGURATION: u8 = 0;

/// The interface that carries the command exchange.
pub const INTERFACE: u8 = 0;

/// Address of the interrupt endpoint that responses are read from.
pub const READ_ENDPOINT: u8 = 0x81;

/// Address of the interrupt endpoint that commands are written to.
pub const WRITE_ENDPOINT: u8 = 0x02;

/// Path of the serial port that the bench multimeter is attached to.
pub const SERIAL_PORT: &'static str = "/dev/cu.usbserial-D309PLP8";

/// Who a device is on the bus. Used to find it, and for nothing else.
#[derive(Clone, Copy, Debug, PartialEq, Eq, Structural)]
pub struct DeviceIdentity {
    pub vendor_id: u16,
    pub product_id: u16,
}

impl DeviceIdentity {
    /// The identity of the supported data-acquisition device.
    pub open spec fn supported() -> DeviceIdentity {
        DeviceIdentity { vendor_id: VENDOR_ID, product_id: PRODUCT_ID }
    }

    /// The identity of the supported data-acquisition device.
    pub fn of_supported_device() -> (identity: DeviceIdentity)
        ensures
            identity == DeviceIdentity::supported(),
    {
        DeviceIdentity { vendor_id: VENDOR_ID, product_id: PRODUCT_ID }
    }
}

/// The two endpoints a session talks through.
#[derive(Clone, Copy, Debug, PartialEq, Eq, Structural)]
pub struct EndpointPair {
    pub read_address: u8,
    pub write_address: u8,
}

impl EndpointPair {
    /// The only pair a validated device has.
    pub open spec fn expected() -> EndpointPair {
        EndpointPair { read_address: READ_ENDPOINT, write_address: WRITE_ENDPOINT }
    }
}

} // verus!
