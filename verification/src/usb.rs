//! How the probe presents itself on the bus.

use vstd::prelude::*;

use crate::serial::{serial_number, SERIAL_LEN, UID_LEN};

verus! {

/// The manufacturer's name.
pub const MANUFACTURER: &'static str = "me";

/// The product's name.
pub const PRODUCT: &'static str = "Rusty Probe with Embassy CMSIS-DAP";

/// The device configuration.
pub struct UsbConfig {
    pub vendor_id: u16,
    pub product_id: u16,
    pub manufacturer: &'static str,
    pub product: &'static str,
    pub serial_number: heapless::String<SERIAL_LEN>,
    /// The current drawn from the bus, in mA.
    pub max_power: u16,
    /// The packet size of the control endpoint.
    pub max_packet_size_0: u8,
    pub device_class: u8,
    pub device_sub_class: u8,
    pub device_protocol: u8,
    /// Whether the device groups its interfaces with interface association descriptors.
    pub composite_with_iads: bool,
}

impl UsbConfig {
    /// A device can be built with this configuration: one with interface association descriptors
    /// has the class codes that go with them, the bus can supply the current, and the control
    /// endpoint has a legal packet size.
    pub open spec fn buildable(self) -> bool {
        &&& self.composite_with_iads ==> self.device_class == 0xEF && self.device_sub_class == 0x02
            && self.device_protocol == 0x01
        &&& self.max_power <= 500
        &&& self.max_packet_size_0 == 8 || self.max_packet_size_0 == 16 || self.max_packet_size_0
            == 32 || self.max_packet_size_0 == 64
    }

    /// The configuration of the probe whose flash chip has the unique id `uid`.
    pub fn new(uid: &[u8; UID_LEN]) -> (config: UsbConfig)
        ensures
            config.vendor_id == 0xc0de,
            config.product_id == 0xcafe,
            config.manufacturer@ == "me"@,
            config.product@ == "Rusty Probe with Embassy CMSIS-DAP"@,
            crate::serial::serial_chars(config.serial_number) == crate::serial::hex_chars(uid@),
            config.max_power == 100,
            config.max_packet_size_0 == 64,
            config.device_class == 0xEF,
            config.device_sub_class == 0x02,
            config.device_protocol == 0x01,
            config.composite_with_iads,
            config.buildable(),
    {
        UsbConfig {
            vendor_id: 0xc0de,
            product_id: 0xcafe,
            manufacturer: MANUFACTURER,
            product: PRODUCT,
            serial_number: serial_number(uid),
            max_power: 100,
            max_packet_size_0: 64,
            device_class: 0xEF,
            device_sub_class: 0x02,
            device_protocol: 0x01,
            composite_with_iads: true,
        }
    }
}

} // verus!
