use rusty_probe::serial::{hex, serial_number};
use rusty_probe::usb::UsbConfig;

#[test]
fn hex_digits() {
    let digits: String = (0..16u8).map(hex).collect();
    assert_eq!(digits, "0123456789ABCDEF");
}

#[test]
fn serial_is_the_id_in_upper_case_hexadecimal() {
    let uid = [0xE6, 0x60, 0x58, 0x38, 0x83, 0x0B, 0xC7, 0x2F];
    assert_eq!(serial_number(&uid).as_str(), "E6605838830BC72F");
    assert_eq!(serial_number(&[0; 8]).as_str(), "0000000000000000");
    assert_eq!(serial_number(&[0xFF; 8]).as_str(), "FFFFFFFFFFFFFFFF");
}

#[test]
fn serial_reads_back_as_the_id() {
    let uid = [0x00, 0x19, 0xA0, 0x0F, 0xF0, 0x9A, 0x7F, 0x80];
    let serial = serial_number(&uid);
    for (i, byte) in uid.iter().enumerate() {
        assert_eq!(u8::from_str_radix(&serial.as_str()[2 * i..2 * i + 2], 16), Ok(*byte));
    }
}

#[test]
fn serials_of_different_ids_differ() {
    let uid = [1, 2, 3, 4, 5, 6, 7, 8];
    for i in 0..8 {
        let mut other = uid;
        other[i] ^= 0x10;
        assert_ne!(serial_number(&uid), serial_number(&other));
    }
}

#[test]
fn device_configuration() {
    let config = UsbConfig::new(&[0xE6, 0x60, 0x58, 0x38, 0x83, 0x0B, 0xC7, 0x2F]);
    assert_eq!((config.vendor_id, config.product_id), (0xc0de, 0xcafe));
    assert_eq!(config.manufacturer, "me");
    assert_eq!(config.product, "Rusty Probe with Embassy CMSIS-DAP");
    assert_eq!(config.serial_number.as_str(), "E6605838830BC72F");
    assert_eq!(config.max_power, 100);
    assert_eq!(config.max_packet_size_0, 64);
    assert_eq!(config.device_class, 0xEF);
    assert_eq!(config.device_sub_class, 0x02);
    assert_eq!(config.device_protocol, 0x01);
    assert!(config.composite_with_iads);
}
