use hardware_registers::i2c::{DeviceAddress, DeviceAddress10, DeviceAddress7, DeviceAddress8};
use hardware_registers::AddressRangeError;

#[test]
fn dev7_from_u8() {
    let addr = DeviceAddress7::from(0b111_0000);
    assert_eq!(addr.into_inner(), 0b111_0000);
    assert_eq!(addr.addr_bits(), 7);
}

#[test]
fn dev10_from_u8() {
    let addr = DeviceAddress10::from(0b0111_0000_u8);
    assert_eq!(addr.into_inner(), 0b111_0000);
    assert_eq!(addr.addr_bits(), 10);
}

#[test]
fn dev7_from_u8_masked() {
    let addr = DeviceAddress7::from(0b1111_0000_u8);
    assert_eq!(addr.into_inner(), 0b111_0000);
}

#[test]
fn dev10_from_u16() {
    let addr = DeviceAddress10::from(0b11_1111_0000_u16);
    assert_eq!(addr.into_inner(), 0b11_1111_0000);
}

#[test]
fn dev10_from_u16_masked() {
    let addr = DeviceAddress10::from(0b1111_1111_1111_0000_u16);
    assert_eq!(addr.into_inner(), 0b0000_0011_1111_0000);
}

#[test]
fn dev10_from_dev7() {
    let addr = DeviceAddress7::from(0b1111_0000_u8);
    let addr: DeviceAddress10 = addr.into();
    assert_eq!(addr.into_inner(), 0b0000_0000_0111_0000);
}

#[test]
fn dev7_debug() {
    let addr = DeviceAddress7::new(0b111_0000);
    assert_eq!(addr.debug_string(), "0x70 (1110000)");
}

#[test]
fn dev7_display() {
    let addr = DeviceAddress7::new(0b111_0000);
    assert_eq!(addr.debug_string(), "0x70 (1110000)");
}

#[test]
fn dev10_debug() {
    let addr = DeviceAddress10::new(0b01_1111_0100);
    assert_eq!(addr.debug_string(), "0x1F4 (0111110100)");
}

#[test]
fn dev10_display() {
    let addr = DeviceAddress10::new(0b01_1111_0100);
    assert_eq!(addr.debug_string(), "0x1F4 (0111110100)");
}

#[test]
fn dev7_new_masks() {
    assert_eq!(DeviceAddress7::new(0b1111_1111).into_inner(), 0b0111_1111);
    assert_eq!(DeviceAddress7::new(0).into_inner(), 0);
}

#[test]
fn dev7_new_idempotent() {
    let once = DeviceAddress7::new(0b1101_0110);
    let twice = DeviceAddress7::new(once.into_inner());
    assert_eq!(once, twice);
}

#[test]
fn dev10_new_idempotent() {
    let once = DeviceAddress10::new(0b1111_1010_1010_1010);
    let twice = DeviceAddress10::new(once.into_inner());
    assert_eq!(once, twice);
}

#[test]
fn dev_addresses_deref_to_inner_value() {
    let narrow = DeviceAddress7::new(0b101_0101);
    assert_eq!(*narrow, 0b101_0101_u8);
    let wide = DeviceAddress10::new(0b11_0101_0101);
    assert_eq!(*wide, 0b11_0101_0101_u16);
}

#[test]
fn dev8_from_u8() {
    let addr = DeviceAddress8::from(0b1111_0000_u8);
    assert_eq!(addr.into_inner(), 0b1111_0000);
    assert_eq!(addr.addr_bits(), 8);
}

#[test]
fn dev8_debug() {
    let addr = DeviceAddress8::new(0b1111_0000);
    assert_eq!(addr.debug_string(), "0xF0 (11110000)");
}

#[test]
fn dev7_round_trip() {
    let addr = DeviceAddress7::new(0b101_0101);
    let wide: DeviceAddress10 = addr.into();
    let back = DeviceAddress7::try_from(wide).expect("a valid 7-bit address survives the round trip");
    assert_eq!(back, addr);
}

#[test]
fn dev8_round_trip() {
    let addr = DeviceAddress8::new(0b1010_1010);
    let wide: DeviceAddress10 = addr.into();
    let back = DeviceAddress8::try_from(wide).expect("an 8-bit address survives the round trip");
    assert_eq!(back, addr);
}

#[test]
fn dev10_narrow_to_dev7_rejects_wide_value() {
    let wide = DeviceAddress10::new(0b10_0000_0000);
    assert_eq!(DeviceAddress7::try_from(wide), Err(AddressRangeError));
}

#[test]
fn dev10_narrow_to_dev8_rejects_wide_value() {
    let wide = DeviceAddress10::new(0b01_0000_0000);
    assert_eq!(DeviceAddress8::try_from(wide), Err(AddressRangeError));
    let narrow = DeviceAddress10::new(0b1111_1111);
    assert_eq!(
        DeviceAddress8::try_from(narrow),
        Ok(DeviceAddress8::new(0b1111_1111))
    );
}
