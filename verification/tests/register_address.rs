use hardware_registers::register_address::{RegisterAddress, RegisterAddress16, RegisterAddress8};
use hardware_registers::AddressRangeError;

#[test]
fn reg8_from_u8() {
    let addr = RegisterAddress8::from(0b1111_0000);
    assert_eq!(addr.into_inner(), 0b1111_0000);
    assert_eq!(addr.addr_bits(), 8);
}

#[test]
fn reg16_from_u8() {
    let addr = RegisterAddress16::from(0b1111_0000_u8);
    assert_eq!(addr.into_inner(), 0b1111_0000);
    assert_eq!(addr.addr_bits(), 16);
}

#[test]
fn reg16_from_u16() {
    let addr = RegisterAddress16::from(0b11_1111_0000_u16);
    assert_eq!(addr.into_inner(), 0b11_1111_0000);
}

#[test]
fn reg16_from_u16_masked() {
    let addr = RegisterAddress16::from(0b1111_1111_1111_0000_u16);
    assert_eq!(addr.into_inner(), 0b1111_1111_1111_0000);
}

#[test]
fn reg16_from_reg8() {
    let addr = RegisterAddress8::from(0b1111_0000_u8);
    let addr: RegisterAddress16 = addr.into();
    assert_eq!(addr.into_inner(), 0b0000_0000_1111_0000);
}

#[test]
fn reg8_debug() {
    let addr = RegisterAddress8::new(0b0011_0011);
    assert_eq!(addr.debug_string(), "0x33 (00110011)");
}

#[test]
fn reg8_display() {
    let addr = RegisterAddress8::new(0b1111_0000);
    assert_eq!(addr.debug_string(), "0xF0 (11110000)");
}

#[test]
fn reg16_debug() {
    let addr = RegisterAddress16::new(0b1111_1111_0000_0000);
    assert_eq!(addr.debug_string(), "0xFF00 (1111111100000000)");
}

#[test]
fn reg16_display() {
    let addr = RegisterAddress16::new(0b1111_1111_0000_0000);
    assert_eq!(addr.debug_string(), "0xFF00 (1111111100000000)");
}

#[test]
fn reg8_round_trip() {
    let addr = RegisterAddress8::new(0b1100_1100);
    let wide: RegisterAddress16 = addr.into();
    let back =
        RegisterAddress8::try_from(wide).expect("an 8-bit address survives the round trip");
    assert_eq!(back, addr);
}

#[test]
fn reg16_narrow_to_reg8_rejects_wide_value() {
    let wide = RegisterAddress16::new(0x0100);
    assert_eq!(RegisterAddress8::try_from(wide), Err(AddressRangeError));
    let narrow = RegisterAddress16::new(0x00FF);
    assert_eq!(
        RegisterAddress8::try_from(narrow),
        Ok(RegisterAddress8::new(0xFF))
    );
}
