use hardware_registers::sizes::{RegisterSizeInformation, R1, R16, R2, R3, R32, R4, R64, R8};

#[test]
pub fn sizes_debug() {
    assert_eq!(R4.debug_string(), "4 bytes (32 bits)");
}

#[test]
pub fn sizes_display() {
    assert_eq!(R4.debug_string(), "4 bytes (32 bits)");
}

#[test]
fn marker_byte_counts() {
    assert_eq!(R1.bytes(), 1);
    assert_eq!(R2.bytes(), 2);
    assert_eq!(R3.bytes(), 3);
    assert_eq!(R4.bytes(), 4);
    assert_eq!(R8.bytes(), 8);
    assert_eq!(R16.bytes(), 16);
    assert_eq!(R32.bytes(), 32);
    assert_eq!(R64.bytes(), 64);
}

#[test]
fn marker_bits_are_eight_times_bytes() {
    assert_eq!(R1.bits(), R1.bytes() * 8);
    assert_eq!(R2.bits(), R2.bytes() * 8);
    assert_eq!(R3.bits(), R3.bytes() * 8);
    assert_eq!(R4.bits(), R4.bytes() * 8);
    assert_eq!(R8.bits(), R8.bytes() * 8);
    assert_eq!(R16.bits(), R16.bytes() * 8);
    assert_eq!(R32.bits(), R32.bytes() * 8);
    assert_eq!(R64.bits(), R64.bytes() * 8);
}

#[test]
fn marker_constants_match_methods() {
    assert_eq!(R1::BYTES, 1);
    assert_eq!(R1::BITS, 8);
    assert_eq!(R64::BYTES, 64);
    assert_eq!(R64::BITS, 512);
}

#[test]
fn one_byte_marker_renders_singular() {
    assert_eq!(R1.debug_string(), "1 byte (8 bits)");
}
