use hardware_registers::RegisterSize;

#[test]
pub fn saturating_add() {
    let r3 = RegisterSize::r1().saturating_add(3);
    assert_eq!(r3.bytes(), 4);
    assert_eq!(r3.bits(), 32);
}

#[test]
pub fn register_size_debug() {
    let reg = RegisterSize::r4();
    assert_eq!(reg.debug_string(), "4 bytes (32 bits)");
}

#[test]
pub fn register_size_display() {
    let reg = RegisterSize::r4();
    assert_eq!(reg.debug_string(), "4 bytes (32 bits)");
}

#[test]
fn built_in_ladder() {
    assert_eq!(RegisterSize::r1().bytes(), 1);
    assert_eq!(RegisterSize::r2().bytes(), 2);
    assert_eq!(RegisterSize::r3().bytes(), 3);
    assert_eq!(RegisterSize::r4().bytes(), 4);
    assert_eq!(RegisterSize::r8().bytes(), 8);
    assert_eq!(RegisterSize::r16().bytes(), 16);
    assert_eq!(RegisterSize::r32().bytes(), 32);
    assert_eq!(RegisterSize::r64().bytes(), 64);
    assert_eq!(RegisterSize::r64().bits(), 512);
}

#[test]
fn saturating_add_clamps_at_native_maximum() {
    let huge = RegisterSize::new(usize::MAX);
    let clamped = huge.saturating_add(1);
    assert_eq!(clamped.bytes(), usize::MAX);
    let clamped_again = clamped.saturating_add(usize::MAX);
    assert_eq!(clamped_again.bytes(), usize::MAX);
}

#[test]
fn saturating_add_never_decreases() {
    let mut size = RegisterSize::r1();
    let mut previous = size.bytes();
    let mut step: usize = 1;
    while step < (1usize << 40) {
        size = size.saturating_add(step);
        assert!(size.bytes() >= previous);
        previous = size.bytes();
        step *= 7;
    }
}

#[test]
fn one_byte_renders_singular() {
    assert_eq!(RegisterSize::r1().debug_string(), "1 byte (8 bits)");
}
