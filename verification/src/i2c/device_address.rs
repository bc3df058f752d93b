//! Bus device address types at fixed, enforced bit widths.

use vstd::prelude::*;

verus! {

use crate::AddressRangeError;
use crate::text;

/// A device address.
pub trait DeviceAddress {
    /// The number of bits of the address.
    const ADDR_BITS: usize;

    /// Returns the number of bits in the address.
    fn addr_bits(&self) -> (r: usize)
        ensures
            r == Self::ADDR_BITS,
    {
        Self::ADDR_BITS
    }
}

/// A 7-bit device address.
#[derive(Copy, Clone, Debug, Eq, PartialEq, Ord, PartialOrd, Structural)]
pub struct DeviceAddress7(pub u8);

impl DeviceAddress7 {
    /// The stored address value, as a mathematical value.
    pub open spec fn value(self) -> u8 {
        self.0
    }

    /// Well-formedness: no bits are set above the 7-bit address width.
    pub open spec fn well_formed(self) -> bool {
        self.value() < 0x80
    }

    /// The address that construction from a raw value yields: the input
    /// masked down to the valid 7-bit range.
    pub open spec fn spec_new(address: u8) -> DeviceAddress7 {
        DeviceAddress7(address & 0b0111_1111u8)
    }

    /// Constructs a new [`DeviceAddress7`] from a specified value.
    ///
    /// To ensure the provided value is a valid 7-bit address, the value is
    /// masked with `0b0111_1111`; out-of-range high bits are silently
    /// discarded by design.
    pub fn new(address: u8) -> (r: Self)
        ensures
            r == Self::spec_new(address),
            r.value() == address & 0b0111_1111u8,
            r.well_formed(),
    {
        proof {
            assert(address & 0b0111_1111u8 < 0x80) by (bit_vector);
        }
        DeviceAddress7(address & 0b0111_1111u8)
    }

    /// Consumes self and returns the inner value.
    pub fn into_inner(self) -> (r: u8)
        ensures
            r == self.value(),
    {
        self.0
    }

    /// Renders the address as upper-case hexadecimal followed by the
    /// 7-bit zero-padded binary value in parentheses.
    pub fn debug_string(&self) -> (s: String)
        ensures
            s@ == text::address_text(self.value() as nat, 2, 7),
    {
        text::address_string(self.0 as usize, 2, 7)
    }
}

impl DeviceAddress for DeviceAddress7 {
    const ADDR_BITS: usize = 7;
}

/// Conversion from a raw value masks down to the valid 7-bit range, as
/// construction does.
impl From<u8> for DeviceAddress7 {
    fn from(value: u8) -> (r: Self) {
        DeviceAddress7::new(value)
    }
}

impl vstd::std_specs::convert::FromSpecImpl<u8> for DeviceAddress7 {
    open spec fn obeys_from_spec() -> bool {
        true
    }

    open spec fn from_spec(v: u8) -> DeviceAddress7 {
        DeviceAddress7::spec_new(v)
    }
}

/// Masking law: constructing a 7-bit device address twice over is the same
/// as constructing it once.
pub proof fn lemma_device7_new_idempotent(address: u8)
    ensures
        DeviceAddress7::spec_new(DeviceAddress7::spec_new(address).value())
            == DeviceAddress7::spec_new(address),
{
    assert((address & 0b0111_1111u8) & 0b0111_1111u8 == address & 0b0111_1111u8)
        by (bit_vector);
}

/// An 8-bit device address.
#[derive(Copy, Clone, Debug, Eq, PartialEq, Ord, PartialOrd, Structural)]
pub struct DeviceAddress8(pub u8);

impl DeviceAddress8 {
    /// The stored address value, as a mathematical value.
    pub open spec fn value(self) -> u8 {
        self.0
    }

    /// Constructs a new [`DeviceAddress8`] from a specified value.
    ///
    /// The width matches the native integer width, so no masking is needed.
    pub fn new(address: u8) -> (r: Self)
        ensures
            r.value() == address,
    {
        DeviceAddress8(address)
    }

    /// Consumes self and returns the inner value.
    pub fn into_inner(self) -> (r: u8)
        ensures
            r == self.value(),
    {
        self.0
    }

    /// Renders the address as upper-case hexadecimal followed by the
    /// 8-bit zero-padded binary value in parentheses.
    pub fn debug_string(&self) -> (s: String)
        ensures
            s@ == text::address_text(self.value() as nat, 2, 8),
    {
        text::address_string(self.0 as usize, 2, 8)
    }
}

impl DeviceAddress for DeviceAddress8 {
    const ADDR_BITS: usize = 8;
}

impl From<u8> for DeviceAddress8 {
    fn from(value: u8) -> (r: Self) {
        DeviceAddress8(value)
    }
}

impl vstd::std_specs::convert::FromSpecImpl<u8> for DeviceAddress8 {
    open spec fn obeys_from_spec() -> bool {
        true
    }

    open spec fn from_spec(v: u8) -> DeviceAddress8 {
        DeviceAddress8(v)
    }
}

/// A 10-bit device address.
#[derive(Copy, Clone, Debug, Eq, PartialEq, Ord, PartialOrd, Structural)]
pub struct DeviceAddress10(pub u16);

impl DeviceAddress10 {
    /// The stored address value, as a mathematical value.
    pub open spec fn value(self) -> u16 {
        self.0
    }

    /// Well-formedness: no bits are set above the 10-bit address width.
    pub open spec fn well_formed(self) -> bool {
        self.value() < 0x400
    }

    /// The address that construction from a raw value yields: the input
    /// masked down to the valid 10-bit range.
    pub open spec fn spec_new(address: u16) -> DeviceAddress10 {
        DeviceAddress10(address & 0b0000_0011_1111_1111u16)
    }

    /// Constructs a new [`DeviceAddress10`] from a specified value.
    ///
    /// To ensure the provided value is a valid 10-bit address, the value is
    /// masked with `0b11_1111_1111`; out-of-range high bits are silently
    /// discarded by design.
    pub fn new(address: u16) -> (r: Self)
        ensures
            r == Self::spec_new(address),
            r.value() == address & 0b0000_0011_1111_1111u16,
            r.well_formed(),
    {
        proof {
            assert(address & 0b0000_0011_1111_1111u16 < 0x400) by (bit_vector);
        }
        DeviceAddress10(address & 0b0000_0011_1111_1111u16)
    }

    /// Consumes self and returns the inner value.
    pub fn into_inner(self) -> (r: u16)
        ensures
            r == self.value(),
    {
        self.0
    }

    /// Renders the address as upper-case hexadecimal followed by the
    /// 10-bit zero-padded binary value in parentheses.
    pub fn debug_string(&self) -> (s: String)
        ensures
            s@ == text::address_text(self.value() as nat, 3, 10),
    {
        text::address_string(self.0 as usize, 3, 10)
    }
}

impl DeviceAddress for DeviceAddress10 {
    const ADDR_BITS: usize = 10;
}

/// Every 8-bit raw value is a valid 10-bit address, so no masking is needed.
impl From<u8> for DeviceAddress10 {
    fn from(value: u8) -> (r: Self) {
        DeviceAddress10(value as u16)
    }
}

impl vstd::std_specs::convert::FromSpecImpl<u8> for DeviceAddress10 {
    open spec fn obeys_from_spec() -> bool {
        true
    }

    open spec fn from_spec(v: u8) -> DeviceAddress10 {
        DeviceAddress10(v as u16)
    }
}

/// Conversion from a raw value masks down to the valid 10-bit range, as
/// construction does.
impl From<u16> for DeviceAddress10 {
    fn from(value: u16) -> (r: Self) {
        DeviceAddress10::new(value)
    }
}

impl vstd::std_specs::convert::FromSpecImpl<u16> for DeviceAddress10 {
    open spec fn obeys_from_spec() -> bool {
        true
    }

    open spec fn from_spec(v: u16) -> DeviceAddress10 {
        DeviceAddress10::spec_new(v)
    }
}

/// Widening a 7-bit device address is total: every 7-bit address is a
/// valid 10-bit address.
impl From<DeviceAddress7> for DeviceAddress10 {
    fn from(value: DeviceAddress7) -> (r: Self) {
        DeviceAddress10(value.into_inner() as u16)
    }
}

impl vstd::std_specs::convert::FromSpecImpl<DeviceAddress7> for DeviceAddress10 {
    open spec fn obeys_from_spec() -> bool {
        true
    }

    open spec fn from_spec(v: DeviceAddress7) -> DeviceAddress10 {
        DeviceAddress10(v.value() as u16)
    }
}

/// Widening an 8-bit device address is total: every 8-bit address is a
/// valid 10-bit address.
impl From<DeviceAddress8> for DeviceAddress10 {
    fn from(value: DeviceAddress8) -> (r: Self) {
        DeviceAddress10(value.into_inner() as u16)
    }
}

impl vstd::std_specs::convert::FromSpecImpl<DeviceAddress8> for DeviceAddress10 {
    open spec fn obeys_from_spec() -> bool {
        true
    }

    open spec fn from_spec(v: DeviceAddress8) -> DeviceAddress10 {
        DeviceAddress10(v.value() as u16)
    }
}

/// Narrowing a 10-bit device address fails exactly when the source value
/// has bits set beyond the 7-bit target width.
impl TryFrom<DeviceAddress10> for DeviceAddress7 {
    type Error = AddressRangeError;

    fn try_from(value: DeviceAddress10) -> (r: Result<Self, Self::Error>) {
        let inner = value.into_inner();
        if inner < 0x80u16 {
            Ok(DeviceAddress7(inner as u8))
        } else {
            Err(AddressRangeError)
        }
    }
}

impl vstd::std_specs::convert::TryFromSpecImpl<DeviceAddress10> for DeviceAddress7 {
    open spec fn obeys_try_from_spec() -> bool {
        true
    }

    open spec fn try_from_spec(v: DeviceAddress10) -> Result<Self, Self::Error> {
        if v.value() < 0x80u16 {
            Ok(DeviceAddress7(v.value() as u8))
        } else {
            Err(AddressRangeError)
        }
    }
}

/// Narrowing a 10-bit device address fails exactly when the source value
/// has bits set beyond the 8-bit target width.
impl TryFrom<DeviceAddress10> for DeviceAddress8 {
    type Error = AddressRangeError;

    fn try_from(value: DeviceAddress10) -> (r: Result<Self, Self::Error>) {
        let inner = value.into_inner();
        if inner <= 0xffu16 {
            Ok(DeviceAddress8(inner as u8))
        } else {
            Err(AddressRangeError)
        }
    }
}

impl vstd::std_specs::convert::TryFromSpecImpl<DeviceAddress10> for DeviceAddress8 {
    open spec fn obeys_try_from_spec() -> bool {
        true
    }

    open spec fn try_from_spec(v: DeviceAddress10) -> Result<Self, Self::Error> {
        if v.value() <= 0xffu16 {
            Ok(DeviceAddress8(v.value() as u8))
        } else {
            Err(AddressRangeError)
        }
    }
}

impl core::ops::Deref for DeviceAddress7 {
    type Target = u8;

    fn deref(&self) -> (r: &u8)
        ensures
            r == &self.0,
    {
        &self.0
    }
}

impl core::ops::Deref for DeviceAddress10 {
    type Target = u16;

    fn deref(&self) -> (r: &u16)
        ensures
            r == &self.0,
    {
        &self.0
    }
}

/// Masking law: constructing a 10-bit device address twice over is the same
/// as constructing it once.
pub proof fn lemma_device10_new_idempotent(address: u16)
    ensures
        DeviceAddress10::spec_new(DeviceAddress10::spec_new(address).value())
            == DeviceAddress10::spec_new(address),
{
    assert((address & 0b0000_0011_1111_1111u16) & 0b0000_0011_1111_1111u16
        == address & 0b0000_0011_1111_1111u16) by (bit_vector);
}

/// The device address types carry exactly the bit widths they declare.
pub proof fn lemma_device_address_widths()
    ensures
        <DeviceAddress7 as DeviceAddress>::ADDR_BITS == 7,
        <DeviceAddress8 as DeviceAddress>::ADDR_BITS == 8,
        <DeviceAddress10 as DeviceAddress>::ADDR_BITS == 10,
{
}

/// Round-trip law: widening a valid 7-bit device address to ten bits and
/// narrowing it back always succeeds and returns the original address.
pub proof fn lemma_device7_round_trip(a: DeviceAddress7)
    requires
        a.well_formed(),
    ensures
        <DeviceAddress7 as vstd::std_specs::convert::TryFromSpec<DeviceAddress10>>::try_from_spec(
            <DeviceAddress10 as vstd::std_specs::convert::FromSpec<DeviceAddress7>>::from_spec(a),
        ) == Ok::<DeviceAddress7, AddressRangeError>(a),
{
}

/// Round-trip law: widening an 8-bit device address to ten bits and
/// narrowing it back always succeeds and returns the original address.
pub proof fn lemma_device8_round_trip(a: DeviceAddress8)
    ensures
        <DeviceAddress8 as vstd::std_specs::convert::TryFromSpec<DeviceAddress10>>::try_from_spec(
            <DeviceAddress10 as vstd::std_specs::convert::FromSpec<DeviceAddress8>>::from_spec(a),
        ) == Ok::<DeviceAddress8, AddressRangeError>(a),
{
}

/// Narrowing rejection law: converting a 10-bit device address whose value
/// exceeds the 7-bit maximum fails with a range error.
pub proof fn lemma_device7_narrow_rejects(a: DeviceAddress10)
    requires
        a.value() > 0x7fu16,
    ensures
        <DeviceAddress7 as vstd::std_specs::convert::TryFromSpec<DeviceAddress10>>::try_from_spec(
            a,
        ) == Err::<DeviceAddress7, AddressRangeError>(AddressRangeError),
{
}

/// Narrowing rejection law: converting a 10-bit device address whose value
/// exceeds the 8-bit maximum fails with a range error.
pub proof fn lemma_device8_narrow_rejects(a: DeviceAddress10)
    requires
        a.value() > 0xffu16,
    ensures
        <DeviceAddress8 as vstd::std_specs::convert::TryFromSpec<DeviceAddress10>>::try_from_spec(
            a,
        ) == Err::<DeviceAddress8, AddressRangeError>(AddressRangeError),
{
}

} // verus!
