//! In-device register address types at fixed, enforced bit widths.

use vstd::prelude::*;

verus! {

use crate::AddressRangeError;
use crate::text;

/// A register address.
pub trait RegisterAddress {
    /// The number of bits of the address.
    const ADDR_BITS: usize;

    /// Returns the number of bits in the address.
    fn addr_bits(&self) -> (r: usize)
        ensures
            r == Self::ADDR_BITS,
    {
        Self::ADDR_BITS
    }
}

/// Implements 8-bit register addresses.
impl RegisterAddress for u8 {
    const ADDR_BITS: usize = 8;
}

/// Implements 16-bit register addresses.
impl RegisterAddress for u16 {
    const ADDR_BITS: usize = 16;
}

/// An 8-bit register address.
#[derive(Copy, Clone, Debug, Eq, PartialEq, Ord, PartialOrd, Structural)]
pub struct RegisterAddress8(pub u8);

impl RegisterAddress8 {
    /// The stored address value, as a mathematical value.
    pub open spec fn value(self) -> u8 {
        self.0
    }

    /// Constructs a new [`RegisterAddress8`] from a specified value.
    ///
    /// The width matches the native integer width, so no masking is needed.
    pub fn new(address: u8) -> (r: Self)
        ensures
            r.value() == address,
    {
        RegisterAddress8(address)
    }

    /// Consumes self and returns the inner value.
    pub fn into_inner(self) -> (r: u8)
        ensures
            r == self.value(),
    {
        self.0
    }

    /// Renders the address as upper-case hexadecimal followed by the
    /// 8-bit zero-padded binary value in parentheses.
    pub fn debug_string(&self) -> (s: String)
        ensures
            s@ == text::address_text(self.value() as nat, 2, 8),
    {
        text::address_string(self.0 as usize, 2, 8)
    }
}

impl RegisterAddress for RegisterAddress8 {
    const ADDR_BITS: usize = 8;
}

impl From<u8> for RegisterAddress8 {
    fn from(value: u8) -> (r: Self) {
        RegisterAddress8(value)
    }
}

impl vstd::std_specs::convert::FromSpecImpl<u8> for RegisterAddress8 {
    open spec fn obeys_from_spec() -> bool {
        true
    }

    open spec fn from_spec(v: u8) -> RegisterAddress8 {
        RegisterAddress8(v)
    }
}

/// A 16-bit register address.
#[derive(Copy, Clone, Debug, Eq, PartialEq, Ord, PartialOrd, Structural)]
pub struct RegisterAddress16(pub u16);

impl RegisterAddress16 {
    /// The stored address value, as a mathematical value.
    pub open spec fn value(self) -> u16 {
        self.0
    }

    /// Constructs a new [`RegisterAddress16`] from a specified value.
    ///
    /// The width matches the native integer width, so no masking is needed.
    pub fn new(address: u16) -> (r: Self)
        ensures
            r.value() == address,
    {
        RegisterAddress16(address)
    }

    /// Consumes self and returns the inner value.
    pub fn into_inner(self) -> (r: u16)
        ensures
            r == self.value(),
    {
        self.0
    }

    /// Renders the address as upper-case hexadecimal followed by the
    /// 16-bit zero-padded binary value in parentheses.
    pub fn debug_string(&self) -> (s: String)
        ensures
            s@ == text::address_text(self.value() as nat, 4, 16),
    {
        text::address_string(self.0 as usize, 4, 16)
    }
}

impl RegisterAddress for RegisterAddress16 {
    const ADDR_BITS: usize = 16;
}

impl From<u8> for RegisterAddress16 {
    fn from(value: u8) -> (r: Self) {
        RegisterAddress16(value as u16)
    }
}

impl vstd::std_specs::convert::FromSpecImpl<u8> for RegisterAddress16 {
    open spec fn obeys_from_spec() -> bool {
        true
    }

    open spec fn from_spec(v: u8) -> RegisterAddress16 {
        RegisterAddress16(v as u16)
    }
}

/// The width matches the native integer width, so conversion from a raw
/// 16-bit value stores it whole, unmasked.
impl From<u16> for RegisterAddress16 {
    fn from(value: u16) -> (r: Self) {
        RegisterAddress16::new(value)
    }
}

impl vstd::std_specs::convert::FromSpecImpl<u16> for RegisterAddress16 {
    open spec fn obeys_from_spec() -> bool {
        true
    }

    open spec fn from_spec(v: u16) -> RegisterAddress16 {
        RegisterAddress16(v)
    }
}

/// Widening an 8-bit register address is total: every 8-bit address is a
/// valid 16-bit address.
impl From<RegisterAddress8> for RegisterAddress16 {
    fn from(value: RegisterAddress8) -> (r: Self) {
        RegisterAddress16(value.into_inner() as u16)
    }
}

impl vstd::std_specs::convert::FromSpecImpl<RegisterAddress8> for RegisterAddress16 {
    open spec fn obeys_from_spec() -> bool {
        true
    }

    open spec fn from_spec(v: RegisterAddress8) -> RegisterAddress16 {
        RegisterAddress16(v.value() as u16)
    }
}

/// Narrowing a 16-bit register address fails exactly when the source value
/// has bits set beyond the 8-bit target width.
impl TryFrom<RegisterAddress16> for RegisterAddress8 {
    type Error = AddressRangeError;

    fn try_from(value: RegisterAddress16) -> (r: Result<Self, Self::Error>) {
        let inner = value.into_inner();
        if inner <= 0xffu16 {
            Ok(RegisterAddress8(inner as u8))
        } else {
            Err(AddressRangeError)
        }
    }
}

impl vstd::std_specs::convert::TryFromSpecImpl<RegisterAddress16> for RegisterAddress8 {
    open spec fn obeys_try_from_spec() -> bool {
        true
    }

    open spec fn try_from_spec(v: RegisterAddress16) -> Result<Self, Self::Error> {
        if v.value() <= 0xffu16 {
            Ok(RegisterAddress8(v.value() as u8))
        } else {
            Err(AddressRangeError)
        }
    }
}

/// The register address types carry exactly the bit widths they declare.
pub proof fn lemma_register_address_widths()
    ensures
        <u8 as RegisterAddress>::ADDR_BITS == 8,
        <u16 as RegisterAddress>::ADDR_BITS == 16,
        <RegisterAddress8 as RegisterAddress>::ADDR_BITS == 8,
        <RegisterAddress16 as RegisterAddress>::ADDR_BITS == 16,
{
}

/// Round-trip law: widening an 8-bit register address to sixteen bits and
/// narrowing it back always succeeds and returns the original address.
pub proof fn lemma_register8_round_trip(a: RegisterAddress8)
    ensures
        <RegisterAddress8 as vstd::std_specs::convert::TryFromSpec<RegisterAddress16>>::try_from_spec(
            <RegisterAddress16 as vstd::std_specs::convert::FromSpec<RegisterAddress8>>::from_spec(a),
        ) == Ok::<RegisterAddress8, AddressRangeError>(a),
{
}

/// Narrowing rejection law: converting a 16-bit register address whose
/// value exceeds the 8-bit maximum fails with a range error.
pub proof fn lemma_register8_narrow_rejects(a: RegisterAddress16)
    requires
        a.value() > 0xffu16,
    ensures
        <RegisterAddress8 as vstd::std_specs::convert::TryFromSpec<RegisterAddress16>>::try_from_spec(
            a,
        ) == Err::<RegisterAddress8, AddressRangeError>(AddressRangeError),
{
}

} // verus!
