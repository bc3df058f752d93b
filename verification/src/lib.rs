//! Generic, embedded-friendly hardware register support: traits and value
//! types for describing bus device addresses, in-device register addresses,
//! register widths, and the bit-level serialization contract between a
//! structured register value and its raw representation.

use vstd::prelude::*;

pub mod i2c;
pub mod register_address;
pub mod register_size;
pub mod sizes;
pub mod spi;
pub mod text;

pub use crate::register_size::RegisterSize;

verus! {

use crate::sizes::RegisterSizeInformation;

/// A generic hardware register of specified byte size.
pub trait HardwareRegister<Size> where Size: RegisterSizeInformation {
    /// The size of the register in bytes.
    const SIZE_BYTES: usize = Size::BYTES;

    /// The size of the register in bits.
    const SIZE_BITS: usize = Size::BITS;
}

/// A writable hardware register of specified byte size.
///
/// Adds no methods: it exists as a capability flag that other traits
/// can require.
pub trait WritableHardwareRegister<Size>: HardwareRegister<Size> where
    Size: RegisterSizeInformation,
 {
}

/// Conversion to bits/bytes.
pub trait ToBits {
    /// The target type.
    type Target;

    /// Converts the value into an underlying bit/byte representation.
    fn to_bits(&self) -> Self::Target;
}

/// Conversion from bits/bytes.
pub trait FromBits<B>: Sized {
    /// Converts an underlying bit/byte representation into the value.
    ///
    /// Delegates to [`FromBits::from_bits_ref`] by default, so an
    /// implementer supplies only that method.
    fn from_bits(value: B) -> Self {
        Self::from_bits_ref(&value)
    }

    /// Converts an underlying bit/byte representation into the value.
    fn from_bits_ref(value: &B) -> Self;
}

/// The error returned when a narrowing address conversion is given a value
/// with bits set beyond the target type's address width.
#[derive(Clone, Copy, Debug, PartialEq, Eq, Structural)]
pub struct AddressRangeError;

} // verus!
