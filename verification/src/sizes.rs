//! Traits and types to identify register sizes.
//!
//! Each size marker is a zero-sized compile-time tag carrying a fixed byte
//! count and the derived bit count.

use vstd::prelude::*;

verus! {

/// Accesses register size information.
pub trait RegisterSizeInformation: Sized {
    /// The register size in bytes.
    const BYTES: usize;

    /// The register size in bits.
    const BITS: usize;

    /// Gets the register size in bytes.
    fn bytes(&self) -> (r: usize)
        ensures
            r == Self::BYTES,
    {
        Self::BYTES
    }

    /// Gets the register size in bits.
    fn bits(&self) -> (r: usize)
        ensures
            r == Self::BITS,
    {
        Self::BITS
    }

    /// Renders the size as the byte count, a `byte`/`bytes` unit, then the
    /// bit count in parentheses.
    fn debug_string(&self) -> (s: String)
        ensures
            s@ == crate::text::size_text(Self::BYTES as nat, Self::BITS as nat),
    {
        crate::text::size_string(Self::BYTES, Self::BITS)
    }
}

/// A register with a size of 8 bits (1 byte).
#[derive(Copy, Clone, Debug, Eq, PartialEq, Structural)]
pub struct R1;

impl RegisterSizeInformation for R1 {
    const BYTES: usize = 1;

    const BITS: usize = 8;
}

/// A register with a size of 16 bits (2 bytes).
#[derive(Copy, Clone, Debug, Eq, PartialEq, Structural)]
pub struct R2;

impl RegisterSizeInformation for R2 {
    const BYTES: usize = 2;

    const BITS: usize = 16;
}

/// A register with a size of 24 bits (3 bytes).
#[derive(Copy, Clone, Debug, Eq, PartialEq, Structural)]
pub struct R3;

impl RegisterSizeInformation for R3 {
    const BYTES: usize = 3;

    const BITS: usize = 24;
}

/// A register with a size of 32 bits (4 bytes).
#[derive(Copy, Clone, Debug, Eq, PartialEq, Structural)]
pub struct R4;

impl RegisterSizeInformation for R4 {
    const BYTES: usize = 4;

    const BITS: usize = 32;
}

/// A register with a size of 64 bits (8 bytes).
#[derive(Copy, Clone, Debug, Eq, PartialEq, Structural)]
pub struct R8;

impl RegisterSizeInformation for R8 {
    const BYTES: usize = 8;

    const BITS: usize = 64;
}

/// A register with a size of 128 bits (16 bytes).
#[derive(Copy, Clone, Debug, Eq, PartialEq, Structural)]
pub struct R16;

impl RegisterSizeInformation for R16 {
    const BYTES: usize = 16;

    const BITS: usize = 128;
}

/// A register with a size of 256 bits (32 bytes).
#[derive(Copy, Clone, Debug, Eq, PartialEq, Structural)]
pub struct R32;

impl RegisterSizeInformation for R32 {
    const BYTES: usize = 32;

    const BITS: usize = 256;
}

/// A register with a size of 512 bits (64 bytes).
#[derive(Copy, Clone, Debug, Eq, PartialEq, Structural)]
pub struct R64;

impl RegisterSizeInformation for R64 {
    const BYTES: usize = 64;

    const BITS: usize = 512;
}

/// Every built-in size marker carries exactly the byte and bit counts its
/// name promises.
pub proof fn lemma_builtin_marker_widths()
    ensures
        R1::BYTES == 1 && R1::BITS == 8,
        R2::BYTES == 2 && R2::BITS == 16,
        R3::BYTES == 3 && R3::BITS == 24,
        R4::BYTES == 4 && R4::BITS == 32,
        R8::BYTES == 8 && R8::BITS == 64,
        R16::BYTES == 16 && R16::BITS == 128,
        R32::BYTES == 32 && R32::BITS == 256,
        R64::BYTES == 64 && R64::BITS == 512,
{
}

/// Every built-in size marker satisfies `BITS == BYTES * 8`.
pub proof fn lemma_builtin_markers_bits_consistent()
    ensures
        R1::BITS == R1::BYTES * 8,
        R2::BITS == R2::BYTES * 8,
        R3::BITS == R3::BYTES * 8,
        R4::BITS == R4::BYTES * 8,
        R8::BITS == R8::BYTES * 8,
        R16::BITS == R16::BYTES * 8,
        R32::BITS == R32::BYTES * 8,
        R64::BITS == R64::BYTES * 8,
{
}

} // verus!
