//! A runtime value describing a register size in bytes.

use vstd::prelude::*;

verus! {

/// A register size, counted in bytes; always at least one byte.
#[derive(Copy, Clone, Debug, PartialEq, Eq, Structural)]
pub struct RegisterSize(pub usize);

impl RegisterSize {
    /// The register size in bytes, as a mathematical value.
    pub open spec fn value(self) -> usize {
        self.0
    }

    /// Well-formedness: a register is at least one byte wide.
    pub open spec fn well_formed(self) -> bool {
        self.value() >= 1
    }

    /// Initializes a new instance of the [`RegisterSize`] type.
    pub fn new(bytes: usize) -> (r: Self)
        requires
            bytes >= 1,
        ensures
            r.value() == bytes,
            r.well_formed(),
    {
        RegisterSize(bytes)
    }

    /// A register with a size of 8 bits (1 byte).
    pub fn r1() -> (r: Self)
        ensures
            r.value() == 1,
    {
        Self::new(1)
    }

    /// A register with a size of 16 bits (2 bytes).
    pub fn r2() -> (r: Self)
        ensures
            r.value() == 2,
    {
        Self::r1().saturating_add(1)
    }

    /// A register with a size of 24 bits (3 bytes).
    pub fn r3() -> (r: Self)
        ensures
            r.value() == 3,
    {
        Self::r2().saturating_add(1)
    }

    /// A register with a size of 32 bits (4 bytes).
    pub fn r4() -> (r: Self)
        ensures
            r.value() == 4,
    {
        Self::r3().saturating_add(1)
    }

    /// A register with a size of 64 bits (8 bytes).
    pub fn r8() -> (r: Self)
        ensures
            r.value() == 8,
    {
        let r4 = Self::r4();
        r4.saturating_add(r4.bytes())
    }

    /// A register with a size of 128 bits (16 bytes).
    pub fn r16() -> (r: Self)
        ensures
            r.value() == 16,
    {
        let r8 = Self::r8();
        r8.saturating_add(r8.bytes())
    }

    /// A register with a size of 256 bits (32 bytes).
    pub fn r32() -> (r: Self)
        ensures
            r.value() == 32,
    {
        let r16 = Self::r16();
        r16.saturating_add(r16.bytes())
    }

    /// A register with a size of 512 bits (64 bytes).
    pub fn r64() -> (r: Self)
        ensures
            r.value() == 64,
    {
        let r32 = Self::r32();
        r32.saturating_add(r32.bytes())
    }

    /// Consumes self and returns a `usize` indicating the register size
    /// in bytes.
    pub fn into_usize(self) -> (r: usize)
        ensures
            r == self.value(),
    {
        self.0
    }

    /// Consumes self and returns the register size in bytes.
    pub fn into_inner(self) -> (r: usize)
        ensures
            r == self.value(),
    {
        self.0
    }

    /// Gets the register size in bytes.
    pub fn bytes(&self) -> (r: usize)
        ensures
            r == self.value(),
    {
        self.into_usize()
    }

    /// Gets the register size in bits.
    pub fn bits(&self) -> (r: usize)
        requires
            self.value() * 8 <= usize::MAX,
        ensures
            r == self.value() * 8,
    {
        self.bytes() * 8
    }

    /// Renders the size as the byte count, a `byte`/`bytes` unit, then the
    /// bit count in parentheses.
    pub fn debug_string(&self) -> (s: String)
        requires
            self.value() * 8 <= usize::MAX,
        ensures
            s@ == crate::text::size_text(self.value() as nat, (self.value() * 8) as nat),
    {
        crate::text::size_string(self.bytes(), self.bits())
    }

    /// The size that incrementing by the specified number of bytes yields:
    /// the sum, clamped at the native integer maximum.
    pub open spec fn spec_saturating_add(self, bytes: usize) -> RegisterSize {
        if self.value() + bytes > usize::MAX {
            RegisterSize(usize::MAX)
        } else {
            RegisterSize((self.value() + bytes) as usize)
        }
    }

    /// Increments the register size by the specified number of bytes,
    /// clamping at the native integer maximum; never panics, and never
    /// decreases the byte count.
    pub fn saturating_add(self, bytes: usize) -> (r: RegisterSize)
        ensures
            r == self.spec_saturating_add(bytes),
            r.value() >= self.value(),
            self.well_formed() ==> r.well_formed(),
    {
        RegisterSize(self.0.saturating_add(bytes))
    }
}

/// Monotonicity law: however many times the size is incremented, and by
/// whatever byte counts, the result never falls below where it started.
pub proof fn lemma_saturating_add_chain(start: RegisterSize, increments: Seq<usize>)
    ensures
        increments.fold_left(
            start,
            (|acc: RegisterSize, bytes: usize| acc.spec_saturating_add(bytes)),
        ).value() >= start.value(),
    decreases increments.len(),
{
    if increments.len() > 0 {
        lemma_saturating_add_chain(start, increments.drop_last());
    }
}

} // verus!
