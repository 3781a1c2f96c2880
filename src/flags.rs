use vstd::prelude::*;

verus! {

/// Bit of the zero flag.
pub const ZERO_BIT: u8 = 0x80;

/// Bit of the subtract (negative) flag.
pub const NEGATIVE_BIT: u8 = 0x40;

/// Bit of the half-carry flag.
pub const HALFCARRY_BIT: u8 = 0x20;

/// Bit of the carry flag.
pub const CARRY_BIT: u8 = 0x10;

/// The status flags packed into one byte; the low four bits are always zero.
#[derive(Clone, Copy, Debug, PartialEq, Eq, Structural)]
pub struct Flags {
    pub bits: u8,
}

/// A flag byte is well formed when only the four flag bits may be set.
pub open spec fn flag_bits_ok(b: u8) -> bool {
    b & 0x0f == 0
}

impl Flags {
    pub open spec fn wf(self) -> bool {
        flag_bits_ok(self.bits)
    }

    /// The raw flag byte.
    pub fn bits(&self) -> (r: u8)
        ensures
            r == self.bits,
    {
        self.bits
    }

    /// Builds a flag set from a byte, dropping the four unused low bits.
    pub fn from_bits_truncate(b: u8) -> (r: Flags)
        ensures
            r.bits == b & 0xf0,
            r.wf(),
    {
        assert((b & 0xf0) & 0x0f == 0) by (bit_vector);
        Flags { bits: b & 0xf0 }
    }

    /// No flag set.
    pub fn empty() -> (r: Flags)
        ensures
            r.bits == 0,
            r.wf(),
    {
        assert(0u8 & 0x0f == 0) by (bit_vector);
        Flags { bits: 0 }
    }

    pub fn zero() -> (r: Flags)
        ensures
            r.bits == ZERO_BIT,
            r.wf(),
    {
        assert(0x80u8 & 0x0f == 0) by (bit_vector);
        Flags { bits: ZERO_BIT }
    }

    pub fn negative() -> (r: Flags)
        ensures
            r.bits == NEGATIVE_BIT,
            r.wf(),
    {
        assert(0x40u8 & 0x0f == 0) by (bit_vector);
        Flags { bits: NEGATIVE_BIT }
    }

    pub fn halfcarry() -> (r: Flags)
        ensures
            r.bits == HALFCARRY_BIT,
            r.wf(),
    {
        assert(0x20u8 & 0x0f == 0) by (bit_vector);
        Flags { bits: HALFCARRY_BIT }
    }

    pub fn carry() -> (r: Flags)
        ensures
            r.bits == CARRY_BIT,
            r.wf(),
    {
        assert(0x10u8 & 0x0f == 0) by (bit_vector);
        Flags { bits: CARRY_BIT }
    }

    /// Whether every bit of `other` is set here.
    pub fn contains(&self, other: Flags) -> (r: bool)
        ensures
            r == (self.bits & other.bits == other.bits),
    {
        self.bits & other.bits == other.bits
    }

    /// The flag set with `other`'s bits added.
    pub fn union(self, other: Flags) -> (r: Flags)
        ensures
            r.bits == self.bits | other.bits,
            self.wf() && other.wf() ==> r.wf(),
    {
        let b = self.bits | other.bits;
        proof {
            let x = self.bits;
            let y = other.bits;
            assert(x & 0x0f == 0 && y & 0x0f == 0 ==> (x | y) & 0x0f == 0) by (bit_vector);
        }
        Flags { bits: b }
    }

    /// The flag set with `other`'s bits taken out.
    pub fn difference(self, other: Flags) -> (r: Flags)
        ensures
            r.bits == self.bits & !other.bits,
            self.wf() ==> r.wf(),
    {
        let b = self.bits & !other.bits;
        proof {
            let x = self.bits;
            let y = other.bits;
            assert(x & 0x0f == 0 ==> (x & !y) & 0x0f == 0) by (bit_vector);
        }
        Flags { bits: b }
    }

    /// The four flag bits that are not set here (the complement within the flags).
    pub fn complement(self) -> (r: Flags)
        ensures
            r.bits == !self.bits & 0xf0,
            r.wf(),
    {
        let b = !self.bits & 0xf0;
        proof {
            let x = self.bits;
            assert((!x & 0xf0) & 0x0f == 0) by (bit_vector);
        }
        Flags { bits: b }
    }
}

} // verus!
