//! Field elements and words of the Miden base field, held as plain integers.
use vstd::prelude::*;

verus! {

/// The prime `p = 2^64 - 2^32 + 1` of the Miden base field.
pub const FELT_MODULUS: u64 = 0xffff_ffff_0000_0001;

/// A value is a canonical field element when it is below the modulus.
pub open spec fn is_felt(x: u64) -> bool {
    x < FELT_MODULUS
}

/// The field element that an integer stands for (`Felt::new`): its residue modulo `p`.
pub open spec fn felt_of(x: u64) -> u64 {
    (x % FELT_MODULUS) as u64
}

/// Reduces a `u64` into the field.
pub fn felt_new(x: u64) -> (r: u64)
    ensures
        r == felt_of(x),
        is_felt(r),
{
    x % FELT_MODULUS
}

/// Four field elements, the unit of storage keys, serial numbers and assets.
#[derive(Clone, Copy, Debug, PartialEq, Eq, Structural)]
pub struct Word {
    pub w0: u64,
    pub w1: u64,
    pub w2: u64,
    pub w3: u64,
}

impl Word {
    pub open spec fn is_canonical(self) -> bool {
        is_felt(self.w0) && is_felt(self.w1) && is_felt(self.w2) && is_felt(self.w3)
    }

    /// Builds a word from four integers.
    pub fn new(w0: u64, w1: u64, w2: u64, w3: u64) -> (r: Word)
        ensures
            r == (Word { w0, w1, w2, w3 }),
    {
        Word { w0, w1, w2, w3 }
    }

    /// The all-zero word.
    pub fn zero() -> (r: Word)
        ensures
            r == (Word { w0: 0, w1: 0, w2: 0, w3: 0 }),
    {
        Word { w0: 0, w1: 0, w2: 0, w3: 0 }
    }
}

/// Compares two words element by element.
pub fn word_eq(a: &Word, b: &Word) -> (r: bool)
    ensures
        r == (*a == *b),
{
    a.w0 == b.w0 && a.w1 == b.w1 && a.w2 == b.w2 && a.w3 == b.w3
}

} // verus!
