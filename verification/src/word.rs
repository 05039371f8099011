//! The 256-bit machine word that stack slots and recorded operations carry.

use vstd::prelude::*;

verus! {

/// A 256-bit machine word, split into a low and a high 128-bit half.
#[derive(Clone, Copy, Debug, PartialEq, Eq, Hash, Structural)]
pub struct Word {
    /// The low 128 bits.
    pub lo: u128,
    /// The high 128 bits.
    pub hi: u128,
}

/// The word that holds a 64-bit value, widened.
pub open spec fn word_of_u64(v: u64) -> Word {
    Word { lo: v as u128, hi: 0 }
}

impl Word {
    /// The unbounded integer this word stands for.
    pub open spec fn as_nat(self) -> nat {
        self.lo as nat + self.hi as nat * 0x1_0000_0000_0000_0000_0000_0000_0000_0000
    }

    /// Widen a 64-bit value into a word.
    pub fn from_u64(v: u64) -> (w: Word)
        ensures
            w == word_of_u64(v),
            w.as_nat() == v,
    {
        Word { lo: v as u128, hi: 0 }
    }

    /// The word of value zero.
    pub fn zero() -> (w: Word)
        ensures
            w == word_of_u64(0),
            w.as_nat() == 0,
    {
        Word { lo: 0, hi: 0 }
    }

    /// The word of value one.
    pub fn one() -> (w: Word)
        ensures
            w == word_of_u64(1),
            w.as_nat() == 1,
    {
        Word { lo: 1, hi: 0 }
    }
}

} // verus!
