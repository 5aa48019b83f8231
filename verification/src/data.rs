//! Narrow numeric types shared by the decoder and the execution engine.

use vstd::prelude::*;

verus! {

/// 12-bit unsigned integer representing a memory address.
pub type Addr = u16;

/// 4-bit unsigned integer.
#[derive(Clone, Copy, Debug, PartialEq, Eq, Structural, PartialOrd, Ord)]
pub struct Nibble(u8);

impl View for Nibble {
    type V = u8;

    /// The number this nibble stands for.
    closed spec fn view(&self) -> u8 {
        self.0
    }
}

impl Nibble {
    #[verifier::type_invariant]
    spec fn in_range(self) -> bool {
        self.0 <= 0x0F
    }

    /// The nibble whose value is `value`, as a specification-level constructor.
    pub closed spec fn of(value: u8) -> Nibble {
        Nibble(value)
    }

    /// Constructs a [Nibble] from the high 4 bits in a [u8].
    pub fn from_high(value: u8) -> (n: Nibble)
        ensures
            n == Nibble::of(value / 16),
            n@ == value / 16,
    {
        assert((value >> 4) & 0x0F == value / 16) by (bit_vector);
        assert((value >> 4) & 0x0F <= 0x0F) by (bit_vector);
        Nibble((value >> 4) & 0x0F)
    }

    /// Constructs a [Nibble] from the low 4 bits in a [u8].
    pub fn from_low(value: u8) -> (n: Nibble)
        ensures
            n == Nibble::of(value % 16),
            n@ == value % 16,
    {
        assert(value & 0x0F == value % 16) by (bit_vector);
        Nibble(value & 0x0F)
    }

    /// Converts this 4-bit value into an [u8].
    #[inline]
    pub fn as_u8(&self) -> (value: u8)
        ensures
            value == self@,
            value <= 0x0F,
    {
        proof {
            use_type_invariant(self);
        }
        self.0
    }

    /// Converts this 4-bit value into a [usize].
    #[inline]
    pub fn as_usize(&self) -> (value: usize)
        ensures
            value == self@,
            value <= 0x0F,
    {
        proof {
            use_type_invariant(self);
        }
        self.0 as usize
    }
}

/// The value of a nibble built from a number is that number.
pub broadcast proof fn lemma_view_of(value: u8)
    ensures
        #[trigger] Nibble::of(value)@ == value,
{
}

/// A nibble is determined by its value.
pub broadcast proof fn lemma_of_view(n: Nibble)
    ensures
        #[trigger] Nibble::of(n@) == n,
{
}

pub broadcast group group_nibble {
    lemma_view_of,
    lemma_of_view,
}

/// Identifies one of the sixteen general-purpose registers.
#[derive(Clone, Copy, Debug, PartialEq, Eq, Structural)]
pub struct Register(pub Nibble);

} // verus!
