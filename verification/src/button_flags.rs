//! A set of Wii remote buttons, as the bits of the 16-bit button word that
//! the wiiuse C library keeps for each remote.

use vstd::prelude::*;

verus! {

/// Every bit that names a button.
pub const ALL_BUTTON_BITS: u16 = 0x9F1F;

/// Each single-button bit names a button.
proof fn lemma_button_bits_valid()
    by (bit_vector)
    ensures
        0x0001u16 & !ALL_BUTTON_BITS == 0,
        0x0002u16 & !ALL_BUTTON_BITS == 0,
        0x0004u16 & !ALL_BUTTON_BITS == 0,
        0x0008u16 & !ALL_BUTTON_BITS == 0,
        0x0010u16 & !ALL_BUTTON_BITS == 0,
        0x0100u16 & !ALL_BUTTON_BITS == 0,
        0x0200u16 & !ALL_BUTTON_BITS == 0,
        0x0400u16 & !ALL_BUTTON_BITS == 0,
        0x0800u16 & !ALL_BUTTON_BITS == 0,
        0x1000u16 & !ALL_BUTTON_BITS == 0,
        0x8000u16 & !ALL_BUTTON_BITS == 0,
{
}

/// A set of buttons. Each button is one bit of the button word; bits that
/// name no button are never set.
#[derive(Debug, Clone, Copy, PartialEq, Eq, Structural)]
pub struct WiimoteButton {
    bits: u16,
}

impl WiimoteButton {
    /// The set that holds only the d-pad "left" button.
    pub fn left() -> (s: Self)
        ensures
            s.spec_bits() == 0x0001,
    {
        proof {
            lemma_button_bits_valid();
        }
        WiimoteButton { bits: 0x0001 }
    }

    /// The set that holds only the d-pad "right" button.
    pub fn right() -> (s: Self)
        ensures
            s.spec_bits() == 0x0002,
    {
        proof {
            lemma_button_bits_valid();
        }
        WiimoteButton { bits: 0x0002 }
    }

    /// The set that holds only the d-pad "down" button.
    pub fn down() -> (s: Self)
        ensures
            s.spec_bits() == 0x0004,
    {
        proof {
            lemma_button_bits_valid();
        }
        WiimoteButton { bits: 0x0004 }
    }

    /// The set that holds only the d-pad "up" button.
    pub fn up() -> (s: Self)
        ensures
            s.spec_bits() == 0x0008,
    {
        proof {
            lemma_button_bits_valid();
        }
        WiimoteButton { bits: 0x0008 }
    }

    /// The set that holds only the "+" button.
    pub fn plus() -> (s: Self)
        ensures
            s.spec_bits() == 0x0010,
    {
        proof {
            lemma_button_bits_valid();
        }
        WiimoteButton { bits: 0x0010 }
    }

    /// The set that holds only the "2" button.
    pub fn two() -> (s: Self)
        ensures
            s.spec_bits() == 0x0100,
    {
        proof {
            lemma_button_bits_valid();
        }
        WiimoteButton { bits: 0x0100 }
    }

    /// The set that holds only the "1" button.
    pub fn one() -> (s: Self)
        ensures
            s.spec_bits() == 0x0200,
    {
        proof {
            lemma_button_bits_valid();
        }
        WiimoteButton { bits: 0x0200 }
    }

    /// The set that holds only the "B" button.
    pub fn b() -> (s: Self)
        ensures
            s.spec_bits() == 0x0400,
    {
        proof {
            lemma_button_bits_valid();
        }
        WiimoteButton { bits: 0x0400 }
    }

    /// The set that holds only the "A" button.
    pub fn a() -> (s: Self)
        ensures
            s.spec_bits() == 0x0800,
    {
        proof {
            lemma_button_bits_valid();
        }
        WiimoteButton { bits: 0x0800 }
    }

    /// The set that holds only the "-" button.
    pub fn minus() -> (s: Self)
        ensures
            s.spec_bits() == 0x1000,
    {
        proof {
            lemma_button_bits_valid();
        }
        WiimoteButton { bits: 0x1000 }
    }

    /// The set that holds only the "Home" button.
    pub fn home() -> (s: Self)
        ensures
            s.spec_bits() == 0x8000,
    {
        proof {
            lemma_button_bits_valid();
        }
        WiimoteButton { bits: 0x8000 }
    }

    /// Only bits that name a button are set.
    #[verifier::type_invariant]
    closed spec fn wf(self) -> bool {
        self.bits & !ALL_BUTTON_BITS == 0
    }

    /// The bits of the set.
    pub closed spec fn spec_bits(self) -> u16 {
        self.bits
    }

    /// The bits of the set; no bit outside `ALL_BUTTON_BITS` is set.
    pub fn bits(&self) -> (b: u16)
        ensures
            b == self.spec_bits(),
            b & !ALL_BUTTON_BITS == 0,
    {
        proof {
            use_type_invariant(self);
        }
        self.bits
    }

    /// The set of no button.
    pub fn empty() -> (s: Self)
        ensures
            s.spec_bits() == 0,
    {
        proof {
            assert(0u16 & !ALL_BUTTON_BITS == 0) by (bit_vector);
        }
        WiimoteButton { bits: 0 }
    }

    /// The set of every button.
    pub fn all() -> (s: Self)
        ensures
            s.spec_bits() == ALL_BUTTON_BITS,
    {
        proof {
            assert(ALL_BUTTON_BITS & !ALL_BUTTON_BITS == 0) by (bit_vector);
        }
        WiimoteButton { bits: ALL_BUTTON_BITS }
    }

    /// The set with exactly the given bits, or `None` when a bit names no
    /// button.
    pub fn from_bits(bits: u16) -> (s: Option<Self>)
        ensures
            s is Some <==> bits & !ALL_BUTTON_BITS == 0,
            s matches Some(set) ==> set.spec_bits() == bits,
    {
        if bits & !ALL_BUTTON_BITS == 0 {
            Some(WiimoteButton { bits })
        } else {
            None
        }
    }

    /// The set of the given bits that name a button; the others are
    /// dropped.
    pub fn from_bits_truncate(bits: u16) -> (s: Self)
        ensures
            s.spec_bits() == bits & ALL_BUTTON_BITS,
    {
        proof {
            assert((bits & ALL_BUTTON_BITS) & !ALL_BUTTON_BITS == 0) by (bit_vector);
        }
        WiimoteButton { bits: bits & ALL_BUTTON_BITS }
    }

    /// Whether the set holds no button.
    pub fn is_empty(&self) -> (b: bool)
        ensures
            b == (self.spec_bits() == 0),
    {
        self.bits == 0
    }

    /// Whether every button of `other` is in this set.
    pub fn contains(&self, other: Self) -> (b: bool)
        ensures
            b == (self.spec_bits() & other.spec_bits() == other.spec_bits()),
    {
        self.bits & other.bits == other.bits
    }

    /// Whether this set and `other` share a button.
    pub fn intersects(&self, other: Self) -> (b: bool)
        ensures
            b == (self.spec_bits() & other.spec_bits() != 0),
    {
        self.bits & other.bits != 0
    }

    /// Whether the set holds every button.
    pub fn is_all(&self) -> (b: bool)
        ensures
            b == (self.spec_bits() == ALL_BUTTON_BITS),
    {
        self.bits == ALL_BUTTON_BITS
    }

    /// The buttons that are in both this set and `other`.
    pub fn intersection(self, other: Self) -> (s: Self)
        ensures
            s.spec_bits() == self.spec_bits() & other.spec_bits(),
    {
        proof {
            use_type_invariant(&self);
            let (x, y) = (self.bits, other.bits);
            assert((x & y) & !ALL_BUTTON_BITS == 0) by (bit_vector)
                requires
                    x & !ALL_BUTTON_BITS == 0,
            ;
        }
        WiimoteButton { bits: self.bits & other.bits }
    }

    /// The buttons that are in this set but not in `other`.
    pub fn difference(self, other: Self) -> (s: Self)
        ensures
            s.spec_bits() == self.spec_bits() & !other.spec_bits(),
    {
        proof {
            use_type_invariant(&self);
            let (x, y) = (self.bits, other.bits);
            assert((x & !y) & !ALL_BUTTON_BITS == 0) by (bit_vector)
                requires
                    x & !ALL_BUTTON_BITS == 0,
            ;
        }
        WiimoteButton { bits: self.bits & !other.bits }
    }

    /// Adds the buttons of `other` to this set.
    pub fn insert(&mut self, other: Self)
        ensures
            final(self).spec_bits() == old(self).spec_bits() | other.spec_bits(),
    {
        let s = self.union(other);
        *self = s;
    }

    /// Removes the buttons of `other` from this set.
    pub fn remove(&mut self, other: Self)
        ensures
            final(self).spec_bits() == old(self).spec_bits() & !other.spec_bits(),
    {
        let s = self.difference(other);
        *self = s;
    }

    /// The buttons that are in this set or in `other`.
    pub fn union(self, other: Self) -> (s: Self)
        ensures
            s.spec_bits() == self.spec_bits() | other.spec_bits(),
    {
        proof {
            use_type_invariant(&self);
            use_type_invariant(&other);
            let (x, y) = (self.bits, other.bits);
            assert((x | y) & !ALL_BUTTON_BITS == 0) by (bit_vector)
                requires
                    x & !ALL_BUTTON_BITS == 0,
                    y & !ALL_BUTTON_BITS == 0,
            ;
        }
        WiimoteButton { bits: self.bits | other.bits }
    }
}

/// A union holds both of its parts, and it is the same whichever part
/// comes first.
pub proof fn lemma_union_contains_parts(x: u16, y: u16)
    by (bit_vector)
    ensures
        (x | y) & x == x,
        (x | y) & y == y,
        x | y == y | x,
{
}

/// Truncating the bits of a set gives the same bits back, so
/// `from_bits_truncate(s.bits())` is `s`; and the set of every button
/// contains each set.
pub proof fn lemma_valid_bits_round_trip(b: u16)
    by (bit_vector)
    requires
        b & !ALL_BUTTON_BITS == 0,
    ensures
        b & ALL_BUTTON_BITS == b,
        ALL_BUTTON_BITS & b == b,
{
}

} // verus!
