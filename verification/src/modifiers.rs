use vstd::prelude::*;

verus! {

/// The bit of each modifier flag.
pub const SHIFT_BIT: u16 = 2;
pub const ALT_BIT: u16 = 4;
pub const CTRL_BIT: u16 = 8;
pub const SUPER_BIT: u16 = 16;
pub const LEFT_ALT_BIT: u16 = 32;
pub const RIGHT_ALT_BIT: u16 = 64;
pub const LEADER_BIT: u16 = 128;
pub const LEFT_CTRL_BIT: u16 = 256;
pub const RIGHT_CTRL_BIT: u16 = 512;
pub const LEFT_SHIFT_BIT: u16 = 1024;
pub const RIGHT_SHIFT_BIT: u16 = 2048;
pub const ENHANCED_KEY_BIT: u16 = 4096;

/// A set of keyboard modifiers, held as a bit set.
#[derive(Clone, Copy, Debug, PartialEq, Eq, Structural)]
pub struct Modifiers {
    pub bits: u16,
}

impl Modifiers {
    /// No modifier at all.
    pub fn none() -> (m: Modifiers)
        ensures
            m.bits == 0,
    {
        Modifiers { bits: 0 }
    }

    pub fn shift() -> (m: Modifiers)
        ensures
            m.bits == SHIFT_BIT,
    {
        Modifiers { bits: SHIFT_BIT }
    }

    pub fn alt() -> (m: Modifiers)
        ensures
            m.bits == ALT_BIT,
    {
        Modifiers { bits: ALT_BIT }
    }

    pub fn ctrl() -> (m: Modifiers)
        ensures
            m.bits == CTRL_BIT,
    {
        Modifiers { bits: CTRL_BIT }
    }

    /// The SUPER (CMD, Windows) modifier.
    pub fn super_key() -> (m: Modifiers)
        ensures
            m.bits == SUPER_BIT,
    {
        Modifiers { bits: SUPER_BIT }
    }

    /// The flags of both sets.
    pub fn union(self, other: Modifiers) -> (m: Modifiers)
        ensures
            m.bits == self.bits | other.bits,
    {
        Modifiers { bits: self.bits | other.bits }
    }

    /// Whether every flag of `other` is set in `self`.
    pub fn contains(&self, other: Modifiers) -> (b: bool)
        ensures
            b == (self.bits & other.bits == other.bits),
    {
        self.bits & other.bits == other.bits
    }

    /// The flags of `self` that are not in `other`.
    pub fn difference(self, other: Modifiers) -> (m: Modifiers)
        ensures
            m.bits == self.bits & !other.bits,
    {
        Modifiers { bits: self.bits & !other.bits }
    }
}

} // verus!
