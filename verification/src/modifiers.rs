//! The set of keyboard modifiers that is held down.
//!
//! The set is kept as a bit mask in the layout of
//! `winit::keyboard::ModifiersState`, so that a value read from the windowing
//! system with `bits()` can be handed to this library unchanged.

use vstd::prelude::*;
use winit::keyboard::ModifiersState;

verus! {

/// The bit that stands for the control key in a modifier mask.
pub open spec fn control_bit() -> u32 {
    0x20
}

/// A set of keyboard modifiers, one bit per modifier.
#[derive(Debug, Clone, Copy, PartialEq, Eq, Structural)]
pub struct Modifiers {
    pub bits: u32,
}

/// Calls `ModifiersState::CONTROL.bits()`. winit declares the flag as
/// `0b100 << 3`; the contract states that value and nothing was proved of it.
#[verifier::external_body]
fn control_mask() -> (bits: u32)
    ensures
        bits == control_bit(),
{
    ModifiersState::CONTROL.bits()
}

/// Calls `ModifiersState::contains` on two masks taken over unchanged with
/// `ModifiersState::from_bits_retain`. bitflags documents `contains` as "all
/// set bits of the argument are also set in the receiver", which is what the
/// contract states; it was not proved.
#[verifier::external_body]
fn mask_contains(bits: u32, other: u32) -> (held: bool)
    ensures
        held == (bits & other == other),
{
    ModifiersState::from_bits_retain(bits).contains(ModifiersState::from_bits_retain(other))
}

impl Modifiers {
    /// Whether every modifier of `other` is also in `self`.
    pub open spec fn spec_contains(self, other: Modifiers) -> bool {
        self.bits & other.bits == other.bits
    }

    /// The set with no modifier held.
    pub fn empty() -> (mods: Modifiers)
        ensures
            mods.bits == 0,
    {
        Modifiers { bits: 0 }
    }

    /// The set that a bit mask of the windowing system stands for.
    pub fn from_bits(bits: u32) -> (mods: Modifiers)
        ensures
            mods.bits == bits,
    {
        Modifiers { bits }
    }

    /// The bit mask of this set.
    pub fn bits(&self) -> (bits: u32)
        ensures
            bits == self.bits,
    {
        self.bits
    }

    /// The set that holds the control key and nothing else.
    pub fn control() -> (mods: Modifiers)
        ensures
            mods.bits == control_bit(),
    {
        Modifiers { bits: control_mask() }
    }

    /// Whether every modifier of `other` is held in `self`.
    pub fn contains(&self, other: Modifiers) -> (held: bool)
        ensures
            held == self.spec_contains(other),
    {
        mask_contains(self.bits, other.bits)
    }
}

} // verus!
