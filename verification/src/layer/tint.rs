//! Display colours of classified values.

use vstd::prelude::*;

verus! {

/// A display colour. Each channel is given in tenths of full intensity, so
/// a channel holds a value from 0 to 10; an `alpha` of 0 is fully
/// transparent and one of 10 fully opaque.
#[derive(Clone, Copy, Debug, PartialEq, Eq, Structural)]
pub struct Tint {
    pub red: u8,
    pub green: u8,
    pub blue: u8,
    pub alpha: u8,
}

impl Tint {
    /// The colour of nothing: black and fully transparent.
    pub open spec fn transparent() -> Tint {
        Tint { red: 0, green: 0, blue: 0, alpha: 0 }
    }

    /// The fully opaque colour with the given channels.
    pub open spec fn solid(red: u8, green: u8, blue: u8) -> Tint {
        Tint { red, green, blue, alpha: 10 }
    }

    /// Whether every channel lies within the scale of tenths.
    pub open spec fn in_range(self) -> bool {
        self.red <= 10 && self.green <= 10 && self.blue <= 10 && self.alpha <= 10
    }

    /// The colour of nothing: black and fully transparent.
    pub fn none() -> (tint: Tint)
        ensures
            tint == Tint::transparent(),
    {
        Tint { red: 0, green: 0, blue: 0, alpha: 0 }
    }

    /// The fully opaque colour with the given channels, each in tenths.
    pub fn srgb(red: u8, green: u8, blue: u8) -> (tint: Tint)
        ensures
            tint == Tint::solid(red, green, blue),
    {
        Tint { red, green, blue, alpha: 10 }
    }

    /// Whether the colour is fully transparent, so that drawing it shows
    /// nothing.
    pub fn is_transparent(&self) -> (result: bool)
        ensures
            result == (self.alpha == 0),
    {
        self.alpha == 0
    }
}

} // verus!
