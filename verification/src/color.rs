//! Colours, as four channels of eight bits.

use vstd::prelude::*;

verus! {

/// A colour: red, green, blue and opacity, each from 0 to 255.
#[derive(Clone, Copy, Debug, PartialEq, Eq, Structural)]
pub struct Rgba {
    pub red: u8,
    pub green: u8,
    pub blue: u8,
    pub alpha: u8,
}

impl Rgba {
    /// The colour with the channels given.
    pub fn new(red: u8, green: u8, blue: u8, alpha: u8) -> (color: Rgba)
        ensures
            color == (Rgba { red, green, blue, alpha }),
    {
        Rgba { red, green, blue, alpha }
    }

    /// The light grey that a dialog has behind it unless told otherwise:
    /// nine tenths of white, opaque.
    pub fn light_grey() -> (color: Rgba)
        ensures
            color == (Rgba { red: 230, green: 230, blue: 230, alpha: 255 }),
    {
        Rgba { red: 230, green: 230, blue: 230, alpha: 255 }
    }
}

} // verus!
