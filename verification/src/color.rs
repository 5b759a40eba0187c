use vstd::prelude::*;

verus! {

/// One pixel of the wire protocol: a red, green, blue triplet with one byte
/// per channel and no alpha. Any byte value is a legal channel value, so the
/// type has no invariant beyond its fields.
#[derive(Clone, Copy, Debug, PartialEq, Eq, Structural)]
pub struct Color {
    pub r: u8,
    pub g: u8,
    pub b: u8,
}

impl Color {
    /// Build a color from its three channels, most significant channel first
    /// as the triplet stands on the wire.
    pub fn from_rgb(r: u8, g: u8, b: u8) -> (c: Color)
        ensures
            c == (Color { r, g, b }),
    {
        Color { r, g, b }
    }
}

} // verus!
