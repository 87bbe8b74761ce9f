use vstd::prelude::*;

verus! {

/// An RGBA color with one byte per channel, handed to the backend as the
/// clear color when a frame begins.
#[derive(Clone, Copy, Debug, PartialEq, Eq, Structural)]
pub struct Color {
    /// Red channel.
    pub r: u8,
    /// Green channel.
    pub g: u8,
    /// Blue channel.
    pub b: u8,
    /// Alpha channel.
    pub a: u8,
}

impl Color {
    /// Builds a color from its four channels.
    pub fn rgba(r: u8, g: u8, b: u8, a: u8) -> (c: Self)
        ensures
            c == (Color { r, g, b, a }),
    {
        Color { r, g, b, a }
    }
}

impl Default for Color {
    /// A dark slate blue, the clear color a fresh renderer starts with.
    fn default() -> (c: Self)
        ensures
            c == (Color { r: 26, g: 51, b: 77, a: 255 }),
    {
        Color { r: 26, g: 51, b: 77, a: 255 }
    }
}

} // verus!
