use vstd::prelude::*;
use crate::rng::sample_range;

verus! {

/// A display color, one byte per channel. Universes get a random color at
/// birth with every channel at least 50, so names stay readable on a dark
/// background; the fallback color for unknown universes is white.
#[derive(Clone, Copy, Debug, PartialEq, Eq, Structural)]
pub struct Rgb {
    pub r: u8,
    pub g: u8,
    pub b: u8,
}

impl Rgb {
    pub fn new(r: u8, g: u8, b: u8) -> (c: Rgb)
        ensures
            c == (Rgb { r, g, b }),
    {
        Rgb { r, g, b }
    }

    /// The color used when an id cannot be resolved to a universe.
    pub fn white() -> (c: Rgb)
        ensures
            c == (Rgb { r: 255u8, g: 255u8, b: 255u8 }),
    {
        Rgb { r: 255, g: 255, b: 255 }
    }
}

/// Rolls one random color channel in the half-open range 50..255.
fn random_channel() -> (v: u8)
    ensures
        50 <= v <= 254,
{
    let s: i32 = sample_range(50, 254);
    s as u8
}

/// Rolls the random display color of a freshly created universe.
pub fn random_color() -> (c: Rgb)
    ensures
        50 <= c.r <= 254,
        50 <= c.g <= 254,
        50 <= c.b <= 254,
{
    let r = random_channel();
    let g = random_channel();
    let b = random_channel();
    Rgb { r, g, b }
}

} // verus!
