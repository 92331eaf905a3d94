//! Colors.

use vstd::prelude::*;

verus! {

/// A color as hue, saturation, lightness and alpha, each channel a fraction
/// of 255. An alpha of 255 is fully opaque.
#[derive(Clone, Copy, Debug, PartialEq, Eq, Hash, Default)]
pub struct Hsla {
    pub h: u8,
    pub s: u8,
    pub l: u8,
    pub a: u8,
}

pub fn hsla(h: u8, s: u8, l: u8, a: u8) -> (r: Hsla)
    ensures
        r == (Hsla { h, s, l, a }),
{
    Hsla { h, s, l, a }
}

/// Opaque black.
pub fn black() -> (r: Hsla)
    ensures
        r == (Hsla { h: 0, s: 0, l: 0, a: 255 }),
{
    Hsla { h: 0, s: 0, l: 0, a: 255 }
}

} // verus!
