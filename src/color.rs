//! Colors and alpha scaling.
use vstd::prelude::*;

verus! {

/// An 8-bit-per-channel color with straight (unpremultiplied) alpha.
#[derive(Clone, Copy, Debug, PartialEq, Eq, Structural)]
pub struct Color {
    pub a: u8,
    pub r: u8,
    pub g: u8,
    pub b: u8,
}

/// Alpha `a` (out of 255) scaled by the coverage `g` (out of 65535),
/// rounded to nearest.
pub open spec fn scale_alpha(a: u8, g: u16) -> u8 {
    ((a as int * g as int + 32767) / 65535) as u8
}

pub open spec fn with_scaled_alpha(c: Color, g: u16) -> Color {
    Color { a: scale_alpha(c.a, g), ..c }
}

impl Color {
    pub open spec fn black_spec() -> Color {
        Color { a: 255, r: 0, g: 0, b: 0 }
    }

    /// Opaque black.
    pub fn black() -> (r: Color)
        ensures
            r == Color::black_spec(),
    {
        Color { a: 255, r: 0, g: 0, b: 0 }
    }

    /// Fully transparent black.
    pub fn transparent() -> (r: Color)
        ensures
            r == (Color { a: 0, r: 0, g: 0, b: 0 }),
    {
        Color { a: 0, r: 0, g: 0, b: 0 }
    }
}

/// Scales the alpha `a` by the coverage `g`, rounding to nearest.
pub fn scale_alpha_exec(a: u8, g: u16) -> (r: u8)
    ensures
        r == scale_alpha(a, g),
        r as int <= a as int,
        (r == 0) == (a as int * g as int <= 32767),
        g == 65535 ==> r == a,
{
    proof {
        assert(a as int * g as int <= 255 * 65535) by (nonlinear_arith)
            requires a <= 255, g <= 65535;
        assert((a as int * g as int + 32767) / 65535 <= a as int) by (nonlinear_arith)
            requires a <= 255, g <= 65535;
    }
    let p: u32 = a as u32 * g as u32;
    ((p + 32767) / 65535) as u8
}

impl Color {
    /// This color with its alpha scaled by the coverage `g`; the channels
    /// are kept.
    pub fn with_alpha_scaled(&self, g: u16) -> (r: Color)
        ensures
            r == with_scaled_alpha(*self, g),
    {
        Color { a: scale_alpha_exec(self.a, g), r: self.r, g: self.g, b: self.b }
    }
}

} // verus!
