//! Numeric values carried through the context without arithmetic.
use vstd::prelude::*;

verus! {

/// Mask that clears the sign bit of an IEEE-754 single.
pub const MAGNITUDE_MASK: u32 = 0x7fff_ffff;

/// A single-precision value held as its IEEE-754 bit pattern.
///
/// The context never computes with such values; it only stores them, hands
/// them on to the backend, and tests them against zero.
#[derive(Clone, Copy, Debug, PartialEq, Eq, Structural)]
pub struct Scalar {
    pub bits: u32,
}

/// Whether a bit pattern encodes positive or negative zero.
pub open spec fn bits_are_zero(bits: u32) -> bool {
    bits & MAGNITUDE_MASK == 0
}

impl Scalar {
    pub open spec fn is_zero_spec(self) -> bool {
        bits_are_zero(self.bits)
    }

    /// The value zero.
    pub fn zero() -> (r: Scalar)
        ensures
            r.bits == 0,
            r.is_zero_spec(),
    {
        proof {
            assert(0u32 & 0x7fff_ffffu32 == 0) by (bit_vector);
        }
        Scalar { bits: 0 }
    }

    /// Wraps a bit pattern.
    pub fn from_bits(bits: u32) -> (r: Scalar)
        ensures
            r.bits == bits,
    {
        Scalar { bits }
    }

    /// Whether the value compares equal to zero (either sign).
    pub fn is_zero(&self) -> (r: bool)
        ensures
            r == self.is_zero_spec(),
    {
        self.bits & MAGNITUDE_MASK == 0
    }
}

} // verus!

verus! {

/// A point in user space.
#[derive(Clone, Copy, Debug, PartialEq, Eq, Structural)]
pub struct Point {
    pub x: Scalar,
    pub y: Scalar,
}

impl Point {
    pub open spec fn is_zero_spec(self) -> bool {
        self.x.is_zero_spec() && self.y.is_zero_spec()
    }

    /// Whether both coordinates are zero.
    pub fn is_zero(&self) -> (r: bool)
        ensures
            r == self.is_zero_spec(),
    {
        self.x.is_zero() && self.y.is_zero()
    }
}

/// An axis-aligned rectangle given by its origin and size.
#[derive(Clone, Copy, Debug, PartialEq, Eq, Structural)]
pub struct Rect {
    pub x: Scalar,
    pub y: Scalar,
    pub width: Scalar,
    pub height: Scalar,
}

impl Rect {
    pub open spec fn origin_spec(self) -> Point {
        Point { x: self.x, y: self.y }
    }

    /// The origin of the rectangle.
    pub fn origin(&self) -> (r: Point)
        ensures
            r == self.origin_spec(),
    {
        Point { x: self.x, y: self.y }
    }

    /// A rectangle of the same size placed at the origin.
    pub fn at_origin(&self) -> (r: Rect)
        ensures
            r.x.bits == 0,
            r.y.bits == 0,
            r.width == self.width,
            r.height == self.height,
    {
        Rect { x: Scalar::zero(), y: Scalar::zero(), width: self.width, height: self.height }
    }
}

} // verus!
