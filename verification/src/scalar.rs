//! Opaque carriers for the renderer's coordinates and sizes.

use vstd::prelude::*;

verus! {

/// A canvas-space length, width, size or angle, held as the bit pattern of
/// an IEEE 754 single-precision number. The bits are carried through
/// unchanged; nothing here reads them as a number.
#[derive(Clone, Copy, Debug, PartialEq, Eq, Structural)]
pub struct Scalar {
    pub bits: u32,
}

/// A canvas-space position.
#[derive(Clone, Copy, Debug, PartialEq, Eq, Structural)]
pub struct Point {
    pub x: Scalar,
    pub y: Scalar,
}

impl Scalar {
    /// The scalar whose encoding is `bits`.
    pub fn from_bits(bits: u32) -> (s: Scalar)
        ensures
            s.bits == bits,
    {
        Scalar { bits }
    }

    /// The encoding of this scalar.
    pub fn to_bits(&self) -> (bits: u32)
        ensures
            bits == self.bits,
    {
        self.bits
    }
}

impl Point {
    /// The point with the given coordinates.
    pub fn new(x: Scalar, y: Scalar) -> (p: Point)
        ensures
            p.x == x,
            p.y == y,
    {
        Point { x, y }
    }

    /// The origin: both coordinates are positive zero.
    pub open spec fn origin() -> Point {
        Point { x: Scalar { bits: 0 }, y: Scalar { bits: 0 } }
    }
}

} // verus!
