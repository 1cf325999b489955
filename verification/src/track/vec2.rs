//! 2D vector value type.

use vstd::prelude::*;

verus! {

/// A 64-bit scalar quantity carried bit-for-bit.
///
/// The on-disk formats store positions, velocities, angles and zoom levels
/// as IEEE-754 binary64 values.  The library never does arithmetic on
/// them; it only stores and moves them, so it keeps the 64-bit pattern
/// itself.  Callers that need the numeric value convert the bit pattern
/// at the boundary.
#[derive(Clone, Copy, Debug, PartialEq, Eq, Structural)]
pub struct Scalar {
    pub bits: u64,
}

impl Scalar {
    pub fn new(bits: u64) -> (r: Self)
        ensures
            r.bits == bits,
    {
        Scalar { bits }
    }

    /// The bit pattern of the all-zero scalar (the number zero).
    pub fn zero() -> (r: Self)
        ensures
            r.bits == 0,
    {
        Scalar { bits: 0 }
    }
}

/// A position or velocity in the plane; a plain value type.
#[derive(Clone, Copy, Debug, PartialEq, Eq, Structural)]
pub struct Vec2 {
    pub x: Scalar,
    pub y: Scalar,
}

impl Vec2 {
    pub fn new(x: Scalar, y: Scalar) -> (r: Self)
        ensures
            r.x == x,
            r.y == y,
    {
        Vec2 { x, y }
    }
}

} // verus!
