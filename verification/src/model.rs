//! The mathematical model: points with integer coordinates of any size.

use vstd::prelude::*;

verus! {

/// The sign of an integer: `1`, `0` or `-1`.
pub open spec fn sign_of(v: int) -> int {
    if v > 0 {
        1
    } else if v < 0 {
        -1
    } else {
        0
    }
}

/// The distance of an integer from zero.
pub open spec fn magnitude(v: int) -> int {
    if v >= 0 {
        v
    } else {
        -v
    }
}

/// A point, or a vector, of the three-dimensional integer lattice. It is what
/// a `Point` over any scalar stands for, and the arithmetic on it never
/// overflows.
pub struct IntPoint {
    pub x: int,
    pub y: int,
    pub z: int,
}

impl IntPoint {
    /// The sum of two vectors.
    pub open spec fn plus(self, other: IntPoint) -> IntPoint {
        IntPoint { x: self.x + other.x, y: self.y + other.y, z: self.z + other.z }
    }

    /// The difference of two vectors.
    pub open spec fn minus(self, other: IntPoint) -> IntPoint {
        IntPoint { x: self.x - other.x, y: self.y - other.y, z: self.z - other.z }
    }

    /// The vector with each coordinate multiplied by `k`.
    pub open spec fn scaled(self, k: int) -> IntPoint {
        IntPoint { x: self.x * k, y: self.y * k, z: self.z * k }
    }

    /// The vector with each coordinate divided by `k` and rounded toward zero.
    pub open spec fn divided(self, k: int) -> IntPoint
        recommends
            k != 0,
    {
        IntPoint {
            x: crate::scalar::quotient_toward_zero(self.x, k),
            y: crate::scalar::quotient_toward_zero(self.y, k),
            z: crate::scalar::quotient_toward_zero(self.z, k),
        }
    }

    /// The vector that points the other way.
    pub open spec fn negated(self) -> IntPoint {
        IntPoint { x: -self.x, y: -self.y, z: -self.z }
    }

    /// The dot product.
    pub open spec fn dot(self, other: IntPoint) -> int {
        self.x * other.x + self.y * other.y + self.z * other.z
    }

    /// The cross product.
    pub open spec fn cross(self, other: IntPoint) -> IntPoint {
        IntPoint {
            x: self.y * other.z - self.z * other.y,
            y: self.z * other.x - self.x * other.z,
            z: self.x * other.y - self.y * other.x,
        }
    }

    /// The lexicographic order: by `x`, then by `y`, then by `z`.
    pub open spec fn precedes(self, other: IntPoint) -> bool {
        ||| self.x < other.x
        ||| self.x == other.x && self.y < other.y
        ||| self.x == other.x && self.y == other.y && self.z < other.z
    }
}

} // verus!
