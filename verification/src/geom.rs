//! Points, directions, frames, rays and hits, as records of bit patterns.
//!
//! What is done to a vector here needs no arithmetic: changing signs, and
//! picking the lesser or the greater of components.
use vstd::prelude::*;
use crate::scalar::{Scalar, ZERO_BITS, ONE_BITS, MINUS_ONE_BITS};

verus! {

/// A point or a direction in space.
#[derive(Clone, Copy, Debug)]
pub struct Vec3 {
    pub x: Scalar,
    pub y: Scalar,
    pub z: Scalar,
}

impl Vec3 {
    /// Whether one of the components encodes no number.
    pub open spec fn has_nan(self) -> bool {
        self.x.is_nan() || self.y.is_nan() || self.z.is_nan()
    }

    /// The vector with the sign of each component flipped.
    pub open spec fn spec_neg(self) -> Vec3 {
        Vec3 { x: self.x.spec_neg(), y: self.y.spec_neg(), z: self.z.spec_neg() }
    }

    /// The vector with the sign of each component cleared.
    pub open spec fn spec_abs(self) -> Vec3 {
        Vec3 { x: self.x.spec_abs(), y: self.y.spec_abs(), z: self.z.spec_abs() }
    }

    /// Component by component, the lesser of the two.
    pub open spec fn spec_min(self, other: Vec3) -> Vec3 {
        Vec3 {
            x: self.x.spec_min(other.x),
            y: self.y.spec_min(other.y),
            z: self.z.spec_min(other.z),
        }
    }

    /// Component by component, the greater of the two.
    pub open spec fn spec_max(self, other: Vec3) -> Vec3 {
        Vec3 {
            x: self.x.spec_max(other.x),
            y: self.y.spec_max(other.y),
            z: self.z.spec_max(other.z),
        }
    }

    /// The least component.
    pub open spec fn spec_min_element(self) -> Scalar {
        self.x.spec_min(self.y.spec_min(self.z))
    }

    /// The greatest component.
    pub open spec fn spec_max_element(self) -> Scalar {
        self.x.spec_max(self.y.spec_max(self.z))
    }

    /// The vector of three components.
    pub fn new(x: Scalar, y: Scalar, z: Scalar) -> (r: Vec3)
        ensures
            r == (Vec3 { x, y, z }),
    {
        Vec3 { x, y, z }
    }

    /// The vector whose components have the given bit patterns.
    pub fn from_bits(x: u32, y: u32, z: u32) -> (r: Vec3)
        ensures
            r.x.bits == x,
            r.y.bits == y,
            r.z.bits == z,
    {
        Vec3 { x: Scalar { bits: x }, y: Scalar { bits: y }, z: Scalar { bits: z } }
    }

    /// The bit patterns of the components.
    pub fn to_bits(self) -> (r: (u32, u32, u32))
        ensures
            r.0 == self.x.bits,
            r.1 == self.y.bits,
            r.2 == self.z.bits,
    {
        (self.x.bits, self.y.bits, self.z.bits)
    }

    /// The opposite vector.
    pub fn neg(self) -> (r: Vec3)
        ensures
            r == self.spec_neg(),
    {
        Vec3 { x: self.x.neg(), y: self.y.neg(), z: self.z.neg() }
    }

    /// The vector of the components' sizes.
    pub fn abs(self) -> (r: Vec3)
        ensures
            r == self.spec_abs(),
    {
        Vec3 { x: self.x.abs(), y: self.y.abs(), z: self.z.abs() }
    }

    /// Component by component, the lesser of `self` and `other`.
    pub fn min(self, other: Vec3) -> (r: Vec3)
        ensures
            r == self.spec_min(other),
    {
        Vec3 { x: self.x.min(other.x), y: self.y.min(other.y), z: self.z.min(other.z) }
    }

    /// Component by component, the greater of `self` and `other`.
    pub fn max(self, other: Vec3) -> (r: Vec3)
        ensures
            r == self.spec_max(other),
    {
        Vec3 { x: self.x.max(other.x), y: self.y.max(other.y), z: self.z.max(other.z) }
    }

    /// The least component.
    pub fn min_element(self) -> (r: Scalar)
        ensures
            r == self.spec_min_element(),
            !self.has_nan() ==> {
                &&& !r.is_nan()
                &&& r.rank() <= self.x.rank() && r.rank() <= self.y.rank() && r.rank()
                    <= self.z.rank()
                &&& r.rank() == self.x.rank() || r.rank() == self.y.rank() || r.rank()
                    == self.z.rank()
            },
    {
        self.x.min(self.y.min(self.z))
    }

    /// The greatest component.
    pub fn max_element(self) -> (r: Scalar)
        ensures
            r == self.spec_max_element(),
            !self.has_nan() ==> {
                &&& !r.is_nan()
                &&& r.rank() >= self.x.rank() && r.rank() >= self.y.rank() && r.rank()
                    >= self.z.rank()
                &&& r.rank() == self.x.rank() || r.rank() == self.y.rank() || r.rank()
                    == self.z.rank()
            },
    {
        self.x.max(self.y.max(self.z))
    }
}

/// The direction of the first axis.
pub open spec fn unit_x() -> Vec3 {
    Vec3 { x: Scalar { bits: ONE_BITS }, y: Scalar { bits: ZERO_BITS }, z: Scalar { bits: ZERO_BITS } }
}

/// The direction of the second axis.
pub open spec fn unit_y() -> Vec3 {
    Vec3 { x: Scalar { bits: ZERO_BITS }, y: Scalar { bits: ONE_BITS }, z: Scalar { bits: ZERO_BITS } }
}

/// The direction of the third axis.
pub open spec fn unit_z() -> Vec3 {
    Vec3 { x: Scalar { bits: ZERO_BITS }, y: Scalar { bits: ZERO_BITS }, z: Scalar { bits: ONE_BITS } }
}

/// The direction against the first axis, with zeros whose sign bit is clear.
pub open spec fn neg_unit_x() -> Vec3 {
    Vec3 {
        x: Scalar { bits: MINUS_ONE_BITS },
        y: Scalar { bits: ZERO_BITS },
        z: Scalar { bits: ZERO_BITS },
    }
}

/// The direction against the second axis, with zeros whose sign bit is clear.
pub open spec fn neg_unit_y() -> Vec3 {
    Vec3 {
        x: Scalar { bits: ZERO_BITS },
        y: Scalar { bits: MINUS_ONE_BITS },
        z: Scalar { bits: ZERO_BITS },
    }
}

/// The direction against the third axis, with zeros whose sign bit is clear.
pub open spec fn neg_unit_z() -> Vec3 {
    Vec3 {
        x: Scalar { bits: ZERO_BITS },
        y: Scalar { bits: ZERO_BITS },
        z: Scalar { bits: MINUS_ONE_BITS },
    }
}

/// Three directions: the images of the local axes in the world.
#[derive(Clone, Copy, Debug)]
pub struct Mat3 {
    pub x_axis: Vec3,
    pub y_axis: Vec3,
    pub z_axis: Vec3,
}

impl Mat3 {
    /// The frame whose axes are the world's own.
    pub open spec fn spec_identity() -> Mat3 {
        Mat3 { x_axis: unit_x(), y_axis: unit_y(), z_axis: unit_z() }
    }

    /// The frame whose axes are the world's own.
    pub fn identity() -> (r: Mat3)
        ensures
            r == Mat3::spec_identity(),
    {
        Mat3 {
            x_axis: Vec3::from_bits(ONE_BITS, ZERO_BITS, ZERO_BITS),
            y_axis: Vec3::from_bits(ZERO_BITS, ONE_BITS, ZERO_BITS),
            z_axis: Vec3::from_bits(ZERO_BITS, ZERO_BITS, ONE_BITS),
        }
    }
}

/// A frame and the place of its origin.
#[derive(Clone, Copy, Debug)]
pub struct Affine3 {
    pub matrix3: Mat3,
    pub translation: Vec3,
}

/// A half-line: where it starts and which way it goes. The direction need
/// not have length one.
#[derive(Clone, Copy, Debug)]
pub struct Ray {
    pub origin: Vec3,
    pub direction: Vec3,
}

/// Where a ray meets a surface.
#[derive(Clone, Copy, Debug)]
pub struct Hit {
    /// The point in the world.
    pub world_pos: Vec3,
    /// The surface normal in the world.
    pub world_normal: Vec3,
    /// The point in the coordinates of the shape.
    pub local_pos: Vec3,
    /// The surface normal in the coordinates of the shape.
    pub local_normal: Vec3,
    /// The number of the surface's material in the scene.
    pub material: usize,
    /// How far along the ray the point lies.
    pub distance: Scalar,
    /// Whether the ray began inside the shape.
    pub started_inside: bool,
    /// The frame that takes local directions to the world.
    pub local_to_world: Mat3,
}

/// Whether a point lies in the ball of radius one about the origin, given
/// the square of its distance from the origin. A sampler keeps the first
/// point of which this holds.
pub fn in_unit_ball(length_squared: Scalar) -> (r: bool)
    ensures
        r == length_squared.spec_le(Scalar { bits: ONE_BITS }),
{
    length_squared.le(Scalar::from_bits(ONE_BITS))
}

} // verus!
