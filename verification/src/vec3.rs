//! Triples of scalars: displacements, points and colours.
use vstd::prelude::*;
use crate::scalar::{Scalar, ONE_BITS, ZERO_BITS};

verus! {

/// The pattern of `1e-8`, below which a component counts as zero.
pub const NEAR_ZERO_BITS: u64 = 0x3e45_798e_e230_8c3a;

/// Three scalars. The same type serves as a displacement, a point and an RGB
/// colour.
#[derive(Clone, Copy, Debug, PartialEq, Eq, Structural)]
pub struct Vec3 {
    pub x: Scalar,
    pub y: Scalar,
    pub z: Scalar,
}

/// A position.
pub type Point3 = Vec3;

/// An RGB colour, one scalar per channel.
pub type Color = Vec3;

impl Vec3 {
    /// Every component is a number whose absolute value is below `1e-8`.
    pub open spec fn tiny(self) -> bool {
        &&& self.x.magnitude() < NEAR_ZERO_BITS
        &&& self.y.magnitude() < NEAR_ZERO_BITS
        &&& self.z.magnitude() < NEAR_ZERO_BITS
    }

    /// The componentwise negation.
    pub open spec fn negated(self) -> Vec3 {
        Vec3 {
            x: Scalar { bits: self.x.flipped() },
            y: Scalar { bits: self.y.flipped() },
            z: Scalar { bits: self.z.flipped() },
        }
    }

    pub fn new(e0: Scalar, e1: Scalar, e2: Scalar) -> (v: Vec3)
        ensures
            v.x == e0,
            v.y == e1,
            v.z == e2,
    {
        Vec3 { x: e0, y: e1, z: e2 }
    }

    pub fn x(&self) -> (r: Scalar)
        ensures
            r == self.x,
    {
        self.x
    }

    pub fn y(&self) -> (r: Scalar)
        ensures
            r == self.y,
    {
        self.y
    }

    pub fn z(&self) -> (r: Scalar)
        ensures
            r == self.z,
    {
        self.z
    }

    /// Whether the vector is too short to give a direction: every component
    /// is within `1e-8` of zero.
    pub fn near_zero(&self) -> (r: bool)
        ensures
            r == self.tiny(),
    {
        let s = Scalar::from_bits(NEAR_ZERO_BITS);
        self.x.abs().lt(s) && self.y.abs().lt(s) && self.z.abs().lt(s)
    }

    /// `-self`.
    pub fn neg(self) -> (r: Vec3)
        ensures
            r == self.negated(),
    {
        Vec3 { x: self.x.neg(), y: self.y.neg(), z: self.z.neg() }
    }

    /// Whether a point drawn from the cube `[-1, 1]^3` is kept as a point of
    /// the unit sphere: its squared length is below one. A point that is
    /// not kept is drawn again.
    pub fn in_unit_sphere(norm_squared: Scalar) -> (r: bool)
        ensures
            r == norm_squared.less(Scalar { bits: ONE_BITS }),
    {
        norm_squared.lt(Scalar::one())
    }

    /// The point of the unit sphere on the side of a surface that its normal
    /// points to: `in_unit_sphere` itself where `facing`, its dot product
    /// with the normal, is above zero, else its negation.
    pub fn random_in_hemisphere(in_unit_sphere: Vec3, facing: Scalar) -> (r: Vec3)
        ensures
            r == if (Scalar { bits: ZERO_BITS }).less(facing) {
                in_unit_sphere
            } else {
                in_unit_sphere.negated()
            },
    {
        if facing.gt(Scalar::zero()) {
            in_unit_sphere
        } else {
            in_unit_sphere.neg()
        }
    }

    /// The colour black, and the zero vector: `(0, 0, 0)`.
    pub fn zero() -> (v: Vec3)
        ensures
            v == Vec3::black(),
    {
        Vec3 { x: Scalar::zero(), y: Scalar::zero(), z: Scalar::zero() }
    }

    /// The colour white: `(1, 1, 1)`.
    pub fn ones() -> (v: Vec3)
        ensures
            v == Vec3::white(),
    {
        Vec3 { x: Scalar::one(), y: Scalar::one(), z: Scalar::one() }
    }

    /// `(0, 0, 0)`.
    pub open spec fn black() -> Vec3 {
        Vec3 {
            x: Scalar { bits: ZERO_BITS },
            y: Scalar { bits: ZERO_BITS },
            z: Scalar { bits: ZERO_BITS },
        }
    }

    /// `(1, 1, 1)`.
    pub open spec fn white() -> Vec3 {
        Vec3 {
            x: Scalar { bits: ONE_BITS },
            y: Scalar { bits: ONE_BITS },
            z: Scalar { bits: ONE_BITS },
        }
    }
}

} // verus!
