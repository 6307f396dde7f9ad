//! A 3 component vector.
//!
//! Each component is the `u64` bit pattern of an IEEE-754 binary64 value
//! (see [`crate::scalar`]).  Every operation returns a new vector; no value
//! is ever mutated in place.  A spec function beside each method states the
//! exact result, component by component, over the named scalar operations.

use vstd::prelude::*;
use crate::scalar::ZERO_BITS;
use crate::scalar::ONE_BITS;
use crate::scalar::is_nan;
use crate::scalar::is_finite;
use crate::scalar::negated;
use crate::scalar::ieee_add;
use crate::scalar::ieee_sub;
use crate::scalar::ieee_mul;
use crate::scalar::ieee_div;
use crate::scalar::ieee_sqrt;
use crate::scalar::ieee_sin;
use crate::scalar::ieee_cos;
use crate::scalar::ieee_eq;
use crate::scalar::spec_min;
use crate::scalar::fadd;
use crate::scalar::fsub;
use crate::scalar::fmul;
use crate::scalar::fdiv;
use crate::scalar::fsqrt;
use crate::scalar::fsin;
use crate::scalar::fcos;
use crate::scalar::feq;
use crate::scalar::fneg;
use crate::scalar::fmin;

verus! {

/// A 3D vector; `x`, `y` and `z` hold IEEE-754 binary64 bit patterns.
#[derive(Clone, Copy, Debug)]
pub struct Vector3 {
    pub x: u64,
    pub y: u64,
    pub z: u64,
}

/// All three components are IEEE-equal to `+0.0` (so `-0.0` counts too).
pub open spec fn spec_is_origin(v: Vector3) -> bool {
    ieee_eq(v.x, ZERO_BITS) && ieee_eq(v.y, ZERO_BITS) && ieee_eq(v.z, ZERO_BITS)
}

/// The origin vector: all three components `+0.0`.
pub open spec fn spec_origin() -> Vector3 {
    Vector3 { x: ZERO_BITS, y: ZERO_BITS, z: ZERO_BITS }
}

/// Component-wise sum.
pub open spec fn spec_add(a: Vector3, b: Vector3) -> Vector3 {
    Vector3 { x: ieee_add(a.x, b.x), y: ieee_add(a.y, b.y), z: ieee_add(a.z, b.z) }
}

/// The scalar added to every component.
pub open spec fn spec_add_scalar(a: Vector3, s: u64) -> Vector3 {
    Vector3 { x: ieee_add(a.x, s), y: ieee_add(a.y, s), z: ieee_add(a.z, s) }
}

/// Component-wise difference.
pub open spec fn spec_sub(a: Vector3, b: Vector3) -> Vector3 {
    Vector3 { x: ieee_sub(a.x, b.x), y: ieee_sub(a.y, b.y), z: ieee_sub(a.z, b.z) }
}

/// The scalar subtracted from every component.
pub open spec fn spec_sub_scalar(a: Vector3, s: u64) -> Vector3 {
    Vector3 { x: ieee_sub(a.x, s), y: ieee_sub(a.y, s), z: ieee_sub(a.z, s) }
}

/// Component-wise product.
pub open spec fn spec_mul(a: Vector3, b: Vector3) -> Vector3 {
    Vector3 { x: ieee_mul(a.x, b.x), y: ieee_mul(a.y, b.y), z: ieee_mul(a.z, b.z) }
}

/// Every component multiplied by the scalar.
pub open spec fn spec_mul_scalar(a: Vector3, s: u64) -> Vector3 {
    Vector3 { x: ieee_mul(a.x, s), y: ieee_mul(a.y, s), z: ieee_mul(a.z, s) }
}

/// Component-wise quotient.
pub open spec fn spec_div(a: Vector3, b: Vector3) -> Vector3 {
    Vector3 { x: ieee_div(a.x, b.x), y: ieee_div(a.y, b.y), z: ieee_div(a.z, b.z) }
}

/// Every component divided by the scalar.
pub open spec fn spec_div_scalar(a: Vector3, s: u64) -> Vector3 {
    Vector3 { x: ieee_div(a.x, s), y: ieee_div(a.y, s), z: ieee_div(a.z, s) }
}

/// Inner product: `a.x * b.x + a.y * b.y + a.z * b.z`, summed left to
/// right.
pub open spec fn spec_dot(a: Vector3, b: Vector3) -> u64 {
    ieee_add(ieee_add(ieee_mul(a.x, b.x), ieee_mul(a.y, b.y)), ieee_mul(a.z, b.z))
}

/// Squared Euclidean length: the dot product of the vector with itself.
pub open spec fn spec_len2(v: Vector3) -> u64 {
    spec_dot(v, v)
}

/// Euclidean length: the square root of [`spec_len2`].
pub open spec fn spec_len(v: Vector3) -> u64 {
    ieee_sqrt(spec_len2(v))
}

/// The vector scaled to length one, except that the origin vector maps to
/// the origin vector (the deliberate zero-length guard).
pub open spec fn spec_normalize(v: Vector3) -> Vector3 {
    if spec_is_origin(v) {
        spec_origin()
    } else {
        spec_div_scalar(v, spec_len(v))
    }
}

/// The normalized vector scaled back up to the lesser of the original
/// length and `max_len`.
pub open spec fn spec_trim(v: Vector3, max_len: u64) -> Vector3 {
    spec_mul_scalar(spec_normalize(v), spec_min(spec_len(v), max_len))
}

/// The full vector cross product
/// `(y1*z2 - z1*y2, z1*x2 - x1*z2, x1*y2 - y1*x2)`: orthogonal to both
/// inputs, directed by the right-hand rule.
pub open spec fn spec_cross(a: Vector3, b: Vector3) -> Vector3 {
    Vector3 {
        x: ieee_sub(ieee_mul(a.y, b.z), ieee_mul(a.z, b.y)),
        y: ieee_sub(ieee_mul(a.z, b.x), ieee_mul(a.x, b.z)),
        z: ieee_sub(ieee_mul(a.x, b.y), ieee_mul(a.y, b.x)),
    }
}

/// Squared distance between the two endpoints:
/// `(a.x - b.x)^2 + (a.y - b.y)^2 + (a.z - b.z)^2`, summed left to right.
pub open spec fn spec_dist2(a: Vector3, b: Vector3) -> u64 {
    ieee_add(
        ieee_add(
            ieee_mul(ieee_sub(a.x, b.x), ieee_sub(a.x, b.x)),
            ieee_mul(ieee_sub(a.y, b.y), ieee_sub(a.y, b.y)),
        ),
        ieee_mul(ieee_sub(a.z, b.z), ieee_sub(a.z, b.z)),
    )
}

/// Distance between the two endpoints: the square root of [`spec_dist2`].
pub open spec fn spec_dist(a: Vector3, b: Vector3) -> u64 {
    ieee_sqrt(spec_dist2(a, b))
}

/// The first row of the Rodrigues rotation matrix for the unit axis `u`
/// and the angle whose cosine is `c` and sine is `s`.
pub open spec fn spec_rotation_row1(u: Vector3, c: u64, s: u64) -> Vector3 {
    Vector3 {
        x: ieee_add(c, ieee_mul(ieee_mul(u.x, u.x), ieee_sub(ONE_BITS, c))),
        y: ieee_sub(ieee_mul(ieee_mul(u.x, u.y), ieee_sub(ONE_BITS, c)), ieee_mul(u.z, s)),
        z: ieee_add(ieee_mul(ieee_mul(u.x, u.z), ieee_sub(ONE_BITS, c)), ieee_mul(u.y, s)),
    }
}

/// The second row of the Rodrigues rotation matrix for the unit axis `u`
/// and the angle whose cosine is `c` and sine is `s`.
pub open spec fn spec_rotation_row2(u: Vector3, c: u64, s: u64) -> Vector3 {
    Vector3 {
        x: ieee_add(ieee_mul(ieee_mul(u.y, u.x), ieee_sub(ONE_BITS, c)), ieee_mul(u.z, s)),
        y: ieee_add(c, ieee_mul(ieee_mul(u.y, u.y), ieee_sub(ONE_BITS, c))),
        z: ieee_sub(ieee_mul(ieee_mul(u.y, u.z), ieee_sub(ONE_BITS, c)), ieee_mul(u.x, s)),
    }
}

/// The third row of the Rodrigues rotation matrix for the unit axis `u`
/// and the angle whose cosine is `c` and sine is `s`.
pub open spec fn spec_rotation_row3(u: Vector3, c: u64, s: u64) -> Vector3 {
    Vector3 {
        x: ieee_sub(ieee_mul(ieee_mul(u.z, u.x), ieee_sub(ONE_BITS, c)), ieee_mul(u.y, s)),
        y: ieee_add(ieee_mul(ieee_mul(u.z, u.y), ieee_sub(ONE_BITS, c)), ieee_mul(u.x, s)),
        z: ieee_add(c, ieee_mul(ieee_mul(u.z, u.z), ieee_sub(ONE_BITS, c))),
    }
}

/// Rotation of `v` by `angle` radians about `axis`: the axis is normalized
/// first, the 3×3 Rodrigues rotation matrix is built from it and from the
/// cosine and sine of the angle, and the result is `v` dotted against the
/// three matrix rows.
pub open spec fn spec_rotate(v: Vector3, angle: u64, axis: Vector3) -> Vector3 {
    let u = spec_normalize(axis);
    let c = ieee_cos(angle);
    let s = ieee_sin(angle);
    Vector3 {
        x: spec_dot(v, spec_rotation_row1(u, c, s)),
        y: spec_dot(v, spec_rotation_row2(u, c, s)),
        z: spec_dot(v, spec_rotation_row3(u, c, s)),
    }
}

/// The XY-projection rotated a quarter turn counter-clockwise, with Z set
/// to zero: `(-y, x, 0)`.  This is a convention, not a general "any
/// perpendicular vector" operation; it degenerates for vectors whose
/// XY-projection is zero.
pub open spec fn spec_perpendicular(v: Vector3) -> Vector3 {
    Vector3 { x: negated(v.y), y: v.x, z: ZERO_BITS }
}

/// Linear interpolation: `a + (b - a) * step`, with no clamping of `step`.
pub open spec fn spec_lerp(a: Vector3, b: Vector3, step: u64) -> Vector3 {
    spec_add(a, spec_mul_scalar(spec_sub(b, a), step))
}

impl PartialEq for Vector3 {
    /// IEEE-754 structural equality: all three components compare equal as
    /// values, so `-0.0 == 0.0` and a NaN component makes `eq` false.
    fn eq(&self, other: &Vector3) -> (r: bool) {
        feq(self.x, other.x) && feq(self.y, other.y) && feq(self.z, other.z)
    }
}

impl vstd::std_specs::cmp::PartialEqSpecImpl for Vector3 {
    open spec fn obeys_eq_spec() -> bool {
        true
    }

    open spec fn eq_spec(&self, other: &Vector3) -> bool {
        ieee_eq(self.x, other.x) && ieee_eq(self.y, other.y) && ieee_eq(self.z, other.z)
    }
}

impl Vector3 {
    /// Construct a new vector from its components.
    pub fn new(x: u64, y: u64, z: u64) -> (r: Vector3)
        ensures
            r == (Vector3 { x, y, z }),
    {
        Vector3 { x, y, z }
    }

    /// Construct an origin vector: all three components +0.0.
    pub fn origin() -> (r: Vector3)
        ensures
            r == spec_origin(),
    {
        Vector3::new(ZERO_BITS, ZERO_BITS, ZERO_BITS)
    }

    /// Construct a unit vector along X: `(1.0, 0.0, 0.0)`.
    pub fn unit_x() -> (r: Vector3)
        ensures
            r == (Vector3 { x: ONE_BITS, y: ZERO_BITS, z: ZERO_BITS }),
    {
        Vector3::new(ONE_BITS, ZERO_BITS, ZERO_BITS)
    }

    /// Construct a unit vector along Y: `(0.0, 1.0, 0.0)`.
    pub fn unit_y() -> (r: Vector3)
        ensures
            r == (Vector3 { x: ZERO_BITS, y: ONE_BITS, z: ZERO_BITS }),
    {
        Vector3::new(ZERO_BITS, ONE_BITS, ZERO_BITS)
    }

    /// Construct a unit vector along Z: `(0.0, 0.0, 1.0)`.
    pub fn unit_z() -> (r: Vector3)
        ensures
            r == (Vector3 { x: ZERO_BITS, y: ZERO_BITS, z: ONE_BITS }),
    {
        Vector3::new(ZERO_BITS, ZERO_BITS, ONE_BITS)
    }

    /// Component-wise addition.  Addition is commutative: the two operands
    /// may change places and the same vector comes back, unless two NaN
    /// components meet (their payloads then propagate in order).
    pub fn add(&self, other: Vector3) -> (r: Vector3)
        ensures
            r == spec_add(*self, other),
            !(is_nan(self.x) && is_nan(other.x)) && !(is_nan(self.y) && is_nan(other.y))
                && !(is_nan(self.z) && is_nan(other.z)) ==> r == spec_add(other, *self),
    {
        Vector3::new(fadd(self.x, other.x), fadd(self.y, other.y), fadd(self.z, other.z))
    }

    /// Add the scalar to every component.
    pub fn add_scalar(&self, other: u64) -> (r: Vector3)
        ensures
            r == spec_add_scalar(*self, other),
    {
        Vector3::new(fadd(self.x, other), fadd(self.y, other), fadd(self.z, other))
    }

    /// Component-wise subtraction.  Subtracting a vector with all
    /// components finite from itself gives the origin vector exactly.
    pub fn sub(&self, other: Vector3) -> (r: Vector3)
        ensures
            r == spec_sub(*self, other),
            self.x == other.x && self.y == other.y && self.z == other.z && is_finite(self.x)
                && is_finite(self.y) && is_finite(self.z) ==> r == spec_origin(),
    {
        Vector3::new(fsub(self.x, other.x), fsub(self.y, other.y), fsub(self.z, other.z))
    }

    /// Subtract the scalar from every component.
    pub fn sub_scalar(&self, other: u64) -> (r: Vector3)
        ensures
            r == spec_sub_scalar(*self, other),
    {
        Vector3::new(fsub(self.x, other), fsub(self.y, other), fsub(self.z, other))
    }

    /// Component-wise multiplication.
    pub fn mul(&self, other: Vector3) -> (r: Vector3)
        ensures
            r == spec_mul(*self, other),
    {
        Vector3::new(fmul(self.x, other.x), fmul(self.y, other.y), fmul(self.z, other.z))
    }

    /// Multiply every component by the scalar.
    pub fn mul_scalar(&self, other: u64) -> (r: Vector3)
        ensures
            r == spec_mul_scalar(*self, other),
    {
        Vector3::new(fmul(self.x, other), fmul(self.y, other), fmul(self.z, other))
    }

    /// Component-wise division.  Division by a zero component gives an
    /// IEEE-754 infinity or NaN; nothing is trapped.
    pub fn div(&self, other: Vector3) -> (r: Vector3)
        ensures
            r == spec_div(*self, other),
    {
        Vector3::new(fdiv(self.x, other.x), fdiv(self.y, other.y), fdiv(self.z, other.z))
    }

    /// Divide every component by the scalar.
    pub fn div_scalar(&self, other: u64) -> (r: Vector3)
        ensures
            r == spec_div_scalar(*self, other),
    {
        Vector3::new(fdiv(self.x, other), fdiv(self.y, other), fdiv(self.z, other))
    }

    /// Verify that vector is an origin vector: all three components
    /// compare IEEE-equal to 0.0.  True in particular when all three are
    /// the bit pattern of +0.0.
    pub fn is_origin(&self) -> (r: bool)
        ensures
            r == spec_is_origin(*self),
            self.x == ZERO_BITS && self.y == ZERO_BITS && self.z == ZERO_BITS ==> r,
    {
        proof {
            assert(!is_nan(ZERO_BITS)) by (bit_vector);
        }
        feq(self.x, ZERO_BITS) && feq(self.y, ZERO_BITS) && feq(self.z, ZERO_BITS)
    }

    /// Normalize vector: scale it so its length is 1.0, except that the
    /// origin vector is returned as the origin vector rather than NaN.
    /// In particular, normalizing the vector whose components are +0.0
    /// gives that vector back unchanged.
    pub fn normalize(&self) -> (r: Vector3)
        ensures
            r == spec_normalize(*self),
            self.x == ZERO_BITS && self.y == ZERO_BITS && self.z == ZERO_BITS
                ==> r == spec_origin(),
    {
        if self.is_origin() {
            return Vector3::origin();
        }
        self.div_scalar(self.len())
    }

    /// Trim vector: scale it down to length `max_len` if it is longer,
    /// computed as `normalize() * min(len(), max_len)`.
    pub fn trim(&self, max_len: u64) -> (r: Vector3)
        ensures
            r == spec_trim(*self, max_len),
    {
        let n = self.normalize();
        n.mul_scalar(fmin(self.len(), max_len))
    }

    /// Cross multiply two vectors: the full vector cross product,
    /// orthogonal to both inputs, its magnitude the area of the
    /// parallelogram they span, its direction by the right-hand rule.
    pub fn cross(&self, other: Vector3) -> (r: Vector3)
        ensures
            r == spec_cross(*self, other),
    {
        Vector3::new(
            fsub(fmul(self.y, other.z), fmul(self.z, other.y)),
            fsub(fmul(self.z, other.x), fmul(self.x, other.z)),
            fsub(fmul(self.x, other.y), fmul(self.y, other.x)),
        )
    }

    /// Dot multiply two vectors: the sum of the pairwise component
    /// products.
    pub fn dot(&self, other: Vector3) -> (r: u64)
        ensures
            r == spec_dot(*self, other),
    {
        fadd(fadd(fmul(self.x, other.x), fmul(self.y, other.y)), fmul(self.z, other.z))
    }

    /// Get length of a vector: the square root of [`Vector3::len2`].
    pub fn len(&self) -> (r: u64)
        ensures
            r == spec_len(*self),
    {
        fsqrt(self.len2())
    }

    /// Get square length of a vector: the dot product with itself.
    pub fn len2(&self) -> (r: u64)
        ensures
            r == spec_len2(*self),
    {
        self.dot(*self)
    }

    /// Get distance between two vectors' endpoints.  The distance from a
    /// vector with all components finite to itself is +0.0 exactly.
    pub fn dist(&self, other: Vector3) -> (r: u64)
        ensures
            r == spec_dist(*self, other),
            self.x == other.x && self.y == other.y && self.z == other.z && is_finite(self.x)
                && is_finite(self.y) && is_finite(self.z) ==> r == ZERO_BITS,
    {
        fsqrt(self.dist2(other))
    }

    /// Get square distance between two vectors' endpoints.
    pub fn dist2(&self, other: Vector3) -> (r: u64)
        ensures
            r == spec_dist2(*self, other),
            self.x == other.x && self.y == other.y && self.z == other.z && is_finite(self.x)
                && is_finite(self.y) && is_finite(self.z) ==> r == ZERO_BITS,
    {
        let dx = fsub(self.x, other.x);
        let dy = fsub(self.y, other.y);
        let dz = fsub(self.z, other.z);
        fadd(fadd(fmul(dx, dx), fmul(dy, dy)), fmul(dz, dz))
    }

    /// Rotate a vector about an axis by `angle` radians: the axis is
    /// normalized (whatever its magnitude), the 3×3 Rodrigues rotation
    /// matrix is built from it and from the cosine and sine of the angle,
    /// and the vector is dotted against the three matrix rows.
    pub fn rotate(&self, angle: u64, axis: Vector3) -> (r: Vector3)
        ensures
            r == spec_rotate(*self, angle, axis),
    {
        let u = axis.normalize();
        let c = fcos(angle);
        let s = fsin(angle);

        let m1 = Vector3::new(
            fadd(c, fmul(fmul(u.x, u.x), fsub(ONE_BITS, c))),
            fsub(fmul(fmul(u.x, u.y), fsub(ONE_BITS, c)), fmul(u.z, s)),
            fadd(fmul(fmul(u.x, u.z), fsub(ONE_BITS, c)), fmul(u.y, s)),
        );
        let m2 = Vector3::new(
            fadd(fmul(fmul(u.y, u.x), fsub(ONE_BITS, c)), fmul(u.z, s)),
            fadd(c, fmul(fmul(u.y, u.y), fsub(ONE_BITS, c))),
            fsub(fmul(fmul(u.y, u.z), fsub(ONE_BITS, c)), fmul(u.x, s)),
        );
        let m3 = Vector3::new(
            fsub(fmul(fmul(u.z, u.x), fsub(ONE_BITS, c)), fmul(u.y, s)),
            fadd(fmul(fmul(u.z, u.y), fsub(ONE_BITS, c)), fmul(u.x, s)),
            fadd(c, fmul(fmul(u.z, u.z), fsub(ONE_BITS, c))),
        );

        Vector3::new(self.dot(m1), self.dot(m2), self.dot(m3))
    }

    /// Get the perpendicular vector of a vector: `(-y, x, 0)` — only the
    /// XY-projection is rotated, Z is left at zero, so this degenerates
    /// for vectors whose XY-projection is zero.
    pub fn perpendicular(&self) -> (r: Vector3)
        ensures
            r == spec_perpendicular(*self),
    {
        Vector3::new(fneg(self.y), self.x, ZERO_BITS)
    }

    /// Linear interpolation between two vectors: `self + (other - self) *
    /// step`.  The step is not clamped: values outside `[0, 1]`
    /// extrapolate beyond the two endpoints.
    pub fn lerp(&self, other: Vector3, step: u64) -> (r: Vector3)
        ensures
            r == spec_lerp(*self, other, step),
    {
        self.add(other.sub(*self).mul_scalar(step))
    }
}

} // verus!
