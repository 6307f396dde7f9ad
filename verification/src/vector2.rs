//! A 2 component vector.
//!
//! Each component is the `u64` bit pattern of an IEEE-754 binary64 value
//! (see [`crate::scalar`]).  Every operation returns a new vector; no value
//! is ever mutated in place.  A spec function beside each method states the
//! exact result, component by component, over the named scalar operations.

use vstd::prelude::*;
use crate::scalar::ZERO_BITS;
use crate::scalar::ONE_BITS;
use crate::scalar::TWO_PI_BITS;
use crate::scalar::is_nan;
use crate::scalar::is_finite;
use crate::scalar::negated;
use crate::scalar::ieee_add;
use crate::scalar::ieee_sub;
use crate::scalar::ieee_mul;
use crate::scalar::ieee_div;
use crate::scalar::ieee_sqrt;
use crate::scalar::ieee_sin;
use crate::scalar::ieee_cos;
use crate::scalar::ieee_eq;
use crate::scalar::ieee_le;
use crate::scalar::spec_min;
use crate::scalar::fadd;
use crate::scalar::fsub;
use crate::scalar::fmul;
use crate::scalar::fdiv;
use crate::scalar::fsqrt;
use crate::scalar::fsin;
use crate::scalar::fcos;
use crate::scalar::fle;
use crate::scalar::feq;
use crate::scalar::fneg;
use crate::scalar::fmin;

verus! {

/// A 2D vector; `x` and `y` hold IEEE-754 binary64 bit patterns.
#[derive(Clone, Copy, Debug)]
pub struct Vector2 {
    pub x: u64,
    pub y: u64,
}

/// Both components are IEEE-equal to `+0.0` (so `-0.0` counts too).
pub open spec fn spec_is_origin(v: Vector2) -> bool {
    ieee_eq(v.x, ZERO_BITS) && ieee_eq(v.y, ZERO_BITS)
}

/// The origin vector: both components `+0.0`.
pub open spec fn spec_origin() -> Vector2 {
    Vector2 { x: ZERO_BITS, y: ZERO_BITS }
}

/// Component-wise sum.
pub open spec fn spec_add(a: Vector2, b: Vector2) -> Vector2 {
    Vector2 { x: ieee_add(a.x, b.x), y: ieee_add(a.y, b.y) }
}

/// The scalar added to every component.
pub open spec fn spec_add_scalar(a: Vector2, s: u64) -> Vector2 {
    Vector2 { x: ieee_add(a.x, s), y: ieee_add(a.y, s) }
}

/// Component-wise difference.
pub open spec fn spec_sub(a: Vector2, b: Vector2) -> Vector2 {
    Vector2 { x: ieee_sub(a.x, b.x), y: ieee_sub(a.y, b.y) }
}

/// The scalar subtracted from every component.
pub open spec fn spec_sub_scalar(a: Vector2, s: u64) -> Vector2 {
    Vector2 { x: ieee_sub(a.x, s), y: ieee_sub(a.y, s) }
}

/// Component-wise product.
pub open spec fn spec_mul(a: Vector2, b: Vector2) -> Vector2 {
    Vector2 { x: ieee_mul(a.x, b.x), y: ieee_mul(a.y, b.y) }
}

/// Every component multiplied by the scalar.
pub open spec fn spec_mul_scalar(a: Vector2, s: u64) -> Vector2 {
    Vector2 { x: ieee_mul(a.x, s), y: ieee_mul(a.y, s) }
}

/// Component-wise quotient.
pub open spec fn spec_div(a: Vector2, b: Vector2) -> Vector2 {
    Vector2 { x: ieee_div(a.x, b.x), y: ieee_div(a.y, b.y) }
}

/// Every component divided by the scalar.
pub open spec fn spec_div_scalar(a: Vector2, s: u64) -> Vector2 {
    Vector2 { x: ieee_div(a.x, s), y: ieee_div(a.y, s) }
}

/// Inner product: `a.x * b.x + a.y * b.y`.
pub open spec fn spec_dot(a: Vector2, b: Vector2) -> u64 {
    ieee_add(ieee_mul(a.x, b.x), ieee_mul(a.y, b.y))
}

/// Squared Euclidean length: the dot product of the vector with itself.
pub open spec fn spec_len2(v: Vector2) -> u64 {
    spec_dot(v, v)
}

/// Euclidean length: the square root of [`spec_len2`].
pub open spec fn spec_len(v: Vector2) -> u64 {
    ieee_sqrt(spec_len2(v))
}

/// The vector scaled to length one, except that the origin vector maps to
/// the origin vector (the deliberate zero-length guard).
pub open spec fn spec_normalize(v: Vector2) -> Vector2 {
    if spec_is_origin(v) {
        spec_origin()
    } else {
        spec_div_scalar(v, spec_len(v))
    }
}

/// The normalized vector scaled back up to the lesser of the original
/// length and `max_len`.
pub open spec fn spec_trim(v: Vector2, max_len: u64) -> Vector2 {
    spec_mul_scalar(spec_normalize(v), spec_min(spec_len(v), max_len))
}

/// The z component of the 3D cross product: `a.x * b.y - a.y * b.x`.
pub open spec fn spec_cross(a: Vector2, b: Vector2) -> u64 {
    ieee_sub(ieee_mul(a.x, b.y), ieee_mul(a.y, b.x))
}

/// Squared distance between the two endpoints:
/// `(a.x - b.x)^2 + (a.y - b.y)^2`.
pub open spec fn spec_dist2(a: Vector2, b: Vector2) -> u64 {
    ieee_add(
        ieee_mul(ieee_sub(a.x, b.x), ieee_sub(a.x, b.x)),
        ieee_mul(ieee_sub(a.y, b.y), ieee_sub(a.y, b.y)),
    )
}

/// Distance between the two endpoints: the square root of [`spec_dist2`].
pub open spec fn spec_dist(a: Vector2, b: Vector2) -> u64 {
    ieee_sqrt(spec_dist2(a, b))
}

/// Rotation by `angle` radians, counter-clockwise for a positive angle:
/// the standard 2×2 rotation matrix, `(c*x - s*y, s*x + c*y)` with `c` and
/// `s` the cosine and sine of the angle.
pub open spec fn spec_rotate(v: Vector2, angle: u64) -> Vector2 {
    let c = ieee_cos(angle);
    let s = ieee_sin(angle);
    Vector2 {
        x: ieee_sub(ieee_mul(c, v.x), ieee_mul(s, v.y)),
        y: ieee_add(ieee_mul(s, v.x), ieee_mul(c, v.y)),
    }
}

/// A quarter turn counter-clockwise: `(-y, x)`.
pub open spec fn spec_perpendicular(v: Vector2) -> Vector2 {
    Vector2 { x: negated(v.y), y: v.x }
}

/// Cartesian coordinates from polar ones:
/// `(radius * cos(angle), radius * sin(angle))`.
pub open spec fn spec_from_polar(radius: u64, angle: u64) -> Vector2 {
    Vector2 { x: ieee_mul(radius, ieee_cos(angle)), y: ieee_mul(radius, ieee_sin(angle)) }
}

/// The polar angle: `raw_angle` (the `atan2` of `y` and `x`, supplied by
/// the caller) shifted by 2π whenever it is at most zero, so the result
/// lies in `(0, 2π]` — an angle of exactly 0 is reported as 2π.
pub open spec fn spec_polar_angle(raw_angle: u64) -> u64 {
    if ieee_le(raw_angle, ZERO_BITS) {
        ieee_add(raw_angle, TWO_PI_BITS)
    } else {
        raw_angle
    }
}

/// The quotient `dot(a, b) / (len(a) * len(b))` — the cosine of the angle
/// between the two directions.
pub open spec fn spec_angle_between_cos(a: Vector2, b: Vector2) -> u64 {
    ieee_div(spec_dot(a, b), ieee_mul(spec_len(a), spec_len(b)))
}

/// Linear interpolation: `a + (b - a) * step`, with no clamping of `step`.
pub open spec fn spec_lerp(a: Vector2, b: Vector2, step: u64) -> Vector2 {
    spec_add(a, spec_mul_scalar(spec_sub(b, a), step))
}

impl PartialEq for Vector2 {
    /// IEEE-754 structural equality: both components compare equal as
    /// values, so `-0.0 == 0.0` and a NaN component makes `eq` false.
    fn eq(&self, other: &Vector2) -> (r: bool) {
        feq(self.x, other.x) && feq(self.y, other.y)
    }
}

impl vstd::std_specs::cmp::PartialEqSpecImpl for Vector2 {
    open spec fn obeys_eq_spec() -> bool {
        true
    }

    open spec fn eq_spec(&self, other: &Vector2) -> bool {
        ieee_eq(self.x, other.x) && ieee_eq(self.y, other.y)
    }
}

impl Vector2 {
    /// Construct a new vector from its components.
    pub fn new(x: u64, y: u64) -> (r: Vector2)
        ensures
            r == (Vector2 { x, y }),
    {
        Vector2 { x, y }
    }

    /// Construct an origin vector: both components +0.0.
    pub fn origin() -> (r: Vector2)
        ensures
            r == spec_origin(),
    {
        Vector2::new(ZERO_BITS, ZERO_BITS)
    }

    /// Construct a unit vector along X: `(1.0, 0.0)`.
    pub fn unit_x() -> (r: Vector2)
        ensures
            r == (Vector2 { x: ONE_BITS, y: ZERO_BITS }),
    {
        Vector2::new(ONE_BITS, ZERO_BITS)
    }

    /// Construct a unit vector along Y: `(0.0, 1.0)`.
    pub fn unit_y() -> (r: Vector2)
        ensures
            r == (Vector2 { x: ZERO_BITS, y: ONE_BITS }),
    {
        Vector2::new(ZERO_BITS, ONE_BITS)
    }

    /// Construct a new vector from polar to cartesian:
    /// `(radius * cos(angle), radius * sin(angle))`.
    pub fn from_polar(radius: u64, angle: u64) -> (r: Vector2)
        ensures
            r == spec_from_polar(radius, angle),
    {
        Vector2::new(fmul(radius, fcos(angle)), fmul(radius, fsin(angle)))
    }

    /// Component-wise addition.  Addition is commutative: the two operands
    /// may change places and the same vector comes back, unless two NaN
    /// components meet (their payloads then propagate in order).
    pub fn add(&self, other: Vector2) -> (r: Vector2)
        ensures
            r == spec_add(*self, other),
            !(is_nan(self.x) && is_nan(other.x)) && !(is_nan(self.y) && is_nan(other.y))
                ==> r == spec_add(other, *self),
    {
        Vector2::new(fadd(self.x, other.x), fadd(self.y, other.y))
    }

    /// Add the scalar to every component.
    pub fn add_scalar(&self, other: u64) -> (r: Vector2)
        ensures
            r == spec_add_scalar(*self, other),
    {
        Vector2::new(fadd(self.x, other), fadd(self.y, other))
    }

    /// Component-wise subtraction.  Subtracting a vector with all
    /// components finite from itself gives the origin vector exactly.
    pub fn sub(&self, other: Vector2) -> (r: Vector2)
        ensures
            r == spec_sub(*self, other),
            self.x == other.x && self.y == other.y && is_finite(self.x) && is_finite(self.y)
                ==> r == spec_origin(),
    {
        Vector2::new(fsub(self.x, other.x), fsub(self.y, other.y))
    }

    /// Subtract the scalar from every component.
    pub fn sub_scalar(&self, other: u64) -> (r: Vector2)
        ensures
            r == spec_sub_scalar(*self, other),
    {
        Vector2::new(fsub(self.x, other), fsub(self.y, other))
    }

    /// Component-wise multiplication.
    pub fn mul(&self, other: Vector2) -> (r: Vector2)
        ensures
            r == spec_mul(*self, other),
    {
        Vector2::new(fmul(self.x, other.x), fmul(self.y, other.y))
    }

    /// Multiply every component by the scalar.
    pub fn mul_scalar(&self, other: u64) -> (r: Vector2)
        ensures
            r == spec_mul_scalar(*self, other),
    {
        Vector2::new(fmul(self.x, other), fmul(self.y, other))
    }

    /// Component-wise division.  Division by a zero component gives an
    /// IEEE-754 infinity or NaN; nothing is trapped.
    pub fn div(&self, other: Vector2) -> (r: Vector2)
        ensures
            r == spec_div(*self, other),
    {
        Vector2::new(fdiv(self.x, other.x), fdiv(self.y, other.y))
    }

    /// Divide every component by the scalar.
    pub fn div_scalar(&self, other: u64) -> (r: Vector2)
        ensures
            r == spec_div_scalar(*self, other),
    {
        Vector2::new(fdiv(self.x, other), fdiv(self.y, other))
    }

    /// Verify that vector is an origin vector: both components compare
    /// IEEE-equal to 0.0.  True in particular when both components are
    /// the bit pattern of +0.0.
    pub fn is_origin(&self) -> (r: bool)
        ensures
            r == spec_is_origin(*self),
            self.x == ZERO_BITS && self.y == ZERO_BITS ==> r,
    {
        proof {
            assert(!is_nan(ZERO_BITS)) by (bit_vector);
        }
        feq(self.x, ZERO_BITS) && feq(self.y, ZERO_BITS)
    }

    /// Normalize vector: scale it so its length is 1.0, except that the
    /// origin vector is returned as the origin vector rather than NaN.
    /// In particular, normalizing the vector whose components are +0.0
    /// gives that vector back unchanged.
    pub fn normalize(&self) -> (r: Vector2)
        ensures
            r == spec_normalize(*self),
            self.x == ZERO_BITS && self.y == ZERO_BITS ==> r == spec_origin(),
    {
        if self.is_origin() {
            return Vector2::origin();
        }
        self.div_scalar(self.len())
    }

    /// Trim vector: scale it down to length `max_len` if it is longer,
    /// computed as `normalize() * min(len(), max_len)`.
    pub fn trim(&self, max_len: u64) -> (r: Vector2)
        ensures
            r == spec_trim(*self, max_len),
    {
        let n = self.normalize();
        n.mul_scalar(fmin(self.len(), max_len))
    }

    /// Cross multiply two vectors: the scalar z component of the 3D cross
    /// product, `x1*y2 - y1*x2`, usable as a signed-area / orientation
    /// test.
    pub fn cross(&self, other: Vector2) -> (r: u64)
        ensures
            r == spec_cross(*self, other),
    {
        fsub(fmul(self.x, other.y), fmul(self.y, other.x))
    }

    /// Dot multiply two vectors: the sum of the pairwise component
    /// products.
    pub fn dot(&self, other: Vector2) -> (r: u64)
        ensures
            r == spec_dot(*self, other),
    {
        fadd(fmul(self.x, other.x), fmul(self.y, other.y))
    }

    /// Get length of a vector: the square root of [`Vector2::len2`].
    pub fn len(&self) -> (r: u64)
        ensures
            r == spec_len(*self),
    {
        fsqrt(self.len2())
    }

    /// Get square length of a vector: the dot product with itself.
    pub fn len2(&self) -> (r: u64)
        ensures
            r == spec_len2(*self),
    {
        self.dot(*self)
    }

    /// Get distance between two vectors' endpoints.  The distance from a
    /// vector with all components finite to itself is +0.0 exactly.
    pub fn dist(&self, other: Vector2) -> (r: u64)
        ensures
            r == spec_dist(*self, other),
            self.x == other.x && self.y == other.y && is_finite(self.x) && is_finite(self.y)
                ==> r == ZERO_BITS,
    {
        fsqrt(self.dist2(other))
    }

    /// Get square distance between two vectors' endpoints.
    pub fn dist2(&self, other: Vector2) -> (r: u64)
        ensures
            r == spec_dist2(*self, other),
            self.x == other.x && self.y == other.y && is_finite(self.x) && is_finite(self.y)
                ==> r == ZERO_BITS,
    {
        let dx = fsub(self.x, other.x);
        let dy = fsub(self.y, other.y);
        fadd(fmul(dx, dx), fmul(dy, dy))
    }

    /// Rotate a vector by `angle` radians, counter-clockwise for a
    /// positive angle: the standard 2×2 rotation matrix applied to the
    /// vector.
    pub fn rotate(&self, angle: u64) -> (r: Vector2)
        ensures
            r == spec_rotate(*self, angle),
    {
        let c = fcos(angle);
        let s = fsin(angle);
        Vector2::new(
            fsub(fmul(c, self.x), fmul(s, self.y)),
            fadd(fmul(s, self.x), fmul(c, self.y)),
        )
    }

    /// Get the perpendicular vector of a vector: `(-y, x)`, a 90° rotation
    /// counter-clockwise.
    pub fn perpendicular(&self) -> (r: Vector2)
        ensures
            r == spec_perpendicular(*self),
    {
        Vector2::new(fneg(self.y), self.x)
    }

    /// The cosine of the unsigned angle between two directions:
    /// `dot(self, other) / (len(self) * len(other))`.  Its arc cosine is
    /// the angle between the two vectors; NaN when either has zero length.
    pub fn angle_between_cos(&self, other: Vector2) -> (r: u64)
        ensures
            r == spec_angle_between_cos(*self, other),
    {
        fdiv(self.dot(other), fmul(self.len(), other.len()))
    }

    /// Deconstruct vector from cartesian to polar: `(radius, angle)` where
    /// `radius` is the length and `angle` is `raw_angle` (the `atan2` of
    /// `y` and `x`, supplied by the caller) normalized into `(0, 2π]` by
    /// adding 2π whenever it is at most zero — an angle of exactly 0 is
    /// reported as 2π.
    pub fn to_polar(&self, raw_angle: u64) -> (r: (u64, u64))
        ensures
            r.0 == spec_len(*self),
            r.1 == spec_polar_angle(raw_angle),
    {
        let radius = self.len();
        let angle = if fle(raw_angle, ZERO_BITS) {
            fadd(raw_angle, TWO_PI_BITS)
        } else {
            raw_angle
        };
        (radius, angle)
    }

    /// Linear interpolation between two vectors: `self + (other - self) *
    /// step`.  The step is not clamped: values outside `[0, 1]`
    /// extrapolate beyond the two endpoints.
    pub fn lerp(&self, other: Vector2, step: u64) -> (r: Vector2)
        ensures
            r == spec_lerp(*self, other, step),
    {
        self.add(other.sub(*self).mul_scalar(step))
    }
}

} // verus!
