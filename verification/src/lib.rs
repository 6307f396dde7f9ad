//! A small geometric math library: 2- and 3-component vectors of IEEE-754
//! binary64 scalars, with arithmetic, normalization, distance, rotation,
//! interpolation and polar conversion.
//!
//! Verus has no floating-point support, so every scalar is carried as the
//! `u64` bit pattern of an IEEE-754 binary64 value.  The vector logic — which
//! components combine, through which operations, in which order — is verified
//! here; the scalar operations themselves are performed by an outside
//! soft-float crate behind a small trusted layer in [`scalar`].

pub mod scalar;
pub mod vector2;
pub mod vector3;
