//! Error kinds.
//!
//! Construction of a central body fails fast on a basis that is not an
//! orthonormal right-handed triple, or on a non-positive gravitational
//! parameter; the basis is never silently corrected.  Orbit shapes outside
//! the bound elliptical case are rejected with their own kinds, as is a
//! solver run that missed a requested tolerance.

use vstd::prelude::*;

verus! {

/// Why a central body could not be built.
#[derive(Clone, Copy, PartialEq, Eq, Structural, Debug)]
pub enum ValidationError {
    /// Two basis vectors are not perpendicular.
    NotOrthogonal,
    /// A basis vector does not have unit length.
    NotUnitLength,
    /// The basis is left-handed: the first two axes do not cross into the third.
    NotRightHanded,
    /// The gravitational parameter is not positive.
    NonPositiveMu,
}

/// Why a set of orbital elements was rejected.
#[derive(Clone, Copy, PartialEq, Eq, Structural, Debug)]
pub enum ShapeError {
    /// The semi-major axis is zero or negative: not a bound orbit.
    NonPositiveSemiMajorAxis,
    /// The semi-major axis is outside the fixed-point working range.
    SemiMajorAxisOutOfRange,
    /// The eccentricity is negative.
    NegativeEccentricity,
    /// The eccentricity is within tolerance of one: a parabolic orbit.
    ParabolicEccentricity,
    /// The eccentricity exceeds one: a hyperbolic orbit.
    HyperbolicEccentricity,
}

/// Why a conversion between representations failed.
#[derive(Clone, Copy, PartialEq, Eq, Structural, Debug)]
pub enum ConversionError {
    /// The state describes an orbit shape this library does not support.
    Shape(ShapeError),
    /// The state is singular: a zero radius or a zero angular momentum.
    SingularState,
    /// The Kepler solver missed the requested tolerance within its budget.
    NotConverged,
}

} // verus!
