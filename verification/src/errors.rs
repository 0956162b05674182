//! Error taxonomy.
//!
//! `ValidationError` is the recoverable, construction-time rejection of bad
//! configuration. It is the only error of the core: a decomposition against a
//! non-invertible basis cannot arise, because every constructible frame
//! provably satisfies the unit-circle invariant, and all other per-tick
//! operations on valid state are total.

use vstd::prelude::*;

verus! {

/// Rejection of invalid configuration at construction time.
#[derive(Clone, Copy, Debug, PartialEq, Eq, Structural)]
pub enum ValidationError {
    /// `max_horizontal_speed` must be strictly positive.
    NonPositiveSpeed,
    /// `jump_distance` must be strictly positive.
    NonPositiveDistance,
    /// `jump_height` must be strictly positive.
    NonPositiveHeight,
    /// `heavy_scalar` must be at least one.
    HeavyScalarBelowOne,
    /// `max_jumps` must be at least one.
    ZeroMaxJumps,
    /// `boundary_radius` must not be negative.
    NegativeBoundaryRadius,
    /// The given cosine/sine pair does not lie on the unit circle.
    NotARotation,
    /// An exact intermediate value left the machine integer range.
    OutOfRange,
}

} // verus!
