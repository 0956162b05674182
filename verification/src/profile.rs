//! Designer-facing configuration and the parameter solver.
//!
//! A `JumpProfile` carries the jump-design parameters; `solve` derives the
//! simulation constants from symmetric-projectile kinematics. With horizontal
//! half-span `x_h = d / 2`, the derived constants satisfy exactly
//! `jump_velocity = 2 h v / x_h = 4 h v / d` and
//! `jump_gravity = -2 h v^2 / x_h^2 = -8 h v^2 / d^2`, so the rendered arc
//! peaks at height `h` after a horizontal run of `d / 2` regardless of the
//! tick rate. `fall_gravity = heavy_scalar * jump_gravity` gives the snappier
//! descent.

use vstd::prelude::*;

use crate::errors::ValidationError;
use crate::rat::{
    fits, q_eq, q_int, q_le, q_lt, q_mul, q_neg, q_one, q_wf, q_zero, Rat, RatView,
};

verus! {

/// Immutable jump-design configuration, validated at construction.
#[derive(Clone, Copy, Debug, PartialEq, Eq, Structural)]
pub struct JumpProfile {
    /// `v`: the horizontal speed the jump arc is designed for.
    pub max_horizontal_speed: Rat,
    /// `d`: the designed peak-to-peak horizontal span of a full jump.
    pub jump_distance: Rat,
    /// `h`: the designed apex height of a jump.
    pub jump_height: Rat,
    /// Fall-gravity multiplier, at least one.
    pub heavy_scalar: Rat,
    /// How many jumps may be taken before touching ground again.
    pub max_jumps: u8,
    /// Distance from the origin beyond which an entity respawns.
    pub boundary_radius: Rat,
}

impl JumpProfile {
    /// The profile invariants: `v > 0`, `d > 0`, `h > 0`, `heavy_scalar >= 1`,
    /// `max_jumps >= 1`, and a non-negative boundary radius.
    pub open spec fn wf(self) -> bool {
        &&& self.max_horizontal_speed.wf()
        &&& self.jump_distance.wf()
        &&& self.jump_height.wf()
        &&& self.heavy_scalar.wf()
        &&& self.boundary_radius.wf()
        &&& q_lt(q_zero(), self.max_horizontal_speed@)
        &&& q_lt(q_zero(), self.jump_distance@)
        &&& q_lt(q_zero(), self.jump_height@)
        &&& q_le(q_one(), self.heavy_scalar@)
        &&& self.max_jumps >= 1
        &&& q_le(q_zero(), self.boundary_radius@)
    }

    /// Validates and builds a profile; each rejected invariant names its own
    /// error, checked in field order.
    pub fn new(
        max_horizontal_speed: Rat,
        jump_distance: Rat,
        jump_height: Rat,
        heavy_scalar: Rat,
        max_jumps: u8,
        boundary_radius: Rat,
    ) -> (r: Result<JumpProfile, ValidationError>)
        requires
            max_horizontal_speed.wf(),
            jump_distance.wf(),
            jump_height.wf(),
            heavy_scalar.wf(),
            boundary_radius.wf(),
        ensures
            r matches Ok(p) ==> p == (JumpProfile {
                max_horizontal_speed,
                jump_distance,
                jump_height,
                heavy_scalar,
                max_jumps,
                boundary_radius,
            }) && p.wf(),
            !q_lt(q_zero(), max_horizontal_speed@) ==> r == Err::<
                JumpProfile,
                ValidationError,
            >(ValidationError::NonPositiveSpeed),
            q_lt(q_zero(), max_horizontal_speed@) && !q_lt(q_zero(), jump_distance@) ==> r
                == Err::<JumpProfile, ValidationError>(ValidationError::NonPositiveDistance),
            q_lt(q_zero(), max_horizontal_speed@) && q_lt(q_zero(), jump_distance@) && !q_lt(
                q_zero(),
                jump_height@,
            ) ==> r == Err::<JumpProfile, ValidationError>(ValidationError::NonPositiveHeight),
            q_lt(q_zero(), max_horizontal_speed@) && q_lt(q_zero(), jump_distance@) && q_lt(
                q_zero(),
                jump_height@,
            ) && !q_le(q_one(), heavy_scalar@) ==> r == Err::<JumpProfile, ValidationError>(
                ValidationError::HeavyScalarBelowOne,
            ),
            q_lt(q_zero(), max_horizontal_speed@) && q_lt(q_zero(), jump_distance@) && q_lt(
                q_zero(),
                jump_height@,
            ) && q_le(q_one(), heavy_scalar@) && max_jumps == 0 ==> r == Err::<
                JumpProfile,
                ValidationError,
            >(ValidationError::ZeroMaxJumps),
            q_lt(q_zero(), max_horizontal_speed@) && q_lt(q_zero(), jump_distance@) && q_lt(
                q_zero(),
                jump_height@,
            ) && q_le(q_one(), heavy_scalar@) && max_jumps >= 1 && !q_le(
                q_zero(),
                boundary_radius@,
            ) ==> r == Err::<JumpProfile, ValidationError>(
                ValidationError::NegativeBoundaryRadius,
            ),
            r is Ok <==> q_lt(q_zero(), max_horizontal_speed@) && q_lt(q_zero(), jump_distance@)
                && q_lt(q_zero(), jump_height@) && q_le(q_one(), heavy_scalar@) && max_jumps
                >= 1 && q_le(q_zero(), boundary_radius@),
    {
        if !max_horizontal_speed.is_pos() {
            return Err(ValidationError::NonPositiveSpeed);
        }
        if !jump_distance.is_pos() {
            return Err(ValidationError::NonPositiveDistance);
        }
        if !jump_height.is_pos() {
            return Err(ValidationError::NonPositiveHeight);
        }
        if heavy_scalar.num() < heavy_scalar.den() {
            return Err(ValidationError::HeavyScalarBelowOne);
        }
        if max_jumps == 0 {
            return Err(ValidationError::ZeroMaxJumps);
        }
        if boundary_radius.is_neg() {
            return Err(ValidationError::NegativeBoundaryRadius);
        }
        Ok(
            JumpProfile {
                max_horizontal_speed,
                jump_distance,
                jump_height,
                heavy_scalar,
                max_jumps,
                boundary_radius,
            },
        )
    }
}

/// `4 h v / d`, the initial upward speed of a jump.
pub open spec fn jump_velocity_model(v: RatView, d: RatView, h: RatView) -> RatView {
    RatView { n: (4 * (h.n * v.n)) * d.d, d: (h.d * v.d) * d.n }
}

/// `-8 h v^2 / d^2`, the gravity in effect while rising.
pub open spec fn jump_gravity_model(v: RatView, d: RatView, h: RatView) -> RatView {
    RatView {
        n: (-8) * ((h.n * (v.n * v.n)) * (d.d * d.d)),
        d: (h.d * (v.d * v.d)) * (d.n * d.n),
    }
}

/// `heavy_scalar * jump_gravity`, the gravity in effect while falling.
pub open spec fn fall_gravity_model(
    v: RatView,
    d: RatView,
    h: RatView,
    heavy: RatView,
) -> RatView {
    q_mul(heavy, jump_gravity_model(v, d, h))
}

/// The success condition of `solve`: every exact product of the derivation
/// stays in the machine range.
pub open spec fn solve_fits(v: RatView, d: RatView, h: RatView, heavy: RatView) -> bool {
    &&& fits(h.n * v.n)
    &&& fits(4 * (h.n * v.n))
    &&& fits((4 * (h.n * v.n)) * d.d)
    &&& fits(h.d * v.d)
    &&& fits((h.d * v.d) * d.n)
    &&& fits(v.n * v.n)
    &&& fits(h.n * (v.n * v.n))
    &&& fits(d.d * d.d)
    &&& fits((h.n * (v.n * v.n)) * (d.d * d.d))
    &&& fits((-8) * ((h.n * (v.n * v.n)) * (d.d * d.d)))
    &&& fits(v.d * v.d)
    &&& fits(h.d * (v.d * v.d))
    &&& fits(d.n * d.n)
    &&& fits((h.d * (v.d * v.d)) * (d.n * d.n))
    &&& fits(heavy.n * ((-8) * ((h.n * (v.n * v.n)) * (d.d * d.d))))
    &&& fits(heavy.d * ((h.d * (v.d * v.d)) * (d.n * d.n)))
}

/// The constants derived once from a profile and cached for its lifetime.
#[derive(Clone, Copy, Debug, PartialEq, Eq, Structural)]
pub struct DerivedConstants {
    /// Positive initial upward speed of a jump.
    pub jump_velocity: Rat,
    /// Negative gravity scalar in effect while rising.
    pub jump_gravity: Rat,
    /// Negative gravity scalar in effect while falling.
    pub fall_gravity: Rat,
}

impl DerivedConstants {
    /// The constants are exactly the solver's models for the profile.
    pub open spec fn matches_profile(self, p: JumpProfile) -> bool {
        &&& self.jump_velocity@ == jump_velocity_model(
            p.max_horizontal_speed@,
            p.jump_distance@,
            p.jump_height@,
        )
        &&& self.jump_gravity@ == jump_gravity_model(
            p.max_horizontal_speed@,
            p.jump_distance@,
            p.jump_height@,
        )
        &&& self.fall_gravity@ == fall_gravity_model(
            p.max_horizontal_speed@,
            p.jump_distance@,
            p.jump_height@,
            p.heavy_scalar@,
        )
        &&& self.jump_velocity.wf()
        &&& self.jump_gravity.wf()
        &&& self.fall_gravity.wf()
    }
}

/// Derives the simulation constants from a profile. Division by zero is
/// impossible: the profile's validated `d > 0` is the divisor. `None` marks
/// machine-range exhaustion of the exact products, nothing else.
pub fn solve(p: &JumpProfile) -> (r: Option<DerivedConstants>)
    requires
        p.wf(),
    ensures
        r is Some <==> solve_fits(
            p.max_horizontal_speed@,
            p.jump_distance@,
            p.jump_height@,
            p.heavy_scalar@,
        ),
        r matches Some(c) ==> c.matches_profile(*p),
{
    let v = &p.max_horizontal_speed;
    let d = &p.jump_distance;
    let h = &p.jump_height;
    let heavy = &p.heavy_scalar;
    let hv = h.num().checked_mul(v.num())?;
    let hv4 = (4i128).checked_mul(hv)?;
    let jv_n = hv4.checked_mul(d.den())?;
    let hvd = h.den().checked_mul(v.den())?;
    let jv_d = hvd.checked_mul(d.num())?;
    let vv = v.num().checked_mul(v.num())?;
    let hvv = h.num().checked_mul(vv)?;
    let dd2 = d.den().checked_mul(d.den())?;
    let hvvdd = hvv.checked_mul(dd2)?;
    let jg_n = (-8i128).checked_mul(hvvdd)?;
    let vd2 = v.den().checked_mul(v.den())?;
    let hvd2 = h.den().checked_mul(vd2)?;
    let dn2 = d.num().checked_mul(d.num())?;
    let jg_d = hvd2.checked_mul(dn2)?;
    let fg_n = heavy.num().checked_mul(jg_n)?;
    let fg_d = heavy.den().checked_mul(jg_d)?;
    proof {
        assert(0 < d@.n) by (nonlinear_arith)
            requires
                0 * d@.d < d@.n * 1,
        ;
        vstd::arithmetic::mul::lemma_mul_strictly_positive(h@.d, v@.d);
        vstd::arithmetic::mul::lemma_mul_strictly_positive(hvd as int, d@.n);
        vstd::arithmetic::mul::lemma_mul_strictly_positive(v@.d, v@.d);
        vstd::arithmetic::mul::lemma_mul_strictly_positive(h@.d, vd2 as int);
        vstd::arithmetic::mul::lemma_mul_strictly_positive(d@.n, d@.n);
        vstd::arithmetic::mul::lemma_mul_strictly_positive(hvd2 as int, dn2 as int);
        vstd::arithmetic::mul::lemma_mul_strictly_positive(heavy@.d, jg_d as int);
    }
    Some(
        DerivedConstants {
            jump_velocity: Rat::from_parts(jv_n, jv_d),
            jump_gravity: Rat::from_parts(jg_n, jg_d),
            fall_gravity: Rat::from_parts(fg_n, fg_d),
        },
    )
}

proof fn lemma_shuffle_jv(a: int, b: int, x: int, y: int)
    by (nonlinear_arith)
    ensures
        ((a * x) * y) * (1 * b) == a * ((b * y) * x),
{
}

proof fn lemma_shuffle_jg(p: int, q: int, r: int, s: int)
    by (nonlinear_arith)
    ensures
        (((-8) * (p * r)) * s) * (1 * q) == (-(8 * p)) * ((q * s) * r),
{
}

/// The derived constants satisfy the symmetric-projectile kinematics of the
/// design contract exactly: `jump_velocity * d == 4 h v` (that is,
/// `jump_velocity == 2 h v / (d/2)`) and
/// `jump_gravity * d^2 == -(8 h v^2)` (that is,
/// `jump_gravity == -2 h v^2 / (d/2)^2`); the jump speed is positive and the
/// jump gravity negative.
pub proof fn lemma_solver_kinematics(v: RatView, d: RatView, h: RatView)
    requires
        q_wf(v),
        q_wf(d),
        q_wf(h),
        q_lt(q_zero(), v),
        q_lt(q_zero(), d),
        q_lt(q_zero(), h),
    ensures
        q_eq(q_mul(jump_velocity_model(v, d, h), d), q_mul(q_int(4), q_mul(h, v))),
        q_eq(
            q_mul(jump_gravity_model(v, d, h), q_mul(d, d)),
            q_neg(q_mul(q_int(8), q_mul(h, q_mul(v, v)))),
        ),
        q_lt(q_zero(), jump_velocity_model(v, d, h)),
        q_lt(jump_gravity_model(v, d, h), q_zero()),
{
    lemma_shuffle_jv(4 * (h.n * v.n), h.d * v.d, d.d, d.n);
    lemma_shuffle_jg(h.n * (v.n * v.n), h.d * (v.d * v.d), d.d * d.d, d.n * d.n);
    assert(0 < v.n) by (nonlinear_arith)
        requires
            0 * v.d < v.n * 1,
    ;
    assert(0 < d.n) by (nonlinear_arith)
        requires
            0 * d.d < d.n * 1,
    ;
    assert(0 < h.n) by (nonlinear_arith)
        requires
            0 * h.d < h.n * 1,
    ;
    assert(0 * ((h.d * v.d) * d.n) < ((4 * (h.n * v.n)) * d.d) * 1) by (nonlinear_arith)
        requires
            0 < v.n,
            0 < d.n,
            0 < h.n,
            0 < v.d,
            0 < d.d,
            0 < h.d,
    ;
    assert(((-8) * ((h.n * (v.n * v.n)) * (d.d * d.d))) * 1 < 0 * ((h.d * (v.d * v.d)) * (d.n
        * d.n))) by (nonlinear_arith)
        requires
            0 < v.n,
            0 < d.d,
            0 < h.n,
    ;
}

} // verus!
