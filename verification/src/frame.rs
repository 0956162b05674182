//! The orientable gravity frame.
//!
//! A frame is a rotation of the identity basis, stored as a Pythagorean
//! triple `(c, s, d)` meaning cosine `c/d` and sine `s/d` with
//! `c^2 + s^2 == d^2` exactly. The basis columns are `right = (c/d, s/d)` and
//! `up = (-s/d, c/d)`, so the basis is orthonormal with determinant one by
//! construction, which justifies the transpose-multiply decomposition in
//! place of a general linear solve. Composition of two such triples is again
//! such a triple, so the invariant is preserved across the frame's lifetime.

use vstd::prelude::*;

use crate::errors::ValidationError;
use crate::rat::{
    fits, q_add, q_add_fits, q_eq, q_mul, q_mul_fits, q_sub, q_sub_fits, q_wf, q_zero, Rat,
    RatView,
};
use crate::vec2::{v_eq, v_wf, Vec2, Vec2View};

verus! {

/// A rotation (or an oriented frame) at the specification level:
/// cosine `c/d`, sine `s/d`.
pub struct RotView {
    pub c: int,
    pub s: int,
    pub d: int,
}

/// The triple lies on the unit circle exactly.
pub open spec fn rot_wf(r: RotView) -> bool {
    r.d > 0 && r.c * r.c + r.s * r.s == r.d * r.d
}

pub open spec fn rot_cos(r: RotView) -> RatView {
    RatView { n: r.c, d: r.d }
}

pub open spec fn rot_sin(r: RotView) -> RatView {
    RatView { n: r.s, d: r.d }
}

pub open spec fn rot_identity() -> RotView {
    RotView { c: 1, s: 0, d: 1 }
}

/// Two rotations denote the same orientation.
pub open spec fn rot_eq(a: RotView, b: RotView) -> bool {
    q_eq(rot_cos(a), rot_cos(b)) && q_eq(rot_sin(a), rot_sin(b))
}

/// The angle sum: `a` followed by `b`.
pub open spec fn rot_compose(a: RotView, b: RotView) -> RotView {
    RotView { c: a.c * b.c - a.s * b.s, s: a.c * b.s + a.s * b.c, d: a.d * b.d }
}

/// The opposite angle.
pub open spec fn rot_inverse(a: RotView) -> RotView {
    RotView { c: a.c, s: -a.s, d: a.d }
}

/// `basis * local`: a local-frame vector expressed in world coordinates.
pub open spec fn frame_apply(f: RotView, v: Vec2View) -> Vec2View {
    Vec2View {
        x: q_sub(q_mul(rot_cos(f), v.x), q_mul(rot_sin(f), v.y)),
        y: q_add(q_mul(rot_sin(f), v.x), q_mul(rot_cos(f), v.y)),
    }
}

/// The transpose solve: a world vector expressed in local coordinates.
/// Inverse of `frame_apply` whenever the frame is well-formed.
pub open spec fn frame_decompose(f: RotView, w: Vec2View) -> Vec2View {
    Vec2View {
        x: q_add(q_mul(rot_cos(f), w.x), q_mul(rot_sin(f), w.y)),
        y: q_sub(q_mul(rot_cos(f), w.y), q_mul(rot_sin(f), w.x)),
    }
}

/// `basis * (0, scalar)`: the world-space gravity vector for a scalar that
/// points along the local vertical axis.
pub open spec fn gravity_vec(f: RotView, scalar: RatView) -> Vec2View {
    frame_apply(f, Vec2View { x: q_zero(), y: scalar })
}

pub open spec fn rot_compose_fits(a: RotView, b: RotView) -> bool {
    &&& fits(a.c * b.c)
    &&& fits(a.s * b.s)
    &&& fits(a.c * b.c - a.s * b.s)
    &&& fits(a.c * b.s)
    &&& fits(a.s * b.c)
    &&& fits(a.c * b.s + a.s * b.c)
    &&& fits(a.d * b.d)
}

pub open spec fn frame_apply_fits(f: RotView, v: Vec2View) -> bool {
    &&& q_mul_fits(rot_cos(f), v.x)
    &&& q_mul_fits(rot_sin(f), v.y)
    &&& q_sub_fits(q_mul(rot_cos(f), v.x), q_mul(rot_sin(f), v.y))
    &&& q_mul_fits(rot_sin(f), v.x)
    &&& q_mul_fits(rot_cos(f), v.y)
    &&& q_add_fits(q_mul(rot_sin(f), v.x), q_mul(rot_cos(f), v.y))
}

pub open spec fn frame_decompose_fits(f: RotView, w: Vec2View) -> bool {
    &&& q_mul_fits(rot_cos(f), w.x)
    &&& q_mul_fits(rot_sin(f), w.y)
    &&& q_add_fits(q_mul(rot_cos(f), w.x), q_mul(rot_sin(f), w.y))
    &&& q_mul_fits(rot_cos(f), w.y)
    &&& q_mul_fits(rot_sin(f), w.x)
    &&& q_sub_fits(q_mul(rot_cos(f), w.y), q_mul(rot_sin(f), w.x))
}

/// The success condition of `Rotation::from_ratios`: every product of the
/// common-denominator triple and of the unit-circle check stays in range.
pub open spec fn from_ratios_fits(c: RatView, s: RatView) -> bool {
    &&& fits(c.n * s.d)
    &&& fits(s.n * c.d)
    &&& fits(c.d * s.d)
    &&& fits((c.n * s.d) * (c.n * s.d))
    &&& fits((s.n * c.d) * (s.n * c.d))
    &&& fits((c.n * s.d) * (c.n * s.d) + (s.n * c.d) * (s.n * c.d))
    &&& fits((c.d * s.d) * (c.d * s.d))
}

/// The unit-circle equation of the common-denominator triple of a
/// cosine/sine pair.
pub open spec fn ratios_on_unit_circle(c: RatView, s: RatView) -> bool {
    (c.n * s.d) * (c.n * s.d) + (s.n * c.d) * (s.n * c.d) == (c.d * s.d) * (c.d * s.d)
}

/// Components of a well-formed rotation are bounded by its denominator.
pub proof fn lemma_rot_bounds(r: RotView)
    by (nonlinear_arith)
    requires
        rot_wf(r),
    ensures
        -r.d <= r.c <= r.d,
        -r.d <= r.s <= r.d,
{
}

/// The Brahmagupta identity: a product of sums of two squares is itself a
/// sum of two squares.
proof fn lemma_square_of_product(a: int, b: int)
    by (nonlinear_arith)
    ensures
        (a * b) * (a * b) == (a * a) * (b * b),
{
}

proof fn lemma_sq_sub(p: int, q: int)
    by (nonlinear_arith)
    ensures
        (p - q) * (p - q) == p * p - 2 * (p * q) + q * q,
{
}

proof fn lemma_sq_add(p: int, q: int)
    by (nonlinear_arith)
    ensures
        (p + q) * (p + q) == p * p + 2 * (p * q) + q * q,
{
}

proof fn lemma_swap_products(x: int, y: int, u: int, v: int)
    by (nonlinear_arith)
    ensures
        (x * u) * (y * v) == (x * v) * (y * u),
{
}

proof fn lemma_dist(p: int, q: int, r: int, s: int)
    by (nonlinear_arith)
    ensures
        (p + q) * (r + s) == p * r + p * s + q * r + q * s,
{
}

proof fn lemma_two_squares(x: int, y: int, u: int, v: int)
    ensures
        (x * u - y * v) * (x * u - y * v) + (x * v + y * u) * (x * v + y * u) == (x * x + y
            * y) * (u * u + v * v),
{
    lemma_sq_sub(x * u, y * v);
    lemma_sq_add(x * v, y * u);
    lemma_square_of_product(x, u);
    lemma_square_of_product(y, v);
    lemma_square_of_product(x, v);
    lemma_square_of_product(y, u);
    lemma_swap_products(x, y, u, v);
    lemma_dist(x * x, y * y, u * u, v * v);
}

/// Composition preserves the unit-circle invariant.
pub proof fn lemma_rot_compose_wf(a: RotView, b: RotView)
    requires
        rot_wf(a),
        rot_wf(b),
    ensures
        rot_wf(rot_compose(a, b)),
{
    lemma_two_squares(a.c, a.s, b.c, b.s);
    lemma_square_of_product(a.d, b.d);
    vstd::arithmetic::mul::lemma_mul_strictly_positive(a.d, b.d);
}

/// The inverse rotation is well-formed.
pub proof fn lemma_rot_inverse_wf(a: RotView)
    by (nonlinear_arith)
    requires
        rot_wf(a),
    ensures
        rot_wf(rot_inverse(a)),
{
}

/// Rotating by the identity (a zero angle) changes nothing at all.
pub proof fn lemma_rotate_zero_identity(f: RotView)
    ensures
        rot_compose(f, rot_identity()) == f,
{
}

/// Rotating by an angle and then by its opposite restores the original
/// orientation exactly.
proof fn lemma_mul_neg(x: int, y: int)
    by (nonlinear_arith)
    ensures
        x * (-y) == -(x * y),
{
}

/// Composing with the angle and then its opposite cancels componentwise.
proof fn lemma_rot_cancel(fc: int, fs: int, rc: int, rs: int)
    by (nonlinear_arith)
    ensures
        (fc * rc - fs * rs) * rc + (fc * rs + fs * rc) * rs == fc * (rc * rc + rs * rs),
        (fc * rs + fs * rc) * rc - (fc * rc - fs * rs) * rs == fs * (rc * rc + rs * rs),
{
}

pub proof fn lemma_rotate_then_inverse(f: RotView, r: RotView)
    requires
        rot_wf(f),
        rot_wf(r),
    ensures
        rot_eq(rot_compose(rot_compose(f, r), rot_inverse(r)), f),
{
    lemma_mul_neg(f.c * r.s + f.s * r.c, r.s);
    lemma_mul_neg(f.c * r.c - f.s * r.s, r.s);
    lemma_rot_cancel(f.c, f.s, r.c, r.s);
    assert((f.c * (r.d * r.d)) * f.d == f.c * ((f.d * r.d) * r.d)) by (nonlinear_arith);
    assert((f.s * (r.d * r.d)) * f.d == f.s * ((f.d * r.d) * r.d)) by (nonlinear_arith);
}

/// Decomposing a vector that was expressed through the frame recovers it:
/// the transpose multiply inverts `frame_apply` on well-formed frames.
/// Decomposing after applying cancels the frame componentwise.
proof fn lemma_frame_cancel(c: int, s: int, a: int, b: int)
    by (nonlinear_arith)
    ensures
        c * (c * a - s * b) + s * (s * a + c * b) == (c * c + s * s) * a,
        c * (s * a + c * b) - s * (c * a - s * b) == (c * c + s * s) * b,
{
}

pub proof fn lemma_decompose_apply(f: RotView, v: Vec2View)
    requires
        rot_wf(f),
        v_wf(v),
    ensures
        v_eq(frame_decompose(f, frame_apply(f, v)), v),
{
    let w = frame_apply(f, v);
    let l = frame_decompose(f, w);
    let dd = w.x.d;
    let a = v.x.n * (f.d * v.y.d);
    let b = v.y.n * (f.d * v.x.d);
    assert((f.c * v.x.n) * (f.d * v.y.d) == f.c * (v.x.n * (f.d * v.y.d)))
        by (nonlinear_arith);
    assert((f.s * v.y.n) * (f.d * v.x.d) == f.s * (v.y.n * (f.d * v.x.d)))
        by (nonlinear_arith);
    assert((f.s * v.x.n) * (f.d * v.y.d) == f.s * (v.x.n * (f.d * v.y.d)))
        by (nonlinear_arith);
    assert((f.c * v.y.n) * (f.d * v.x.d) == f.c * (v.y.n * (f.d * v.x.d)))
        by (nonlinear_arith);
    lemma_frame_cancel(f.c, f.s, a, b);
    assert((f.d * f.d) * (v.x.n * (f.d * v.y.d)) == (f.d * f.d) * ((f.d * v.y.d) * v.x.n))
        by (nonlinear_arith);
    assert((f.d * f.d) * (v.y.n * (f.d * v.x.d)) == (f.d * f.d) * ((f.d * v.x.d) * v.y.n))
        by (nonlinear_arith);
    assert(f.c * w.x.n + f.s * w.y.n == (f.d * f.d) * ((f.d * v.y.d) * v.x.n));
    assert(l.x.n * v.x.d == v.x.n * l.x.d) by (nonlinear_arith)
        requires
            l.x.n == (f.c * w.x.n) * (f.d * dd) + (f.s * w.y.n) * (f.d * dd),
            l.x.d == (f.d * dd) * (f.d * dd),
            dd == (f.d * v.x.d) * (f.d * v.y.d),
            f.c * w.x.n + f.s * w.y.n == (f.d * f.d) * ((f.d * v.y.d) * v.x.n),
    ;
    assert(f.c * w.y.n - f.s * w.x.n == (f.d * f.d) * ((f.d * v.x.d) * v.y.n));
    assert(l.y.n * v.y.d == v.y.n * l.y.d) by (nonlinear_arith)
        requires
            l.y.n == (f.c * w.y.n) * (f.d * dd) - (f.s * w.x.n) * (f.d * dd),
            l.y.d == (f.d * dd) * (f.d * dd),
            dd == (f.d * v.x.d) * (f.d * v.y.d),
            f.c * w.y.n - f.s * w.x.n == (f.d * f.d) * ((f.d * v.x.d) * v.y.n),
    ;
}

/// Decomposing the gravity vector recovers exactly `(0, scalar)`: the
/// frame-local gravity always points straight down the local vertical.
pub proof fn lemma_decompose_gravity_vector(f: RotView, scalar: RatView)
    requires
        rot_wf(f),
        q_wf(scalar),
    ensures
        v_eq(
            frame_decompose(f, gravity_vec(f, scalar)),
            Vec2View { x: q_zero(), y: scalar },
        ),
{
    lemma_decompose_apply(f, Vec2View { x: q_zero(), y: scalar });
}

/// An executable rotation: an exact point of the unit circle. Constructors
/// only ever yield well-formed values, so any reachable rotation keeps
/// `c^2 + s^2 == d^2` with `d > 0`.
#[derive(Clone, Copy, Debug, PartialEq, Eq, Structural)]
pub struct Rotation {
    c: i128,
    s: i128,
    d: i128,
}

impl View for Rotation {
    type V = RotView;

    closed spec fn view(&self) -> RotView {
        RotView { c: self.c as int, s: self.s as int, d: self.d as int }
    }
}

impl Rotation {
    pub open spec fn wf(self) -> bool {
        rot_wf(self@)
    }

    /// The zero angle.
    pub fn identity() -> (r: Rotation)
        ensures
            r.wf(),
            r@ == rot_identity(),
    {
        Rotation { c: 1, s: 0, d: 1 }
    }

    /// A quarter turn counter-clockwise.
    pub fn quarter_turn_ccw() -> (r: Rotation)
        ensures
            r.wf(),
            r@ == (RotView { c: 0, s: 1, d: 1 }),
    {
        Rotation { c: 0, s: 1, d: 1 }
    }

    /// A quarter turn clockwise.
    pub fn quarter_turn_cw() -> (r: Rotation)
        ensures
            r.wf(),
            r@ == (RotView { c: 0, s: -1, d: 1 }),
    {
        proof {
            assert(((-1) as int) * ((-1) as int) == 1) by (nonlinear_arith);
        }
        Rotation { c: 0, s: -1, d: 1 }
    }

    /// Half a turn.
    pub fn half_turn() -> (r: Rotation)
        ensures
            r.wf(),
            r@ == (RotView { c: -1, s: 0, d: 1 }),
    {
        proof {
            assert(((-1) as int) * ((-1) as int) == 1) by (nonlinear_arith);
        }
        Rotation { c: -1, s: 0, d: 1 }
    }

    /// Builds a rotation from an exact cosine/sine pair. Rejects pairs that
    /// do not lie on the unit circle; `OutOfRange` marks machine-range
    /// exhaustion of the exact cross products.
    pub fn from_ratios(cos: &Rat, sin: &Rat) -> (r: Result<Rotation, ValidationError>)
        requires
            cos.wf(),
            sin.wf(),
        ensures
            r is Ok <==> from_ratios_fits(cos@, sin@) && ratios_on_unit_circle(cos@, sin@),
            r matches Ok(rot) ==> {
                &&& rot.wf()
                &&& rot@ == (RotView {
                    c: cos@.n * sin@.d,
                    s: sin@.n * cos@.d,
                    d: cos@.d * sin@.d,
                })
                &&& q_eq(rot_cos(rot@), cos@)
                &&& q_eq(rot_sin(rot@), sin@)
            },
            !from_ratios_fits(cos@, sin@) ==> r == Err::<Rotation, ValidationError>(
                ValidationError::OutOfRange,
            ),
            from_ratios_fits(cos@, sin@) && !ratios_on_unit_circle(cos@, sin@) ==> r
                == Err::<Rotation, ValidationError>(ValidationError::NotARotation),
    {
        let c = match cos.num().checked_mul(sin.den()) {
            Some(v) => v,
            None => {
                return Err(ValidationError::OutOfRange);
            },
        };
        let s = match sin.num().checked_mul(cos.den()) {
            Some(v) => v,
            None => {
                return Err(ValidationError::OutOfRange);
            },
        };
        let d = match cos.den().checked_mul(sin.den()) {
            Some(v) => v,
            None => {
                return Err(ValidationError::OutOfRange);
            },
        };
        let cc = match c.checked_mul(c) {
            Some(v) => v,
            None => {
                return Err(ValidationError::OutOfRange);
            },
        };
        let ss = match s.checked_mul(s) {
            Some(v) => v,
            None => {
                return Err(ValidationError::OutOfRange);
            },
        };
        let unit = match cc.checked_add(ss) {
            Some(v) => v,
            None => {
                return Err(ValidationError::OutOfRange);
            },
        };
        let dd = match d.checked_mul(d) {
            Some(v) => v,
            None => {
                return Err(ValidationError::OutOfRange);
            },
        };
        if unit != dd {
            return Err(ValidationError::NotARotation);
        }
        proof {
            vstd::arithmetic::mul::lemma_mul_strictly_positive(cos@.d, sin@.d);
            assert((cos@.n * sin@.d) * cos@.d == cos@.n * (cos@.d * sin@.d))
                by (nonlinear_arith);
            assert((sin@.n * cos@.d) * sin@.d == sin@.n * (cos@.d * sin@.d))
                by (nonlinear_arith);
        }
        Ok(Rotation { c, s, d })
    }

    /// The rotation by the opposite angle.
    pub fn inverse(&self) -> (r: Rotation)
        requires
            self.wf(),
        ensures
            r.wf(),
            r@ == rot_inverse(self@),
    {
        proof {
            lemma_rot_bounds(self@);
            lemma_rot_inverse_wf(self@);
        }
        Rotation { c: self.c, s: -self.s, d: self.d }
    }

    /// The angle sum; `None` exactly on machine-range exhaustion.
    pub fn compose(&self, rhs: &Rotation) -> (r: Option<Rotation>)
        requires
            self.wf(),
            rhs.wf(),
        ensures
            r is Some <==> rot_compose_fits(self@, rhs@),
            r matches Some(v) ==> v@ == rot_compose(self@, rhs@) && v.wf(),
    {
        let cc = self.c.checked_mul(rhs.c)?;
        let ss = self.s.checked_mul(rhs.s)?;
        let c = cc.checked_sub(ss)?;
        let cs = self.c.checked_mul(rhs.s)?;
        let sc = self.s.checked_mul(rhs.c)?;
        let s = cs.checked_add(sc)?;
        let d = self.d.checked_mul(rhs.d)?;
        proof {
            lemma_rot_compose_wf(self@, rhs@);
        }
        Some(Rotation { c, s, d })
    }

    /// The exact cosine of the rotation.
    pub fn cos(&self) -> (r: Rat)
        requires
            self.wf(),
        ensures
            r.wf(),
            r@ == rot_cos(self@),
    {
        Rat::from_parts(self.c, self.d)
    }

    /// The exact sine of the rotation.
    pub fn sin(&self) -> (r: Rat)
        requires
            self.wf(),
        ensures
            r.wf(),
            r@ == rot_sin(self@),
    {
        Rat::from_parts(self.s, self.d)
    }
}

/// The orientable basis that gravity and movement are expressed through.
/// Starts as the identity orientation; rotation is the only mutator, so the
/// basis is always an exact rotation of the identity.
#[derive(Clone, Copy, Debug, PartialEq, Eq, Structural)]
pub struct GravityFrame {
    orientation: Rotation,
}

impl View for GravityFrame {
    type V = RotView;

    closed spec fn view(&self) -> RotView {
        self.orientation@
    }
}

impl GravityFrame {
    pub open spec fn wf(self) -> bool {
        rot_wf(self@)
    }

    /// The identity orientation: local and world coordinates coincide.
    pub fn identity() -> (r: GravityFrame)
        ensures
            r.wf(),
            r@ == rot_identity(),
    {
        GravityFrame { orientation: Rotation::identity() }
    }

    /// A frame at a given orientation.
    pub fn from_rotation(rot: Rotation) -> (r: GravityFrame)
        ensures
            r@ == rot@,
    {
        GravityFrame { orientation: rot }
    }

    /// The frame's orientation as a rotation of the identity.
    pub fn orientation(&self) -> (r: Rotation)
        ensures
            r@ == self@,
    {
        self.orientation
    }

    /// Applies a rotation to the basis in place. Composable: repeated calls
    /// accumulate orientation. Returns false and leaves the frame unchanged
    /// exactly on machine-range exhaustion.
    pub fn rotate(&mut self, rot: &Rotation) -> (ok: bool)
        requires
            old(self).wf(),
            rot.wf(),
        ensures
            ok <==> rot_compose_fits(old(self)@, rot@),
            ok ==> final(self)@ == rot_compose(old(self)@, rot@) && final(self).wf(),
            !ok ==> *final(self) == *old(self),
    {
        match self.orientation.compose(rot) {
            Some(r) => {
                self.orientation = r;
                true
            },
            None => false,
        }
    }

    /// `basis * local`: expresses a local-frame vector in world coordinates.
    pub fn apply(&self, local: &Vec2) -> (r: Option<Vec2>)
        requires
            self.wf(),
            local.wf(),
        ensures
            r is Some <==> frame_apply_fits(self@, local@),
            r matches Some(w) ==> w@ == frame_apply(self@, local@) && w.wf(),
    {
        let cos = self.orientation.cos();
        let sin = self.orientation.sin();
        let cx = cos.mul(&local.x)?;
        let sy = sin.mul(&local.y)?;
        let x = cx.sub(&sy)?;
        let sx = sin.mul(&local.x)?;
        let cy = cos.mul(&local.y)?;
        let y = sx.add(&cy)?;
        Some(Vec2::new(x, y))
    }

    /// Solves `basis * local == world` for `local`. Because the basis is a
    /// proven rotation, the transpose multiply is the exact solution.
    pub fn decompose(&self, world: &Vec2) -> (r: Option<Vec2>)
        requires
            self.wf(),
            world.wf(),
        ensures
            r is Some <==> frame_decompose_fits(self@, world@),
            r matches Some(l) ==> l@ == frame_decompose(self@, world@) && l.wf(),
    {
        let cos = self.orientation.cos();
        let sin = self.orientation.sin();
        let cx = cos.mul(&world.x)?;
        let sy = sin.mul(&world.y)?;
        let x = cx.add(&sy)?;
        let cy = cos.mul(&world.y)?;
        let sx = sin.mul(&world.x)?;
        let y = cy.sub(&sx)?;
        Some(Vec2::new(x, y))
    }

    /// `basis * (0, scalar)`: the gravity acceleration in world coordinates
    /// for a scalar acting along the local vertical axis.
    pub fn gravity_vector(&self, scalar: &Rat) -> (r: Option<Vec2>)
        requires
            self.wf(),
            scalar.wf(),
        ensures
            r is Some <==> frame_apply_fits(self@, Vec2View { x: q_zero(), y: scalar@ }),
            r matches Some(w) ==> w@ == gravity_vec(self@, scalar@) && w.wf(),
    {
        let local = Vec2::new(Rat::zero(), *scalar);
        self.apply(&local)
    }
}

} // verus!
