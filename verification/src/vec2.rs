//! Two-dimensional vectors over exact rationals.

use vstd::prelude::*;

use crate::rat::{
    q_add, q_add_fits, q_eq, q_mul, q_mul_fits, q_wf, q_zero, Rat, RatView,
};

verus! {

/// A 2D vector at the specification level.
pub struct Vec2View {
    pub x: RatView,
    pub y: RatView,
}

pub open spec fn v_wf(v: Vec2View) -> bool {
    q_wf(v.x) && q_wf(v.y)
}

/// Componentwise rational equality.
pub open spec fn v_eq(a: Vec2View, b: Vec2View) -> bool {
    q_eq(a.x, b.x) && q_eq(a.y, b.y)
}

pub open spec fn v_add(a: Vec2View, b: Vec2View) -> Vec2View {
    Vec2View { x: q_add(a.x, b.x), y: q_add(a.y, b.y) }
}

pub open spec fn v_scale(s: RatView, v: Vec2View) -> Vec2View {
    Vec2View { x: q_mul(s, v.x), y: q_mul(s, v.y) }
}

pub open spec fn v_zero() -> Vec2View {
    Vec2View { x: q_zero(), y: q_zero() }
}

/// The squared Euclidean length, `x^2 + y^2`.
pub open spec fn v_norm_sq(v: Vec2View) -> RatView {
    q_add(q_mul(v.x, v.x), q_mul(v.y, v.y))
}

pub open spec fn v_add_fits(a: Vec2View, b: Vec2View) -> bool {
    q_add_fits(a.x, b.x) && q_add_fits(a.y, b.y)
}

pub open spec fn v_scale_fits(s: RatView, v: Vec2View) -> bool {
    q_mul_fits(s, v.x) && q_mul_fits(s, v.y)
}

pub open spec fn v_norm_sq_fits(v: Vec2View) -> bool {
    &&& q_mul_fits(v.x, v.x)
    &&& q_mul_fits(v.y, v.y)
    &&& q_add_fits(q_mul(v.x, v.x), q_mul(v.y, v.y))
}

/// An executable 2D vector of exact rationals.
#[derive(Clone, Copy, Debug, PartialEq, Eq, Structural)]
pub struct Vec2 {
    pub x: Rat,
    pub y: Rat,
}

impl View for Vec2 {
    type V = Vec2View;

    open spec fn view(&self) -> Vec2View {
        Vec2View { x: self.x@, y: self.y@ }
    }
}

impl Vec2 {
    pub open spec fn wf(self) -> bool {
        v_wf(self@)
    }

    pub fn new(x: Rat, y: Rat) -> (r: Vec2)
        ensures
            r@ == (Vec2View { x: x@, y: y@ }),
    {
        Vec2 { x, y }
    }

    pub fn zero() -> (r: Vec2)
        ensures
            r.wf(),
            r@ == v_zero(),
    {
        Vec2 { x: Rat::zero(), y: Rat::zero() }
    }

    /// Componentwise exact sum; `None` exactly on machine-range exhaustion.
    pub fn add(&self, rhs: &Vec2) -> (r: Option<Vec2>)
        requires
            self.wf(),
            rhs.wf(),
        ensures
            r is Some <==> v_add_fits(self@, rhs@),
            r matches Some(v) ==> v@ == v_add(self@, rhs@) && v.wf(),
    {
        let x = self.x.add(&rhs.x)?;
        let y = self.y.add(&rhs.y)?;
        Some(Vec2 { x, y })
    }

    /// Exact scaling by a rational; `None` exactly on range exhaustion.
    pub fn scale(&self, s: &Rat) -> (r: Option<Vec2>)
        requires
            self.wf(),
            s.wf(),
        ensures
            r is Some <==> v_scale_fits(s@, self@),
            r matches Some(v) ==> v@ == v_scale(s@, self@) && v.wf(),
    {
        let x = s.mul(&self.x)?;
        let y = s.mul(&self.y)?;
        Some(Vec2 { x, y })
    }

    /// The squared length; `None` exactly on range exhaustion.
    pub fn norm_sq(&self) -> (r: Option<Rat>)
        requires
            self.wf(),
        ensures
            r is Some <==> v_norm_sq_fits(self@),
            r matches Some(v) ==> v@ == v_norm_sq(self@) && v.wf(),
    {
        let xx = self.x.mul(&self.x)?;
        let yy = self.y.mul(&self.y)?;
        xx.add(&yy)
    }
}

} // verus!
