//! Exact rational arithmetic.
//!
//! `Rat` is an executable rational number: a numerator and a positive
//! denominator, both `i128`. Its mathematical value is the `RatView` pair of
//! unbounded integers obtained through `view`. All specification-level
//! arithmetic (`q_add`, `q_mul`, ...) is exact; the executable operations
//! return `None` exactly when an intermediate product would leave the `i128`
//! range, and otherwise return the value the specification names.

use vstd::prelude::*;

verus! {

/// A rational number at the specification level: the value `n / d`.
/// Well-formed values keep `d > 0`; equality and order are the usual
/// cross-multiplied relations, so no normal form is ever needed.
pub struct RatView {
    pub n: int,
    pub d: int,
}

pub open spec fn q_wf(a: RatView) -> bool {
    a.d > 0
}

/// `a` and `b` denote the same rational number.
pub open spec fn q_eq(a: RatView, b: RatView) -> bool {
    a.n * b.d == b.n * a.d
}

/// `a <= b` as rational numbers (meaningful when both are well-formed).
pub open spec fn q_le(a: RatView, b: RatView) -> bool {
    a.n * b.d <= b.n * a.d
}

/// `a < b` as rational numbers (meaningful when both are well-formed).
pub open spec fn q_lt(a: RatView, b: RatView) -> bool {
    a.n * b.d < b.n * a.d
}

pub open spec fn q_add(a: RatView, b: RatView) -> RatView {
    RatView { n: a.n * b.d + b.n * a.d, d: a.d * b.d }
}

pub open spec fn q_sub(a: RatView, b: RatView) -> RatView {
    RatView { n: a.n * b.d - b.n * a.d, d: a.d * b.d }
}

pub open spec fn q_mul(a: RatView, b: RatView) -> RatView {
    RatView { n: a.n * b.n, d: a.d * b.d }
}

pub open spec fn q_neg(a: RatView) -> RatView {
    RatView { n: -a.n, d: a.d }
}

pub open spec fn q_int(n: int) -> RatView {
    RatView { n: n, d: 1 }
}

pub open spec fn q_zero() -> RatView {
    q_int(0)
}

pub open spec fn q_one() -> RatView {
    q_int(1)
}

/// One half, the coefficient of the quadratic term of the integrator.
pub open spec fn q_half() -> RatView {
    RatView { n: 1, d: 2 }
}

/// Whether an unbounded integer fits in the machine range of `i128`.
pub open spec fn fits(x: int) -> bool {
    i128::MIN <= x <= i128::MAX
}

/// The executable additions and subtractions succeed exactly when the two
/// cross products, the resulting numerator and the resulting denominator all
/// fit the machine range.
pub open spec fn q_add_fits(a: RatView, b: RatView) -> bool {
    &&& fits(a.n * b.d)
    &&& fits(b.n * a.d)
    &&& fits(a.n * b.d + b.n * a.d)
    &&& fits(a.d * b.d)
}

pub open spec fn q_sub_fits(a: RatView, b: RatView) -> bool {
    &&& fits(a.n * b.d)
    &&& fits(b.n * a.d)
    &&& fits(a.n * b.d - b.n * a.d)
    &&& fits(a.d * b.d)
}

pub open spec fn q_mul_fits(a: RatView, b: RatView) -> bool {
    &&& fits(a.n * b.n)
    &&& fits(a.d * b.d)
}

/// The executable comparisons succeed exactly when both cross products fit.
pub open spec fn q_cmp_fits(a: RatView, b: RatView) -> bool {
    &&& fits(a.n * b.d)
    &&& fits(b.n * a.d)
}

/// An executable rational number. The denominator is kept strictly positive
/// (`wf`); constructors establish that and every operation preserves it.
#[derive(Clone, Copy, Debug, PartialEq, Eq, Structural)]
pub struct Rat {
    num: i128,
    den: i128,
}

impl View for Rat {
    type V = RatView;

    closed spec fn view(&self) -> RatView {
        RatView { n: self.num as int, d: self.den as int }
    }
}

impl Rat {
    pub open spec fn wf(self) -> bool {
        q_wf(self@)
    }

    /// The rational `num / den`. The sign is carried by the numerator.
    pub fn new(num: i64, den: i64) -> (r: Rat)
        requires
            den != 0,
        ensures
            r.wf(),
            q_eq(r@, RatView { n: num as int, d: den as int }),
            r@ == (if den > 0 {
                RatView { n: num as int, d: den as int }
            } else {
                RatView { n: -(num as int), d: -(den as int) }
            }),
    {
        if den > 0 {
            Rat { num: num as i128, den: den as i128 }
        } else {
            proof {
                assert((-(num as int)) * (den as int) == (num as int) * (-(den as int)))
                    by (nonlinear_arith);
            }
            Rat { num: -(num as i128), den: -(den as i128) }
        }
    }

    /// Direct construction from machine parts with a known-positive
    /// denominator; internal to the crate.
    pub(crate) fn from_parts(num: i128, den: i128) -> (r: Rat)
        requires
            den > 0,
        ensures
            r.wf(),
            r@ == (RatView { n: num as int, d: den as int }),
    {
        Rat { num, den }
    }

    /// The rational `n / 1`.
    pub fn from_int(n: i64) -> (r: Rat)
        ensures
            r.wf(),
            r@ == q_int(n as int),
    {
        Rat { num: n as i128, den: 1 }
    }

    pub fn zero() -> (r: Rat)
        ensures
            r.wf(),
            r@ == q_zero(),
    {
        Rat { num: 0, den: 1 }
    }

    pub fn one() -> (r: Rat)
        ensures
            r.wf(),
            r@ == q_one(),
    {
        Rat { num: 1, den: 1 }
    }

    pub fn num(&self) -> (n: i128)
        ensures
            n as int == self@.n,
    {
        self.num
    }

    pub fn den(&self) -> (d: i128)
        ensures
            d as int == self@.d,
    {
        self.den
    }

    /// Exact sum; `None` exactly when an intermediate leaves the `i128` range.
    pub fn add(&self, rhs: &Rat) -> (r: Option<Rat>)
        requires
            self.wf(),
            rhs.wf(),
        ensures
            r is Some <==> q_add_fits(self@, rhs@),
            r matches Some(v) ==> v@ == q_add(self@, rhs@) && v.wf(),
    {
        let l = self.num.checked_mul(rhs.den)?;
        let h = rhs.num.checked_mul(self.den)?;
        let n = l.checked_add(h)?;
        let d = self.den.checked_mul(rhs.den)?;
        proof {
            vstd::arithmetic::mul::lemma_mul_strictly_positive(
                self@.d,
                rhs@.d,
            );
        }
        Some(Rat { num: n, den: d })
    }

    /// Exact difference; `None` exactly when an intermediate leaves the range.
    pub fn sub(&self, rhs: &Rat) -> (r: Option<Rat>)
        requires
            self.wf(),
            rhs.wf(),
        ensures
            r is Some <==> q_sub_fits(self@, rhs@),
            r matches Some(v) ==> v@ == q_sub(self@, rhs@) && v.wf(),
    {
        let l = self.num.checked_mul(rhs.den)?;
        let h = rhs.num.checked_mul(self.den)?;
        let n = l.checked_sub(h)?;
        let d = self.den.checked_mul(rhs.den)?;
        proof {
            vstd::arithmetic::mul::lemma_mul_strictly_positive(
                self@.d,
                rhs@.d,
            );
        }
        Some(Rat { num: n, den: d })
    }

    /// Exact product; `None` exactly when a product leaves the `i128` range.
    pub fn mul(&self, rhs: &Rat) -> (r: Option<Rat>)
        requires
            self.wf(),
            rhs.wf(),
        ensures
            r is Some <==> q_mul_fits(self@, rhs@),
            r matches Some(v) ==> v@ == q_mul(self@, rhs@) && v.wf(),
    {
        let n = self.num.checked_mul(rhs.num)?;
        let d = self.den.checked_mul(rhs.den)?;
        proof {
            vstd::arithmetic::mul::lemma_mul_strictly_positive(
                self@.d,
                rhs@.d,
            );
        }
        Some(Rat { num: n, den: d })
    }

    /// Exact negation; `None` only for the one unrepresentable numerator.
    pub fn neg(&self) -> (r: Option<Rat>)
        requires
            self.wf(),
        ensures
            r is Some <==> fits(-self@.n),
            r matches Some(v) ==> v@ == q_neg(self@) && v.wf(),
    {
        if self.num == i128::MIN {
            None
        } else {
            Some(Rat { num: -self.num, den: self.den })
        }
    }

    /// `self <= rhs` as rational numbers.
    pub fn le(&self, rhs: &Rat) -> (r: Option<bool>)
        requires
            self.wf(),
            rhs.wf(),
        ensures
            r is Some <==> q_cmp_fits(self@, rhs@),
            r matches Some(b) ==> b == q_le(self@, rhs@),
    {
        let l = self.num.checked_mul(rhs.den)?;
        let h = rhs.num.checked_mul(self.den)?;
        Some(l <= h)
    }

    /// `self < rhs` as rational numbers.
    pub fn lt(&self, rhs: &Rat) -> (r: Option<bool>)
        requires
            self.wf(),
            rhs.wf(),
        ensures
            r is Some <==> q_cmp_fits(self@, rhs@),
            r matches Some(b) ==> b == q_lt(self@, rhs@),
    {
        let l = self.num.checked_mul(rhs.den)?;
        let h = rhs.num.checked_mul(self.den)?;
        Some(l < h)
    }

    /// Whether `self` and `rhs` denote the same rational number.
    pub fn eqv(&self, rhs: &Rat) -> (r: Option<bool>)
        requires
            self.wf(),
            rhs.wf(),
        ensures
            r is Some <==> q_cmp_fits(self@, rhs@),
            r matches Some(b) ==> b == q_eq(self@, rhs@),
    {
        let l = self.num.checked_mul(rhs.den)?;
        let h = rhs.num.checked_mul(self.den)?;
        Some(l == h)
    }

    /// Sign tests need no multiplication: the denominator is positive.
    pub fn is_pos(&self) -> (r: bool)
        requires
            self.wf(),
        ensures
            r == q_lt(q_zero(), self@),
    {
        self.num > 0
    }

    pub fn is_neg(&self) -> (r: bool)
        requires
            self.wf(),
        ensures
            r == q_lt(self@, q_zero()),
    {
        self.num < 0
    }

    pub fn is_zero(&self) -> (r: bool)
        requires
            self.wf(),
        ensures
            r == q_eq(self@, q_zero()),
    {
        self.num == 0
    }

    /// The same rational number with numerator and denominator divided by a
    /// common divisor, so long simulations stay within the machine range.
    pub fn reduced(&self) -> (r: Rat)
        requires
            self.wf(),
        ensures
            r.wf(),
            q_eq(r@, self@),
            r@.d <= self@.d,
    {
        if self.num == i128::MIN {
            return *self;
        }
        let neg = self.num < 0;
        let m: u128 = if neg {
            (-self.num) as u128
        } else {
            self.num as u128
        };
        let d: u128 = self.den as u128;
        let g = gcd_u128(m, d);
        proof {
            vstd::arithmetic::div_mod::lemma_fundamental_div_mod(m as int, g as int);
            vstd::arithmetic::div_mod::lemma_fundamental_div_mod(d as int, g as int);
        }
        let mq: u128 = m / g;
        let dq: u128 = d / g;
        proof {
            assert(0 < dq as int && dq as int <= d as int && mq as int <= m as int)
                by (nonlinear_arith)
                requires
                    d as int == g as int * (dq as int),
                    m as int == g as int * (mq as int),
                    1 <= g as int,
                    0 < d as int,
                    0 <= dq as int,
                    0 <= mq as int,
                    0 <= m as int,
            ;
            if neg {
                assert((-(mq as int)) * (g as int * (dq as int)) == (-(g as int * (mq
                    as int))) * (dq as int)) by (nonlinear_arith);
            } else {
                assert((mq as int) * (g as int * (dq as int)) == (g as int * (mq as int))
                    * (dq as int)) by (nonlinear_arith);
            }
        }
        let rn: i128 = if neg {
            -(mq as i128)
        } else {
            mq as i128
        };
        Rat { num: rn, den: dq as i128 }
    }
}

/// Greatest common divisor on unsigned machine words, with the divisibility
/// facts the reduction needs: the result is positive and divides both inputs.
fn gcd_u128(a0: u128, b0: u128) -> (g: u128)
    ensures
        1 <= g,
        a0 as int % (g as int) == 0,
        b0 as int % (g as int) == 0,
{
    if a0 == 0 && b0 == 0 {
        proof {
            vstd::arithmetic::div_mod::lemma_small_mod(0, 1);
        }
        return 1;
    }
    let mut a: u128 = a0;
    let mut b: u128 = b0;
    while b != 0
        invariant
            a > 0 || b > 0,
            forall|x: int|
                (1 <= x && #[trigger] (a as int % x) == 0 && #[trigger] (b as int % x) == 0)
                    ==> (a0 as int % x == 0 && b0 as int % x == 0),
        decreases b,
    {
        let r: u128 = a % b;
        proof {
            vstd::arithmetic::div_mod::lemma_mod_bound(a as int, b as int);
            assert forall|x: int|
                1 <= x && #[trigger] (b as int % x) == 0 && #[trigger] (r as int % x)
                    == 0 implies (a as int % x == 0) by {
                vstd::arithmetic::div_mod::lemma_fundamental_div_mod(a as int, b as int);
                vstd::arithmetic::div_mod::lemma_mul_mod_noop_left(
                    b as int,
                    a as int / b as int,
                    x,
                );
                vstd::arithmetic::div_mod::lemma_small_mod(0, x as nat);
                vstd::arithmetic::div_mod::lemma_add_mod_noop(
                    b as int * (a as int / b as int),
                    r as int,
                    x,
                );
            }
        }
        a = b;
        b = r;
    }
    proof {
        vstd::arithmetic::div_mod::lemma_mod_self_0(a as int);
        vstd::arithmetic::div_mod::lemma_small_mod(0, a as nat);
    }
    a
}

/// The arithmetic operations keep denominators positive.
pub proof fn lemma_q_ops_wf(a: RatView, b: RatView)
    by (nonlinear_arith)
    requires
        q_wf(a),
        q_wf(b),
    ensures
        q_wf(q_add(a, b)),
        q_wf(q_sub(a, b)),
        q_wf(q_mul(a, b)),
        q_wf(q_neg(a)),
{
}

/// Rational equality is an equivalence relation on well-formed values.
pub proof fn lemma_q_eq_trans(a: RatView, b: RatView, c: RatView)
    by (nonlinear_arith)
    requires
        q_wf(a),
        q_wf(b),
        q_wf(c),
        q_eq(a, b),
        q_eq(b, c),
    ensures
        q_eq(a, c),
{
}

/// `(p * q) * (r * s)` regrouped to pair the first factors together.
pub proof fn lemma_mul_shuffle1(p: int, q: int, r: int, s: int)
    by (nonlinear_arith)
    ensures
        (p * q) * (r * s) == (p * r) * (q * s),
{
}

/// `(p * q) * (r * s)` regrouped to pair outer with inner factors.
pub proof fn lemma_mul_shuffle2(p: int, q: int, r: int, s: int)
    by (nonlinear_arith)
    ensures
        (p * q) * (r * s) == (p * s) * (q * r),
{
}

/// Addition respects rational equality.
pub proof fn lemma_q_add_congruence(a: RatView, a2: RatView, b: RatView, b2: RatView)
    requires
        q_wf(a),
        q_wf(a2),
        q_wf(b),
        q_wf(b2),
        q_eq(a, a2),
        q_eq(b, b2),
    ensures
        q_eq(q_add(a, b), q_add(a2, b2)),
{
    vstd::arithmetic::mul::lemma_mul_is_distributive_add_other_way(
        a2.d * b2.d,
        a.n * b.d,
        b.n * a.d,
    );
    vstd::arithmetic::mul::lemma_mul_is_distributive_add_other_way(
        a.d * b.d,
        a2.n * b2.d,
        b2.n * a2.d,
    );
    lemma_mul_shuffle1(a.n, b.d, a2.d, b2.d);
    lemma_mul_shuffle2(b.n, a.d, a2.d, b2.d);
    lemma_mul_shuffle1(a2.n, b2.d, a.d, b.d);
    lemma_mul_shuffle2(b2.n, a2.d, a.d, b.d);
    vstd::arithmetic::mul::lemma_mul_is_commutative(b.d, b2.d);
    vstd::arithmetic::mul::lemma_mul_is_commutative(a.d, a2.d);
    vstd::arithmetic::mul::lemma_mul_is_commutative(b2.d, b.d);
    vstd::arithmetic::mul::lemma_mul_is_commutative(a2.d, a.d);
}

/// Multiplication respects rational equality.
pub proof fn lemma_q_mul_congruence(a: RatView, a2: RatView, b: RatView, b2: RatView)
    requires
        q_wf(a),
        q_wf(a2),
        q_wf(b),
        q_wf(b2),
        q_eq(a, a2),
        q_eq(b, b2),
    ensures
        q_eq(q_mul(a, b), q_mul(a2, b2)),
{
    lemma_mul_shuffle1(a.n, b.n, a2.d, b2.d);
    lemma_mul_shuffle1(a2.n, b2.n, a.d, b.d);
    vstd::arithmetic::mul::lemma_mul_is_commutative(a2.n, a.d);
    vstd::arithmetic::mul::lemma_mul_is_commutative(b2.n, b.d);
}

/// The order relation respects rational equality.
pub proof fn lemma_q_le_congruence(a: RatView, a2: RatView, b: RatView, b2: RatView)
    by (nonlinear_arith)
    requires
        q_wf(a),
        q_wf(a2),
        q_wf(b),
        q_wf(b2),
        q_eq(a, a2),
        q_eq(b, b2),
        q_le(a, b),
    ensures
        q_le(a2, b2),
{
}

} // verus!
