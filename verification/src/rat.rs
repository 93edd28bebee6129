//! Exact rational coordinates.
//!
//! The view model works over real-valued coordinates; here those are exact
//! rationals.  [`Rat`] is the executable form, a numerator over a positive
//! denominator in machine integers.  [`RatM`] is its mathematical model over
//! unbounded integers, which the contracts and lemmas speak of.  No value is
//! reduced to lowest terms: every operation states the exact numerator and
//! denominator it produces, and sameness of the denoted number is the
//! cross-multiplication relation [`RatM::eqv`].

use vstd::prelude::*;

verus! {

/// A mathematical rational: numerator `n` over denominator `d`, unbounded.
///
/// Meaningful when well-formed ([`RatM::wf`]): the denominator is positive.
pub struct RatM {
    pub n: int,
    pub d: int,
}

impl RatM {
    /// The denominator is positive, so the value `n / d` is defined and
    /// comparisons against it read off the numerator.
    pub open spec fn wf(self) -> bool {
        self.d > 0
    }

    /// `self` and `o` denote the same number, by cross multiplication.
    pub open spec fn eqv(self, o: RatM) -> bool {
        self.n * o.d == o.n * self.d
    }

    /// The whole number `n`.
    pub open spec fn from_int(n: int) -> RatM {
        RatM { n, d: 1 }
    }

    /// Exact sum, over the common denominator.
    pub open spec fn add(self, o: RatM) -> RatM {
        RatM { n: self.n * o.d + o.n * self.d, d: self.d * o.d }
    }

    /// Exact difference, over the common denominator.
    pub open spec fn sub(self, o: RatM) -> RatM {
        RatM { n: self.n * o.d - o.n * self.d, d: self.d * o.d }
    }

    /// Exact product.
    pub open spec fn mul(self, o: RatM) -> RatM {
        RatM { n: self.n * o.n, d: self.d * o.d }
    }

    /// Exact quotient, the sign moved into the numerator so that the
    /// denominator of the result stays positive.  Meaningful only when
    /// `o.n != 0`: dividing by zero has no rational value.
    pub open spec fn div(self, o: RatM) -> RatM {
        if o.n >= 0 {
            RatM { n: self.n * o.d, d: self.d * o.n }
        } else {
            RatM { n: -(self.n * o.d), d: -(self.d * o.n) }
        }
    }

    /// The value lies in the closed unit range `[0, 1]`.
    /// Reads the fields directly, which is the point: for a well-formed
    /// rational, `0 <= n/d <= 1` holds exactly when `0 <= n <= d`.
    pub open spec fn in_unit(self) -> bool {
        0 <= self.n <= self.d
    }
}

/// `x` is representable as an `i128`.
pub open spec fn in_i128(x: int) -> bool {
    i128::MIN <= x <= i128::MAX
}

/// Every machine integer the executable sum computes is representable.
pub open spec fn add_fits(a: RatM, b: RatM) -> bool {
    &&& in_i128(a.n * b.d)
    &&& in_i128(b.n * a.d)
    &&& in_i128(a.n * b.d + b.n * a.d)
    &&& in_i128(a.d * b.d)
}

/// Every machine integer the executable difference computes is representable.
pub open spec fn sub_fits(a: RatM, b: RatM) -> bool {
    &&& in_i128(a.n * b.d)
    &&& in_i128(b.n * a.d)
    &&& in_i128(a.n * b.d - b.n * a.d)
    &&& in_i128(a.d * b.d)
}

/// Every machine integer the executable product computes is representable.
pub open spec fn mul_fits(a: RatM, b: RatM) -> bool {
    &&& in_i128(a.n * b.n)
    &&& in_i128(a.d * b.d)
}

/// Every machine integer the executable quotient computes is representable,
/// in either sign.
pub open spec fn div_fits(a: RatM, b: RatM) -> bool {
    &&& in_i128(a.n * b.d)
    &&& in_i128(-(a.n * b.d))
    &&& in_i128(a.d * b.n)
    &&& in_i128(-(a.d * b.n))
}

/// The product of two positive integers is positive.
pub proof fn lemma_pos_mul_pos(a: int, b: int)
    by (nonlinear_arith)
    requires
        a > 0,
        b > 0,
    ensures
        a * b > 0,
{
}

/// The product of a positive and a negative integer is negative.
pub proof fn lemma_pos_mul_neg(a: int, b: int)
    by (nonlinear_arith)
    requires
        a > 0,
        b < 0,
    ensures
        a * b < 0,
{
}

/// Sums of well-formed rationals are well-formed.
pub proof fn lemma_add_wf(a: RatM, b: RatM)
    requires
        a.wf(),
        b.wf(),
    ensures
        a.add(b).wf(),
{
    lemma_pos_mul_pos(a.d, b.d);
}

/// Differences of well-formed rationals are well-formed.
pub proof fn lemma_sub_wf(a: RatM, b: RatM)
    requires
        a.wf(),
        b.wf(),
    ensures
        a.sub(b).wf(),
{
    lemma_pos_mul_pos(a.d, b.d);
}

/// Products of well-formed rationals are well-formed.
pub proof fn lemma_mul_wf(a: RatM, b: RatM)
    requires
        a.wf(),
        b.wf(),
    ensures
        a.mul(b).wf(),
{
    lemma_pos_mul_pos(a.d, b.d);
}

/// Quotients by a rational that does not denote zero are well-formed.
pub proof fn lemma_div_wf(a: RatM, b: RatM)
    requires
        a.wf(),
        b.wf(),
        b.n != 0,
    ensures
        a.div(b).wf(),
{
    if b.n >= 0 {
        lemma_pos_mul_pos(a.d, b.n);
    } else {
        lemma_pos_mul_neg(a.d, b.n);
    }
}

/// A product with a positive factor keeps a nonzero factor visible: neither
/// the product nor its negation is zero.
pub proof fn lemma_nonzero_mul(a: int, b: int)
    by (nonlinear_arith)
    requires
        a != 0,
        b > 0,
    ensures
        a * b != 0,
        -(a * b) != 0,
{
}

/// An exact rational coordinate: `num / den` with `den > 0`.
///
/// The fields are public so that callers outside the crate can read a result
/// off directly; constructors keep the denominator positive.
#[derive(Clone, Copy, Debug, PartialEq, Eq, Structural)]
pub struct Rat {
    pub num: i128,
    pub den: i128,
}

impl View for Rat {
    type V = RatM;

    open spec fn view(&self) -> RatM {
        RatM { n: self.num as int, d: self.den as int }
    }
}

impl Rat {
    /// `num / den`, taken as given.  The denominator must be positive;
    /// a ratio with a negative denominator is written with the sign on the
    /// numerator instead.
    pub fn new(num: i128, den: i128) -> (r: Rat)
        requires
            den > 0,
        ensures
            r@ == (RatM { n: num as int, d: den as int }),
            r@.wf(),
    {
        Rat { num, den }
    }

    /// The whole number `num`.
    pub fn from_int(num: i128) -> (r: Rat)
        ensures
            r@ == RatM::from_int(num as int),
            r@.wf(),
    {
        Rat { num, den: 1 }
    }

    /// Exact sum.
    pub fn add(self, o: Rat) -> (r: Rat)
        requires
            self@.wf(),
            o@.wf(),
            add_fits(self@, o@),
        ensures
            r@ == self@.add(o@),
            r@.wf(),
    {
        proof {
            lemma_pos_mul_pos(self@.d, o@.d);
        }
        Rat { num: self.num * o.den + o.num * self.den, den: self.den * o.den }
    }

    /// Exact difference.
    pub fn sub(self, o: Rat) -> (r: Rat)
        requires
            self@.wf(),
            o@.wf(),
            sub_fits(self@, o@),
        ensures
            r@ == self@.sub(o@),
            r@.wf(),
    {
        proof {
            lemma_pos_mul_pos(self@.d, o@.d);
        }
        Rat { num: self.num * o.den - o.num * self.den, den: self.den * o.den }
    }

    /// Exact product.
    pub fn mul(self, o: Rat) -> (r: Rat)
        requires
            self@.wf(),
            o@.wf(),
            mul_fits(self@, o@),
        ensures
            r@ == self@.mul(o@),
            r@.wf(),
    {
        proof {
            lemma_pos_mul_pos(self@.d, o@.d);
        }
        Rat { num: self.num * o.num, den: self.den * o.den }
    }

    /// Exact quotient.  Division by a rational with zero numerator has no
    /// rational value, so such divisors are ruled out.
    pub fn div(self, o: Rat) -> (r: Rat)
        requires
            self@.wf(),
            o@.wf(),
            o.num != 0,
            div_fits(self@, o@),
        ensures
            r@ == self@.div(o@),
            r@.wf(),
    {
        let n0 = self.num * o.den;
        let d0 = self.den * o.num;
        if o.num >= 0 {
            proof {
                lemma_pos_mul_pos(self@.d, o@.n);
            }
            Rat { num: n0, den: d0 }
        } else {
            proof {
                lemma_pos_mul_neg(self@.d, o@.n);
            }
            Rat { num: -n0, den: -d0 }
        }
    }
}

} // verus!
