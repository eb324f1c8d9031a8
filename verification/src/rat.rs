//! Exact rational scalars.
//!
//! A scalar is a fraction of two machine integers with a positive
//! denominator. Fractions are not reduced; two fractions denote the same
//! scalar when they cross-multiply equal, which `eqv` captures at the
//! specification level and `eq_val` decides at run time.

use vstd::prelude::*;
use vstd::arithmetic::mul::lemma_mul_basics;
use vstd::arithmetic::mul::lemma_mul_equality_converse;
use vstd::arithmetic::mul::lemma_mul_is_associative;
use vstd::arithmetic::mul::lemma_mul_is_commutative;
use vstd::arithmetic::mul::lemma_mul_is_distributive_add;
use vstd::arithmetic::mul::lemma_mul_is_distributive_add_other_way;
use vstd::arithmetic::mul::lemma_mul_is_distributive_sub_other_way;
use vstd::arithmetic::mul::lemma_mul_strictly_positive;
use vstd::arithmetic::mul::lemma_mul_unary_negation;

verus! {

/// Mathematical value of a scalar: a numerator over a positive denominator,
/// both unbounded.
pub ghost struct RatModel {
    pub num: int,
    pub den: int,
}

impl RatModel {
    /// Denominators are positive; this is the sole well-formedness condition.
    pub open spec fn wf(self) -> bool {
        self.den > 0
    }

    /// Two fractions denote the same scalar exactly when they
    /// cross-multiply equal.
    pub open spec fn eqv(self, other: RatModel) -> bool {
        self.num * other.den == other.num * self.den
    }

    pub open spec fn from_int(i: int) -> RatModel {
        RatModel { num: i, den: 1 }
    }

    pub open spec fn zero() -> RatModel {
        RatModel { num: 0, den: 1 }
    }

    pub open spec fn one() -> RatModel {
        RatModel { num: 1, den: 1 }
    }

    pub open spec fn plus(self, other: RatModel) -> RatModel {
        RatModel {
            num: self.num * other.den + other.num * self.den,
            den: self.den * other.den,
        }
    }

    pub open spec fn minus(self, other: RatModel) -> RatModel {
        RatModel {
            num: self.num * other.den - other.num * self.den,
            den: self.den * other.den,
        }
    }

    pub open spec fn times(self, other: RatModel) -> RatModel {
        RatModel {
            num: self.num * other.num,
            den: self.den * other.den,
        }
    }

    pub open spec fn neg(self) -> RatModel {
        RatModel { num: -self.num, den: self.den }
    }

    /// The sum of two machine fractions fits back into machine integers.
    pub open spec fn plus_fits(self, other: RatModel) -> bool {
        fits_i64(self.plus(other).num) && fits_i64(self.plus(other).den)
    }

    /// The difference of two machine fractions fits back into machine integers.
    pub open spec fn minus_fits(self, other: RatModel) -> bool {
        fits_i64(self.minus(other).num) && fits_i64(self.minus(other).den)
    }

    /// The product of two machine fractions fits back into machine integers.
    pub open spec fn times_fits(self, other: RatModel) -> bool {
        fits_i64(self.times(other).num) && fits_i64(self.times(other).den)
    }
}

pub open spec fn fits_i64(i: int) -> bool {
    i64::MIN <= i <= i64::MAX
}

/// The product of two values in `i64` range fits in `i128`, and is positive
/// when both factors are.
pub proof fn lemma_i64_product_bounds(a: int, b: int) by (nonlinear_arith)
    requires
        i64::MIN <= a <= i64::MAX,
        i64::MIN <= b <= i64::MAX,
    ensures
        i128::MIN <= a * b <= i128::MAX,
        a > 0 && b > 0 ==> a * b > 0,
{
}

/// Rearrangement: `(x * y) * z == (x * z) * y`.
proof fn lemma_mul_rotate(x: int, y: int, z: int)
    ensures
        (x * y) * z == (x * z) * y,
{
    lemma_mul_is_associative(x, y, z);
    lemma_mul_is_commutative(y, z);
    lemma_mul_is_associative(x, z, y);
}

/// Rearrangement: `(x * y) * (z * w) == (x * z) * (y * w)`.
proof fn lemma_mul_swap_inner(x: int, y: int, z: int, w: int)
    ensures
        (x * y) * (z * w) == (x * z) * (y * w),
{
    lemma_mul_is_associative(x, y, z * w);
    lemma_mul_is_associative(y, z, w);
    lemma_mul_is_commutative(y, z);
    lemma_mul_is_associative(z, y, w);
    lemma_mul_is_associative(x, z, y * w);
}

/// Scalar equivalence is transitive (denominators being positive).
pub proof fn lemma_eqv_transitive(a: RatModel, b: RatModel, c: RatModel)
    requires
        a.wf(),
        b.wf(),
        c.wf(),
        a.eqv(b),
        b.eqv(c),
    ensures
        a.eqv(c),
{
    lemma_mul_is_commutative(b.den, a.num * c.den);
    lemma_mul_rotate(a.num, c.den, b.den);
    lemma_mul_rotate(b.num, a.den, c.den);
    lemma_mul_rotate(c.num, b.den, a.den);
    lemma_mul_is_commutative(b.den, c.num * a.den);
    lemma_mul_equality_converse(b.den, a.num * c.den, c.num * a.den);
}

/// Addition respects scalar equivalence in both arguments.
pub proof fn lemma_plus_congruence(a: RatModel, a2: RatModel, b: RatModel, b2: RatModel)
    requires
        a.wf(),
        a2.wf(),
        b.wf(),
        b2.wf(),
        a.eqv(a2),
        b.eqv(b2),
    ensures
        a.plus(b).eqv(a2.plus(b2)),
{
    lemma_mul_is_distributive_add_other_way(a2.den * b2.den, a.num * b.den, b.num * a.den);
    lemma_mul_swap_inner(a.num, b.den, a2.den, b2.den);
    lemma_mul_is_commutative(a2.den, b2.den);
    lemma_mul_swap_inner(b.num, a.den, b2.den, a2.den);
    lemma_mul_is_distributive_add_other_way(a.den * b.den, a2.num * b2.den, b2.num * a2.den);
    lemma_mul_swap_inner(a2.num, b2.den, a.den, b.den);
    lemma_mul_is_commutative(b2.den, b.den);
    lemma_mul_is_commutative(a.den, b.den);
    lemma_mul_swap_inner(b2.num, a2.den, b.den, a.den);
    lemma_mul_is_commutative(a2.den, a.den);
}

/// Multiplication respects scalar equivalence in both arguments.
pub proof fn lemma_times_congruence(a: RatModel, a2: RatModel, b: RatModel, b2: RatModel)
    requires
        a.wf(),
        a2.wf(),
        b.wf(),
        b2.wf(),
        a.eqv(a2),
        b.eqv(b2),
    ensures
        a.times(b).eqv(a2.times(b2)),
{
    lemma_mul_swap_inner(a.num, b.num, a2.den, b2.den);
    lemma_mul_swap_inner(a2.num, b2.num, a.den, b.den);
}

/// Adding a scalar equivalent to zero leaves the value unchanged.
pub proof fn lemma_plus_zero(a: RatModel, z: RatModel)
    requires
        a.wf(),
        z.wf(),
        z.eqv(RatModel::zero()),
    ensures
        a.plus(z).eqv(a),
{
    assert(z.num == 0);
    lemma_mul_basics(a.den);
    lemma_mul_is_associative(a.num, z.den, a.den);
    lemma_mul_is_commutative(a.den, z.den);
}

/// Scaling by a scalar equivalent to zero gives zero.
pub proof fn lemma_times_zero(a: RatModel, z: RatModel)
    requires
        a.wf(),
        z.wf(),
        z.eqv(RatModel::zero()),
    ensures
        a.times(z).eqv(RatModel::zero()),
{
    assert(z.num == 0);
    lemma_mul_basics(a.num);
    lemma_mul_basics(a.den * z.den);
    lemma_mul_basics(a.num * z.num);
}

/// Addition of scalars is associative up to equivalence.
pub proof fn lemma_plus_associative(a: RatModel, b: RatModel, c: RatModel)
    requires
        a.wf(),
        b.wf(),
        c.wf(),
    ensures
        a.plus(b).plus(c).eqv(a.plus(b.plus(c))),
{
    lemma_mul_is_associative(a.den, b.den, c.den);
    lemma_mul_is_distributive_add_other_way(c.den, a.num * b.den, b.num * a.den);
    lemma_mul_is_associative(a.num, b.den, c.den);
    lemma_mul_rotate(b.num, a.den, c.den);
    lemma_mul_is_commutative(a.den, b.den);
    lemma_mul_is_associative(c.num, b.den, a.den);
    lemma_mul_is_distributive_add_other_way(a.den, b.num * c.den, c.num * b.den);
}

/// Addition of scalars is commutative up to equivalence.
pub proof fn lemma_plus_commutative(a: RatModel, b: RatModel)
    requires
        a.wf(),
        b.wf(),
    ensures
        a.plus(b).eqv(b.plus(a)),
{
    lemma_mul_is_commutative(b.den, a.den);
}

/// A scalar plus its negation is zero.
pub proof fn lemma_plus_neg_zero(a: RatModel)
    requires
        a.wf(),
    ensures
        a.plus(a.neg()).eqv(RatModel::zero()),
{
    lemma_mul_unary_negation(a.num, a.den);
    lemma_mul_basics(a.plus(a.neg()).den);
}

/// A scalar minus itself is zero.
pub proof fn lemma_minus_self_zero(a: RatModel)
    requires
        a.wf(),
    ensures
        a.minus(a).eqv(RatModel::zero()),
{
    lemma_mul_basics(a.minus(a).den);
}

/// Scaling by the integer `k` and then adding the scalar once more equals
/// scaling by `k + 1`.
pub proof fn lemma_scale_plus_one(s: RatModel, k: int)
    requires
        s.wf(),
    ensures
        s.times(RatModel::from_int(k)).plus(s).eqv(s.times(RatModel::from_int(k + 1))),
{
    lemma_mul_basics(s.den);
    lemma_mul_basics(s.num);
    lemma_mul_is_distributive_add(s.num, k, 1);
    lemma_mul_is_distributive_add_other_way(s.den, s.num * k, s.num);
    lemma_mul_is_associative(s.num * (k + 1), s.den, s.den);
}

/// The sum of well-formed fractions is well-formed.
pub proof fn lemma_plus_wf(a: RatModel, b: RatModel)
    requires
        a.wf(),
        b.wf(),
    ensures
        a.plus(b).wf(),
{
    lemma_mul_strictly_positive(a.den, b.den);
}

/// The difference of well-formed fractions is well-formed.
pub proof fn lemma_minus_wf(a: RatModel, b: RatModel)
    requires
        a.wf(),
        b.wf(),
    ensures
        a.minus(b).wf(),
{
    lemma_mul_strictly_positive(a.den, b.den);
}

/// The product of well-formed fractions is well-formed.
pub proof fn lemma_times_wf(a: RatModel, b: RatModel)
    requires
        a.wf(),
        b.wf(),
    ensures
        a.times(b).wf(),
{
    lemma_mul_strictly_positive(a.den, b.den);
}

/// Exact rational scalar held in machine integers.
#[derive(Clone, Copy, Debug)]
pub struct Rat {
    pub num: i64,
    pub den: i64,
}

impl View for Rat {
    type V = RatModel;

    open spec fn view(&self) -> RatModel {
        RatModel { num: self.num as int, den: self.den as int }
    }
}

impl Rat {
    pub open spec fn wf(self) -> bool {
        self@.wf()
    }

    pub fn new(num: i64, den: i64) -> (r: Rat)
        requires
            den > 0,
        ensures
            r@ == (RatModel { num: num as int, den: den as int }),
            r.wf(),
    {
        Rat { num, den }
    }

    pub fn from_int(i: i64) -> (r: Rat)
        ensures
            r@ == RatModel::from_int(i as int),
            r.wf(),
    {
        Rat { num: i, den: 1 }
    }

    pub fn add(self, other: Rat) -> (r: Rat)
        requires
            self.wf(),
            other.wf(),
            self@.plus_fits(other@),
        ensures
            r@ == self@.plus(other@),
            r.wf(),
    {
        proof {
            lemma_i64_product_bounds(self.num as int, other.den as int);
            lemma_i64_product_bounds(other.num as int, self.den as int);
            lemma_i64_product_bounds(self.den as int, other.den as int);
        }
        let n: i128 = self.num as i128 * other.den as i128 + other.num as i128 * self.den as i128;
        let d: i128 = self.den as i128 * other.den as i128;
        Rat { num: n as i64, den: d as i64 }
    }

    pub fn sub(self, other: Rat) -> (r: Rat)
        requires
            self.wf(),
            other.wf(),
            self@.minus_fits(other@),
        ensures
            r@ == self@.minus(other@),
            r.wf(),
    {
        proof {
            lemma_i64_product_bounds(self.num as int, other.den as int);
            lemma_i64_product_bounds(other.num as int, self.den as int);
            lemma_i64_product_bounds(self.den as int, other.den as int);
        }
        let n: i128 = self.num as i128 * other.den as i128 - other.num as i128 * self.den as i128;
        let d: i128 = self.den as i128 * other.den as i128;
        Rat { num: n as i64, den: d as i64 }
    }

    pub fn mul(self, other: Rat) -> (r: Rat)
        requires
            self.wf(),
            other.wf(),
            self@.times_fits(other@),
        ensures
            r@ == self@.times(other@),
            r.wf(),
    {
        proof {
            lemma_i64_product_bounds(self.num as int, other.num as int);
            lemma_i64_product_bounds(self.den as int, other.den as int);
        }
        let n: i128 = self.num as i128 * other.num as i128;
        let d: i128 = self.den as i128 * other.den as i128;
        Rat { num: n as i64, den: d as i64 }
    }

    /// Decides whether the sum with `other` fits back into machine
    /// integers; a caller tests this before `add`.
    pub fn plus_fits_now(self, other: Rat) -> (r: bool)
        ensures
            r == self@.plus_fits(other@),
    {
        proof {
            lemma_i64_product_bounds(self.num as int, other.den as int);
            lemma_i64_product_bounds(other.num as int, self.den as int);
            lemma_i64_product_bounds(self.den as int, other.den as int);
        }
        let p1: i128 = self.num as i128 * other.den as i128;
        let p2: i128 = other.num as i128 * self.den as i128;
        if p1 > 0 && p2 > i128::MAX - p1 {
            return false;
        }
        if p1 < 0 && p2 < i128::MIN - p1 {
            return false;
        }
        let n: i128 = p1 + p2;
        let d: i128 = self.den as i128 * other.den as i128;
        i64::MIN as i128 <= n && n <= i64::MAX as i128 && i64::MIN as i128 <= d
            && d <= i64::MAX as i128
    }

    /// Decides whether the product with `other` fits back into machine
    /// integers; a caller tests this before `mul`.
    pub fn times_fits_now(self, other: Rat) -> (r: bool)
        ensures
            r == self@.times_fits(other@),
    {
        proof {
            lemma_i64_product_bounds(self.num as int, other.num as int);
            lemma_i64_product_bounds(self.den as int, other.den as int);
        }
        let n: i128 = self.num as i128 * other.num as i128;
        let d: i128 = self.den as i128 * other.den as i128;
        i64::MIN as i128 <= n && n <= i64::MAX as i128 && i64::MIN as i128 <= d
            && d <= i64::MAX as i128
    }

    /// Decides scalar equivalence: true exactly when the two fractions
    /// denote the same value.
    pub fn eq_val(self, other: Rat) -> (r: bool)
        ensures
            r == self@.eqv(other@),
    {
        proof {
            lemma_i64_product_bounds(self.num as int, other.den as int);
            lemma_i64_product_bounds(other.num as int, self.den as int);
        }
        self.num as i128 * other.den as i128 == other.num as i128 * self.den as i128
    }
}

} // verus!
