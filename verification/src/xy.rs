//! 2D vectors with exact rational components and the standard
//! componentwise arithmetic.

use vstd::prelude::*;

use crate::rat::Rat;
use crate::rat::RatModel;
use crate::rat::lemma_eqv_transitive;
use crate::rat::lemma_plus_congruence;
use crate::rat::lemma_plus_zero;
use crate::rat::lemma_plus_associative;
use crate::rat::lemma_plus_commutative;
use crate::rat::lemma_plus_neg_zero;
use crate::rat::lemma_minus_self_zero;
use crate::rat::lemma_times_zero;
use crate::rat::lemma_times_congruence;
use crate::rat::lemma_scale_plus_one;
use crate::rat::lemma_plus_wf;
use crate::rat::lemma_times_wf;

verus! {

/// Mathematical value of a vector: one rational per axis.
pub ghost struct XyModel {
    pub x: RatModel,
    pub y: RatModel,
}

impl XyModel {
    pub open spec fn wf(self) -> bool {
        self.x.wf() && self.y.wf()
    }

    /// Componentwise scalar equivalence.
    pub open spec fn eqv(self, other: XyModel) -> bool {
        self.x.eqv(other.x) && self.y.eqv(other.y)
    }

    pub open spec fn zero() -> XyModel {
        XyModel { x: RatModel::zero(), y: RatModel::zero() }
    }

    pub open spec fn plus(self, other: XyModel) -> XyModel {
        XyModel { x: self.x.plus(other.x), y: self.y.plus(other.y) }
    }

    pub open spec fn minus(self, other: XyModel) -> XyModel {
        XyModel { x: self.x.minus(other.x), y: self.y.minus(other.y) }
    }

    pub open spec fn scaled(self, k: RatModel) -> XyModel {
        XyModel { x: self.x.times(k), y: self.y.times(k) }
    }

    pub open spec fn neg(self) -> XyModel {
        XyModel { x: self.x.neg(), y: self.y.neg() }
    }

    pub open spec fn plus_fits(self, other: XyModel) -> bool {
        self.x.plus_fits(other.x) && self.y.plus_fits(other.y)
    }

    pub open spec fn minus_fits(self, other: XyModel) -> bool {
        self.x.minus_fits(other.x) && self.y.minus_fits(other.y)
    }

    pub open spec fn scaled_fits(self, k: RatModel) -> bool {
        self.x.times_fits(k) && self.y.times_fits(k)
    }
}

/// Vector equivalence is transitive.
pub proof fn lemma_xy_eqv_transitive(a: XyModel, b: XyModel, c: XyModel)
    requires
        a.wf(),
        b.wf(),
        c.wf(),
        a.eqv(b),
        b.eqv(c),
    ensures
        a.eqv(c),
{
    lemma_eqv_transitive(a.x, b.x, c.x);
    lemma_eqv_transitive(a.y, b.y, c.y);
}

/// Vector addition respects equivalence in both arguments.
pub proof fn lemma_xy_plus_congruence(a: XyModel, a2: XyModel, b: XyModel, b2: XyModel)
    requires
        a.wf(),
        a2.wf(),
        b.wf(),
        b2.wf(),
        a.eqv(a2),
        b.eqv(b2),
    ensures
        a.plus(b).eqv(a2.plus(b2)),
{
    lemma_plus_congruence(a.x, a2.x, b.x, b2.x);
    lemma_plus_congruence(a.y, a2.y, b.y, b2.y);
}

/// Scaling respects equivalence of the vector and of the scalar.
pub proof fn lemma_xy_scaled_congruence(a: XyModel, a2: XyModel, k: RatModel, k2: RatModel)
    requires
        a.wf(),
        a2.wf(),
        k.wf(),
        k2.wf(),
        a.eqv(a2),
        k.eqv(k2),
    ensures
        a.scaled(k).eqv(a2.scaled(k2)),
{
    lemma_times_congruence(a.x, a2.x, k, k2);
    lemma_times_congruence(a.y, a2.y, k, k2);
}

/// Adding a vector equivalent to zero leaves the value unchanged.
pub proof fn lemma_xy_plus_zero(a: XyModel, z: XyModel)
    requires
        a.wf(),
        z.wf(),
        z.eqv(XyModel::zero()),
    ensures
        a.plus(z).eqv(a),
{
    lemma_plus_zero(a.x, z.x);
    lemma_plus_zero(a.y, z.y);
}

/// Vector addition is associative up to equivalence.
pub proof fn lemma_xy_plus_associative(a: XyModel, b: XyModel, c: XyModel)
    requires
        a.wf(),
        b.wf(),
        c.wf(),
    ensures
        a.plus(b).plus(c).eqv(a.plus(b.plus(c))),
{
    lemma_plus_associative(a.x, b.x, c.x);
    lemma_plus_associative(a.y, b.y, c.y);
}

/// Vector addition is commutative up to equivalence.
pub proof fn lemma_xy_plus_commutative(a: XyModel, b: XyModel)
    requires
        a.wf(),
        b.wf(),
    ensures
        a.plus(b).eqv(b.plus(a)),
{
    lemma_plus_commutative(a.x, b.x);
    lemma_plus_commutative(a.y, b.y);
}

/// A vector plus its negation is the zero vector.
pub proof fn lemma_xy_plus_neg_zero(a: XyModel)
    requires
        a.wf(),
    ensures
        a.plus(a.neg()).eqv(XyModel::zero()),
{
    lemma_plus_neg_zero(a.x);
    lemma_plus_neg_zero(a.y);
}

/// A vector minus itself is the zero vector.
pub proof fn lemma_xy_minus_self_zero(a: XyModel)
    requires
        a.wf(),
    ensures
        a.minus(a).eqv(XyModel::zero()),
{
    lemma_minus_self_zero(a.x);
    lemma_minus_self_zero(a.y);
}

/// Scaling by `k` and then adding the vector once more equals scaling by
/// `k + 1`.
pub proof fn lemma_xy_scale_plus_one(v: XyModel, k: int)
    requires
        v.wf(),
    ensures
        v.scaled(RatModel::from_int(k)).plus(v).eqv(v.scaled(RatModel::from_int(k + 1))),
{
    lemma_scale_plus_one(v.x, k);
    lemma_scale_plus_one(v.y, k);
}

/// Scaling by a scalar equivalent to zero gives the zero vector.
pub proof fn lemma_xy_scaled_zero(a: XyModel, z: RatModel)
    requires
        a.wf(),
        z.wf(),
        z.eqv(RatModel::zero()),
    ensures
        a.scaled(z).eqv(XyModel::zero()),
{
    lemma_times_zero(a.x, z);
    lemma_times_zero(a.y, z);
}

/// The sum of well-formed vectors is well-formed.
pub proof fn lemma_xy_plus_wf(a: XyModel, b: XyModel)
    requires
        a.wf(),
        b.wf(),
    ensures
        a.plus(b).wf(),
{
    lemma_plus_wf(a.x, b.x);
    lemma_plus_wf(a.y, b.y);
}

/// A well-formed vector scaled by a well-formed scalar is well-formed.
pub proof fn lemma_xy_scaled_wf(a: XyModel, k: RatModel)
    requires
        a.wf(),
        k.wf(),
    ensures
        a.scaled(k).wf(),
{
    lemma_times_wf(a.x, k);
    lemma_times_wf(a.y, k);
}

/// 2D vector with exact rational components.
#[derive(Clone, Copy, Debug)]
pub struct Xy {
    pub x: Rat,
    pub y: Rat,
}

impl View for Xy {
    type V = XyModel;

    open spec fn view(&self) -> XyModel {
        XyModel { x: self.x@, y: self.y@ }
    }
}

impl Xy {
    pub open spec fn wf(self) -> bool {
        self@.wf()
    }

    pub fn new(x: Rat, y: Rat) -> (r: Xy)
        ensures
            r@ == (XyModel { x: x@, y: y@ }),
    {
        Xy { x, y }
    }

    pub fn set(&mut self, x: Rat, y: Rat)
        ensures
            final(self)@ == (XyModel { x: x@, y: y@ }),
    {
        self.x = x;
        self.y = y;
    }

    pub fn add(self, other: Xy) -> (r: Xy)
        requires
            self.wf(),
            other.wf(),
            self@.plus_fits(other@),
        ensures
            r@ == self@.plus(other@),
            r.wf(),
    {
        Xy { x: self.x.add(other.x), y: self.y.add(other.y) }
    }

    pub fn sub(self, other: Xy) -> (r: Xy)
        requires
            self.wf(),
            other.wf(),
            self@.minus_fits(other@),
        ensures
            r@ == self@.minus(other@),
            r.wf(),
    {
        Xy { x: self.x.sub(other.x), y: self.y.sub(other.y) }
    }

    pub fn add_assign(&mut self, other: Xy)
        requires
            old(self).wf(),
            other.wf(),
            old(self)@.plus_fits(other@),
        ensures
            final(self)@ == old(self)@.plus(other@),
            final(self).wf(),
    {
        self.x = self.x.add(other.x);
        self.y = self.y.add(other.y);
    }

    pub fn mul_assign(&mut self, coefficient: Rat)
        requires
            old(self).wf(),
            coefficient.wf(),
            old(self)@.scaled_fits(coefficient@),
        ensures
            final(self)@ == old(self)@.scaled(coefficient@),
            final(self).wf(),
    {
        self.x = self.x.mul(coefficient);
        self.y = self.y.mul(coefficient);
    }

    /// Decides vector equivalence componentwise.
    pub fn eq_val(self, other: Xy) -> (r: bool)
        ensures
            r == self@.eqv(other@),
    {
        self.x.eq_val(other.x) && self.y.eq_val(other.y)
    }
}

} // verus!
