//! The kinematic integrator: position, velocity, acceleration and a damping
//! coefficient, advanced once per fixed tick by
//! velocity += acceleration; velocity *= 1 - damping; position += velocity.

use vstd::prelude::*;

use crate::rat::Rat;
use crate::rat::RatModel;
use crate::rat::lemma_minus_wf;
use crate::xy::Xy;
use crate::xy::XyModel;
use crate::xy::lemma_xy_eqv_transitive;
use crate::xy::lemma_xy_plus_congruence;
use crate::xy::lemma_xy_scaled_congruence;
use crate::xy::lemma_xy_plus_zero;
use crate::xy::lemma_xy_plus_associative;
use crate::xy::lemma_xy_scale_plus_one;
use crate::xy::lemma_xy_plus_wf;
use crate::xy::lemma_xy_scaled_wf;
use crate::xy::lemma_xy_scaled_zero;

verus! {

/// Mathematical state of the integrator.
pub ghost struct MovableModel {
    pub coordinates: XyModel,
    pub movement_vector: XyModel,
    pub acceleration_vector: XyModel,
    pub braking_coefficient: RatModel,
}

impl MovableModel {
    /// All fields well-formed, and the damping coefficient lies in [0, 1].
    pub open spec fn wf(self) -> bool {
        &&& self.coordinates.wf()
        &&& self.movement_vector.wf()
        &&& self.acceleration_vector.wf()
        &&& self.braking_coefficient.wf()
        &&& 0 <= self.braking_coefficient.num
        &&& self.braking_coefficient.num <= self.braking_coefficient.den
    }

    /// One tick: velocity gains the acceleration, is damped by 1 - d, and
    /// the position advances by the new velocity.
    pub open spec fn step(self) -> MovableModel {
        let gained = self.movement_vector.plus(self.acceleration_vector);
        let damped = gained.scaled(RatModel::one().minus(self.braking_coefficient));
        MovableModel {
            coordinates: self.coordinates.plus(damped),
            movement_vector: damped,
            acceleration_vector: self.acceleration_vector,
            braking_coefficient: self.braking_coefficient,
        }
    }

    /// The state after `n` ticks.
    pub open spec fn step_n(self, n: nat) -> MovableModel
        decreases n,
    {
        if n == 0 {
            self
        } else {
            self.step_n((n - 1) as nat).step()
        }
    }

    /// Every intermediate fraction of one tick fits back into machine
    /// integers.
    pub open spec fn step_fits(self) -> bool {
        let gained = self.movement_vector.plus(self.acceleration_vector);
        let factor = RatModel::one().minus(self.braking_coefficient);
        let damped = gained.scaled(factor);
        &&& self.movement_vector.plus_fits(self.acceleration_vector)
        &&& gained.scaled_fits(factor)
        &&& self.coordinates.plus_fits(damped)
    }
}

/// One tick keeps the state well-formed and leaves the acceleration and the
/// damping coefficient unchanged.
pub proof fn lemma_step_wf(m: MovableModel)
    requires
        m.wf(),
    ensures
        m.step().wf(),
        m.step().acceleration_vector == m.acceleration_vector,
        m.step().braking_coefficient == m.braking_coefficient,
{
    let factor = RatModel::one().minus(m.braking_coefficient);
    lemma_minus_wf(RatModel::one(), m.braking_coefficient);
    let gained = m.movement_vector.plus(m.acceleration_vector);
    lemma_xy_plus_wf(m.movement_vector, m.acceleration_vector);
    lemma_xy_scaled_wf(gained, factor);
    lemma_xy_plus_wf(m.coordinates, gained.scaled(factor));
}

/// Any number of ticks keeps the state well-formed and leaves the
/// acceleration and the damping coefficient unchanged.
pub proof fn lemma_step_n_wf(m: MovableModel, n: nat)
    requires
        m.wf(),
    ensures
        m.step_n(n).wf(),
        m.step_n(n).acceleration_vector == m.acceleration_vector,
        m.step_n(n).braking_coefficient == m.braking_coefficient,
    decreases n,
{
    if n > 0 {
        lemma_step_n_wf(m, (n - 1) as nat);
        lemma_step_wf(m.step_n((n - 1) as nat));
    }
}

/// Uniform motion: with zero acceleration and zero damping the velocity is
/// constant and the position advances by the velocity once per tick.
pub proof fn lemma_uniform_motion(m: MovableModel, n: nat)
    requires
        m.wf(),
        m.acceleration_vector.eqv(XyModel::zero()),
        m.braking_coefficient.eqv(RatModel::zero()),
    ensures
        m.step_n(n).movement_vector.eqv(m.movement_vector),
        m.step_n(n).coordinates.eqv(
            m.coordinates.plus(m.movement_vector.scaled(RatModel::from_int(n as int))),
        ),
    decreases n,
{
    if n == 0 {
        let start_offset = m.movement_vector.scaled(RatModel::from_int(0));
        lemma_xy_scaled_wf(m.movement_vector, RatModel::from_int(0));
        assert(start_offset.eqv(XyModel::zero()));
        lemma_xy_plus_zero(m.coordinates, start_offset);
    } else {
        lemma_uniform_motion(m, (n - 1) as nat);
        lemma_step_n_wf(m, (n - 1) as nat);
        let prev = m.step_n((n - 1) as nat);
        let factor = RatModel::one().minus(m.braking_coefficient);
        lemma_minus_wf(RatModel::one(), m.braking_coefficient);
        assert(m.braking_coefficient.num == 0);
        assert(factor.eqv(RatModel::one()));
        let gained = prev.movement_vector.plus(m.acceleration_vector);
        lemma_xy_plus_wf(prev.movement_vector, m.acceleration_vector);
        lemma_xy_plus_zero(prev.movement_vector, m.acceleration_vector);
        lemma_xy_eqv_transitive(gained, prev.movement_vector, m.movement_vector);
        let damped = gained.scaled(factor);
        lemma_xy_scaled_wf(gained, factor);
        lemma_xy_scaled_wf(m.movement_vector, RatModel::one());
        lemma_xy_scaled_congruence(gained, m.movement_vector, factor, RatModel::one());
        assert(m.movement_vector.scaled(RatModel::one()).eqv(m.movement_vector));
        lemma_xy_eqv_transitive(
            damped,
            m.movement_vector.scaled(RatModel::one()),
            m.movement_vector,
        );
        // The position: prev.coordinates + damped is equivalent to
        // m.coordinates + velocity * n.
        let prev_offset = m.movement_vector.scaled(RatModel::from_int(n - 1));
        let full_offset = m.movement_vector.scaled(RatModel::from_int(n as int));
        lemma_xy_scaled_wf(m.movement_vector, RatModel::from_int(n - 1));
        lemma_xy_scaled_wf(m.movement_vector, RatModel::from_int(n as int));
        lemma_xy_plus_wf(m.coordinates, prev_offset);
        lemma_xy_plus_congruence(
            prev.coordinates,
            m.coordinates.plus(prev_offset),
            damped,
            m.movement_vector,
        );
        lemma_xy_plus_associative(m.coordinates, prev_offset, m.movement_vector);
        lemma_xy_scale_plus_one(m.movement_vector, n - 1);
        lemma_xy_plus_wf(prev_offset, m.movement_vector);
        lemma_xy_plus_congruence(
            m.coordinates,
            m.coordinates,
            prev_offset.plus(m.movement_vector),
            full_offset,
        );
        lemma_xy_plus_wf(prev.coordinates, damped);
        lemma_xy_plus_wf(m.coordinates.plus(prev_offset), m.movement_vector);
        lemma_xy_plus_wf(m.coordinates, prev_offset.plus(m.movement_vector));
        lemma_xy_plus_wf(m.coordinates, full_offset);
        lemma_xy_eqv_transitive(
            prev.coordinates.plus(damped),
            m.coordinates.plus(prev_offset).plus(m.movement_vector),
            m.coordinates.plus(prev_offset.plus(m.movement_vector)),
        );
        lemma_xy_eqv_transitive(
            prev.coordinates.plus(damped),
            m.coordinates.plus(prev_offset.plus(m.movement_vector)),
            m.coordinates.plus(full_offset),
        );
    }
}

/// Full damping: with the damping coefficient equivalent to one, the
/// velocity is zero after the first tick and the position never moves
/// after the first tick.
pub proof fn lemma_full_damping(m: MovableModel, n: nat)
    requires
        m.wf(),
        m.braking_coefficient.eqv(RatModel::one()),
        1 <= n,
    ensures
        m.step_n(n).movement_vector.eqv(XyModel::zero()),
        m.step_n(n).coordinates.eqv(m.step_n(1).coordinates),
    decreases n,
{
    let prev = m.step_n((n - 1) as nat);
    lemma_step_n_wf(m, (n - 1) as nat);
    let factor = RatModel::one().minus(m.braking_coefficient);
    lemma_minus_wf(RatModel::one(), m.braking_coefficient);
    assert(factor.num == 0);
    assert(factor.eqv(RatModel::zero()));
    let gained = prev.movement_vector.plus(m.acceleration_vector);
    lemma_xy_plus_wf(prev.movement_vector, m.acceleration_vector);
    let damped = gained.scaled(factor);
    lemma_xy_scaled_wf(gained, factor);
    lemma_xy_scaled_zero(gained, factor);
    if n > 1 {
        lemma_full_damping(m, (n - 1) as nat);
        lemma_step_n_wf(m, 1);
        lemma_xy_plus_zero(prev.coordinates, damped);
        lemma_xy_plus_wf(prev.coordinates, damped);
        lemma_xy_eqv_transitive(
            prev.coordinates.plus(damped),
            prev.coordinates,
            m.step_n(1).coordinates,
        );
    }
}

/// A movable object: where it is, how it moves, how its movement changes,
/// and how strongly it brakes.
#[derive(Clone, Copy, Debug)]
pub struct Movable {
    pub coordinates: Xy,
    pub movement_vector: Xy,
    pub acceleration_vector: Xy,
    pub braking_coefficient: Rat,
}

impl View for Movable {
    type V = MovableModel;

    open spec fn view(&self) -> MovableModel {
        MovableModel {
            coordinates: self.coordinates@,
            movement_vector: self.movement_vector@,
            acceleration_vector: self.acceleration_vector@,
            braking_coefficient: self.braking_coefficient@,
        }
    }
}

impl Movable {
    pub open spec fn wf(self) -> bool {
        self@.wf()
    }

    pub fn new(coordinates: Xy, movement_vector: Xy, acceleration_vector: Xy, braking_coefficient: Rat) -> (r: Movable)
        requires
            coordinates.wf(),
            movement_vector.wf(),
            acceleration_vector.wf(),
            braking_coefficient.wf(),
            0 <= braking_coefficient@.num,
            braking_coefficient@.num <= braking_coefficient@.den,
        ensures
            r@ == (MovableModel {
                coordinates: coordinates@,
                movement_vector: movement_vector@,
                acceleration_vector: acceleration_vector@,
                braking_coefficient: braking_coefficient@,
            }),
            r.wf(),
    {
        Movable { coordinates, movement_vector, acceleration_vector, braking_coefficient }
    }

    /// One tick. The new velocity is (velocity + acceleration) * (1 - damping)
    /// and the new position is the old position plus the new velocity.
    pub fn move0(&mut self)
        requires
            old(self).wf(),
            old(self)@.step_fits(),
        ensures
            final(self)@ == old(self)@.step(),
            final(self)@.movement_vector == old(self)@.movement_vector.plus(
                old(self)@.acceleration_vector,
            ).scaled(RatModel::one().minus(old(self)@.braking_coefficient)),
            final(self)@.coordinates == old(self)@.coordinates.plus(final(self)@.movement_vector),
            final(self).wf(),
    {
        let factor = Rat::new(1, 1).sub(self.braking_coefficient);
        self.movement_vector.add_assign(self.acceleration_vector);
        self.movement_vector.mul_assign(factor);
        self.coordinates.add_assign(self.movement_vector);
    }

    /// Runs `ticks` ticks; the tick count for a frame comes from the caller.
    pub fn step_ticks(&mut self, ticks: u32)
        requires
            old(self).wf(),
            forall|i: nat| i < ticks ==> old(self)@.step_n(i).step_fits(),
        ensures
            final(self)@ == old(self)@.step_n(ticks as nat),
            final(self).wf(),
    {
        let ghost start: MovableModel = self@;
        let mut i: u32 = 0;
        while i < ticks
            invariant
                i <= ticks,
                self@ == start.step_n(i as nat),
                self.wf(),
                forall|j: nat| j < ticks ==> start.step_n(j).step_fits(),
            decreases ticks - i,
        {
            proof {
                assert(start.step_n(i as nat).step_fits());
            }
            self.move0();
            i = i + 1;
            proof {
                assert(self@ == start.step_n(i as nat));
            }
        }
    }

    /// Decides whether one tick fits into machine integers from the current
    /// state; a caller tests this before `move0`.
    pub fn can_step(&self) -> (r: bool)
        requires
            self.wf(),
        ensures
            r == self@.step_fits(),
    {
        if !(self.movement_vector.x.plus_fits_now(self.acceleration_vector.x)
            && self.movement_vector.y.plus_fits_now(self.acceleration_vector.y)) {
            return false;
        }
        let factor = Rat::new(1, 1).sub(self.braking_coefficient);
        let gained_x = self.movement_vector.x.add(self.acceleration_vector.x);
        let gained_y = self.movement_vector.y.add(self.acceleration_vector.y);
        if !(gained_x.times_fits_now(factor) && gained_y.times_fits_now(factor)) {
            return false;
        }
        let damped_x = gained_x.mul(factor);
        let damped_y = gained_y.mul(factor);
        self.coordinates.x.plus_fits_now(damped_x) && self.coordinates.y.plus_fits_now(damped_y)
    }
}

} // verus!
