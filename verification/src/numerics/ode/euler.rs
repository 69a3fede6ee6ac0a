use vstd::prelude::*;

use crate::numerics::linalg::{seq_add, seq_scale, vec_add, vec_scale};
use crate::numerics::ode::ODE;
use crate::numerics::Float;

verus! {

/// The explicit Euler method with step `delta`, for an equation that owns its state.
pub struct EulerODESolver<F: Float, const DIM_OUT: usize, O: ODE<F, DIM_OUT>> {
    pub delta: F,
    pub ode: O,
}

impl<F: Float, const DIM_OUT: usize, O: ODE<F, DIM_OUT>> EulerODESolver<F, DIM_OUT, O> {
    pub fn new(step: F, ode: O) -> (r: Self)
        ensures
            r.delta == step,
            r.ode == ode,
    {
        Self { delta: step, ode }
    }

    /// The unknowns one step after `y`, along the slope `d`: `y + d * delta`.
    pub open spec fn stepped_spec(y: Seq<F>, d: Seq<F>, delta: F) -> Seq<F> {
        seq_add(y, seq_scale(d, delta))
    }

    /// One step: `y' = y + f(t, y) * delta` and `t' = t + delta`, for a
    /// value of `f(t, y)` that the equation may give.
    pub fn step(&mut self)
        ensures
            final(self).delta == old(self).delta,
            final(self).ode.equation_spec() == old(self).ode.equation_spec(),
            final(self).ode.t_spec() == old(self).ode.t_spec().add_spec(old(self).delta),
            exists|d: Seq<F>| #[trigger]
                old(self).ode.derivative_rel(d) && final(self).ode.y_spec() == Self::stepped_spec(
                    old(self).ode.y_spec(),
                    d,
                    old(self).delta,
                ),
    {
        let y = self.ode.y();
        let slope = self.ode.derivative();
        let new_y = vec_add(&y, &vec_scale(&slope, self.delta));
        let new_t = self.ode.t().add(self.delta);

        self.ode.set_t(new_t);
        self.ode.set_y(new_y);
    }

    pub fn ode(&self) -> (r: &O)
        ensures
            *r == self.ode,
    {
        &self.ode
    }

    pub fn ode_mut(&mut self) -> (r: &mut O)
        ensures
            *r == old(self).ode,
            final(self).ode == *final(r),
            final(self).delta == old(self).delta,
    {
        &mut self.ode
    }

    pub fn take_ode(self) -> (r: O)
        ensures
            r == self.ode,
    {
        self.ode
    }

    /// The time step, to be changed in place.
    pub fn step_mut(&mut self) -> (r: &mut F)
        ensures
            *r == old(self).delta,
            final(self).delta == *final(r),
            final(self).ode == old(self).ode,
    {
        &mut self.delta
    }
}

} // verus!
