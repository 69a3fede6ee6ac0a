use vstd::prelude::*;

use crate::numerics::Float;

pub mod euler;
pub mod runge_kutta;

verus! {

/// A point on a solution: the time `t` and the `DIM_OUT` unknowns at that time.
#[derive(Debug)]
pub struct State<F, const DIM_OUT: usize> {
    pub t: F,
    pub y: Vec<F>,
}

impl<F: Float, const DIM_OUT: usize> State<F, DIM_OUT> {
    /// The vector has exactly `DIM_OUT` entries.
    pub open spec fn wf(&self) -> bool {
        self.y@.len() == DIM_OUT
    }

    /// The state at time `t` with unknowns `y`, or `None` when `y` has the wrong length.
    pub fn new(t: F, y: Vec<F>) -> (r: Option<Self>)
        ensures
            r.is_some() == (y@.len() == DIM_OUT),
            r.is_some() ==> r.unwrap().wf() && r.unwrap().t == t && r.unwrap().y@ == y@,
    {
        if y.len() == DIM_OUT {
            Some(State { t, y })
        } else {
            None
        }
    }
}

/// An ordinary differential equation `dy/dt = f(t, y)` given by its
/// right-hand side, which is a function of `t` and `y` and of nothing else.
pub trait PlainODE<F: Float, const DIM_OUT: usize> {
    /// The right-hand side at time `t` and unknowns `y`.
    spec fn derivative_spec(&self, t: F, y: Seq<F>) -> Seq<F>;

    fn derivative(&self, state: &State<F, DIM_OUT>) -> (r: Vec<F>)
        requires
            state.wf(),
        ensures
            r@ == self.derivative_spec(state.t, state.y@),
            r@.len() == DIM_OUT,
    ;
}

/// An ordinary differential equation that owns its `t` and `y`. Its
/// right-hand side need not be a function of the two: an equation that is
/// driven by a sine may give another last digit each time it is asked.
pub trait ODE<F: Float, const DIM_OUT: usize> {
    /// What the equation is made of besides its `t` and `y`.
    type Equation;

    /// The equation apart from its `t` and `y`: no step changes it.
    spec fn equation_spec(&self) -> Self::Equation;

    spec fn t_spec(&self) -> F;

    spec fn y_spec(&self) -> Seq<F>;

    /// Whether `d` is a value that the right-hand side may come out as, at
    /// the time and unknowns that the equation holds.
    spec fn derivative_rel(&self, d: Seq<F>) -> bool;

    fn derivative(&self) -> (r: Vec<F>)
        ensures
            self.derivative_rel(r@),
            r@.len() == DIM_OUT,
    ;

    fn t(&self) -> (r: F)
        ensures
            r == self.t_spec(),
    ;

    fn y(&self) -> (r: Vec<F>)
        ensures
            r@ == self.y_spec(),
            r@.len() == DIM_OUT,
    ;

    fn set_t(&mut self, t: F)
        ensures
            final(self).t_spec() == t,
            final(self).y_spec() == old(self).y_spec(),
            final(self).equation_spec() == old(self).equation_spec(),
    ;

    fn set_y(&mut self, y: Vec<F>)
        requires
            y@.len() == DIM_OUT,
        ensures
            final(self).y_spec() == y@,
            final(self).t_spec() == old(self).t_spec(),
            final(self).equation_spec() == old(self).equation_spec(),
    ;
}

/// A one-step method for `O`: it maps a state to the state one time step later.
pub trait Solver<F: Float, const DIM_OUT: usize, O: PlainODE<F, DIM_OUT>>: Sized {
    /// The equation that the solver integrates.
    spec fn ode_spec(&self) -> O;

    /// The time after one step from time `t`.
    spec fn step_t_spec(&self, t: F) -> F;

    /// The unknowns after one step from time `t` and unknowns `y`.
    spec fn step_y_spec(&self, t: F, y: Seq<F>) -> Seq<F>;

    fn step(&self, state: &State<F, DIM_OUT>) -> (r: State<F, DIM_OUT>)
        requires
            state.wf(),
        ensures
            r.wf(),
            r.t == self.step_t_spec(state.t),
            r.y@ == self.step_y_spec(state.t, state.y@),
    ;

    /// Puts `ode` in the place of the solver's equation and hands the old one back.
    fn replace_ode(&mut self, ode: O) -> (r: O)
        ensures
            r == old(self).ode_spec(),
            final(self).ode_spec() == ode,
    ;

    fn take_ode(self) -> (r: O)
        ensures
            r == self.ode_spec(),
    ;

    fn ode_mut(&mut self) -> (r: &mut O)
        ensures
            *r == old(self).ode_spec(),
            final(self).ode_spec() == *final(r),
    ;

    fn ode(&self) -> (r: &O)
        ensures
            *r == self.ode_spec(),
    ;
}

/// A solver whose time step can be read and changed.
pub trait SolverWithDelta<F: Float, const DIM_OUT: usize, O: PlainODE<F, DIM_OUT>>: Solver<
    F,
    DIM_OUT,
    O,
> {
    spec fn delta_spec(&self) -> F;

    fn delta_mut(&mut self) -> (r: &mut F)
        ensures
            *r == old(self).delta_spec(),
            final(self).delta_spec() == *final(r),
            final(self).ode_spec() == old(self).ode_spec(),
    ;

    fn delta(&self) -> (r: F)
        ensures
            r == self.delta_spec(),
    ;
}

} // verus!
