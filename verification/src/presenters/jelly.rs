use vstd::prelude::*;

use crate::numerics::linalg::Vector3;
use crate::numerics::ode::runge_kutta::{runge_kutta_y, RungeKuttaIV};
use crate::numerics::rotations::Quaternion;
use crate::numerics::ode::Solver;
use crate::numerics::{ratio, ratio_spec, Float};
use crate::simulators::jelly::{
    ControlFrameTransform, JellyODE, JellyState, ODE_DIM, SPACE_DIM,
};

verus! {

/// How many steps one call of `update` takes at most. A step that does not
/// move the time forward would else keep `update` from ever returning.
pub const MAX_STEPS_PER_UPDATE: usize = 100000;

/// The body between two frames: its state, the solver that moves it, and the
/// time up to which it is to be moved.
pub struct Simulation<F: Float> {
    pub state: JellyState<F>,
    pub solver: RungeKuttaIV<F, ODE_DIM, JellyODE<F>>,
    pub disruption_strength: F,
    pub simulation_speed: F,
    pub exact_t: F,
}

/// The unknowns after one accepted step from time `t` and unknowns `y`: the
/// solver's step, then the collisions with the walls.
pub open spec fn stepped_spec<F: Float>(
    solver: RungeKuttaIV<F, ODE_DIM, JellyODE<F>>,
    t: F,
    y: Seq<F>,
) -> Seq<F> {
    solver.ode.apply_collisions_spec(runge_kutta_y(solver.ode, solver.delta, t, y))
}

/// The time and the unknowns after stepping until the time is no longer
/// below `target`, but `fuel` times at most.
pub open spec fn advanced_spec<F: Float>(
    solver: RungeKuttaIV<F, ODE_DIM, JellyODE<F>>,
    target: F,
    t: F,
    y: Seq<F>,
    fuel: nat,
) -> (F, Seq<F>)
    decreases fuel,
{
    if fuel == 0 || !t.lt_spec(target) {
        (t, y)
    } else {
        advanced_spec(
            solver,
            target,
            t.add_spec(solver.delta),
            stepped_spec(solver, t, y),
            (fuel - 1) as nat,
        )
    }
}

/// The unknowns `y` with every velocity pushed by a random share of
/// `strength`: `sample` holds one number in `[0, 1)` for each velocity, which
/// is spread over `[-1, 1)`.
pub open spec fn disrupted_spec<F: Float>(y: Seq<F>, samples: Seq<F>, strength: F) -> Seq<F> {
    Seq::new(
        y.len(),
        |i: int|
            if i < SPACE_DIM {
                y[i]
            } else {
                y[i].add_spec(
                    samples[i - SPACE_DIM].mul_spec(F::from_i32_spec(2)).sub_spec(
                        F::from_i32_spec(1),
                    ).mul_spec(strength),
                )
            },
    )
}

impl<F: Float> Simulation<F> {
    pub open spec fn wf(&self) -> bool {
        self.state.wf()
    }

    /// The body at rest at time zero, tied to `control_frame_transform`, with
    /// a time step of a hundredth.
    pub fn new(control_frame_transform: ControlFrameTransform<F>) -> (r: Self)
        ensures
            r.wf(),
            r.state.t == F::from_i32_spec(0),
            forall|i: int| 0 <= i < ODE_DIM ==> r.state.y@[i] == JellyODE::<F>::default_entry_spec(i),
            r.solver.delta == ratio_spec::<F>(1, 100),
            r.solver.ode.control_frame_spec() == control_frame_transform,
            r.disruption_strength == F::from_i32_spec(1),
            r.simulation_speed == F::from_i32_spec(1),
            r.exact_t == F::from_i32_spec(0),
    {
        Self {
            state: JellyODE::default_state(),
            solver: RungeKuttaIV::new(ratio(1, 100), JellyODE::new(control_frame_transform)),
            disruption_strength: F::from_i32(1),
            simulation_speed: F::from_i32(1),
            exact_t: F::from_i32(0),
        }
    }

    /// Moves the body on by the share of time of one frame: `delta` seconds
    /// at the simulation's speed are added to the time to reach, and steps
    /// are taken while the state's time lies below it.
    pub fn update(&mut self, delta: F)
        requires
            old(self).wf(),
        ensures
            final(self).wf(),
            final(self).solver == old(self).solver,
            final(self).disruption_strength == old(self).disruption_strength,
            final(self).simulation_speed == old(self).simulation_speed,
            final(self).exact_t == old(self).exact_t.add_spec(
                delta.mul_spec(old(self).simulation_speed),
            ),
            (final(self).state.t, final(self).state.y@) == advanced_spec(
                old(self).solver,
                final(self).exact_t,
                old(self).state.t,
                old(self).state.y@,
                MAX_STEPS_PER_UPDATE as nat,
            ),
    {
        let elapsed_t = delta.mul(self.simulation_speed);
        self.exact_t = self.exact_t.add(elapsed_t);

        let mut fuel: usize = MAX_STEPS_PER_UPDATE;
        while fuel > 0 && self.state.t.lt(self.exact_t)
            invariant
                self.wf(),
                self.solver == old(self).solver,
                self.disruption_strength == old(self).disruption_strength,
                self.simulation_speed == old(self).simulation_speed,
                self.exact_t == old(self).exact_t.add_spec(
                    delta.mul_spec(old(self).simulation_speed),
                ),
                advanced_spec(
                    self.solver,
                    self.exact_t,
                    self.state.t,
                    self.state.y@,
                    fuel as nat,
                ) == advanced_spec(
                    old(self).solver,
                    self.exact_t,
                    old(self).state.t,
                    old(self).state.y@,
                    MAX_STEPS_PER_UPDATE as nat,
                ),
            decreases fuel,
        {
            self.step_update();
            fuel -= 1;
        }
    }

    /// Takes one step and accepts its state after the collisions.
    pub fn step_update(&mut self)
        requires
            old(self).wf(),
        ensures
            final(self).wf(),
            final(self).solver == old(self).solver,
            final(self).disruption_strength == old(self).disruption_strength,
            final(self).simulation_speed == old(self).simulation_speed,
            final(self).exact_t == old(self).exact_t,
            final(self).state.t == old(self).state.t.add_spec(old(self).solver.delta),
            final(self).state.y@ == stepped_spec(
                old(self).solver,
                old(self).state.t,
                old(self).state.y@,
            ),
    {
        self.state = self.solver.ode.apply_collisions(self.solver.step(&self.state));
    }

    /// Pushes every velocity by a random share of the disruption strength.
    /// `samples` holds one number in `[0, 1)` for each coordinate of the
    /// velocities.
    pub fn apply_disruption(&mut self, samples: &Vec<F>)
        requires
            old(self).wf(),
            samples@.len() == SPACE_DIM,
        ensures
            final(self).wf(),
            final(self).solver == old(self).solver,
            final(self).disruption_strength == old(self).disruption_strength,
            final(self).simulation_speed == old(self).simulation_speed,
            final(self).exact_t == old(self).exact_t,
            final(self).state.t == old(self).state.t,
            final(self).state.y@ == disrupted_spec(
                old(self).state.y@,
                samples@,
                old(self).disruption_strength,
            ),
    {
        let ghost y_0 = self.state.y@;
        let mut i: usize = 0;
        while i < SPACE_DIM
            invariant
                i <= SPACE_DIM,
                samples@.len() == SPACE_DIM,
                y_0.len() == ODE_DIM,
                self.state.y@.len() == ODE_DIM,
                self.solver == old(self).solver,
                self.disruption_strength == old(self).disruption_strength,
                self.simulation_speed == old(self).simulation_speed,
                self.exact_t == old(self).exact_t,
                self.state.t == old(self).state.t,
                forall|j: int|
                    0 <= j < ODE_DIM ==> self.state.y@[j] == if j < SPACE_DIM + i {
                        disrupted_spec(y_0, samples@, self.disruption_strength)[j]
                    } else {
                        y_0[j]
                    },
            decreases SPACE_DIM - i,
        {
            let kick = samples[i].mul(F::from_i32(2)).sub(F::from_i32(1)).mul(
                self.disruption_strength,
            );
            let pushed = self.state.y[i + SPACE_DIM].add(kick);
            self.state.y.set(i + SPACE_DIM, pushed);
            i += 1;
        }
        assert(self.state.y@ =~= disrupted_spec(y_0, samples@, self.disruption_strength));
    }
}

/// Sets up the deformable body.
#[derive(Debug, Default)]
pub struct JellyBuilder {}

impl JellyBuilder {
    pub fn new() -> (r: Self)
        ensures
            r == (JellyBuilder {  }),
    {
        JellyBuilder {  }
    }

    /// The line that the set-up panel shows: none.
    pub fn label(&self) -> (r: &'static str)
        ensures
            r@ == ""@,
    {
        ""
    }

    /// The body at rest about the origin, tied to a frame that has not moved.
    pub fn build<F: Float>(&self) -> (r: Simulation<F>)
        ensures
            r.wf(),
            r.state.t == F::from_i32_spec(0),
            r.exact_t == F::from_i32_spec(0),
            forall|i: int| 0 <= i < ODE_DIM ==> r.state.y@[i] == JellyODE::<F>::default_entry_spec(i),
            r.solver.delta == ratio_spec::<F>(1, 100),
            r.solver.ode.control_frame_spec().translation == Vector3::<F>::zeros_spec(),
            r.solver.ode.control_frame_spec().rotation == Quaternion::<F>::identity_spec(),
            r.disruption_strength == F::from_i32_spec(1),
            r.simulation_speed == F::from_i32_spec(1),
    {
        Simulation::new(ControlFrameTransform::new())
    }
}

} // verus!
