use vstd::prelude::*;

use crate::numerics::ode::euler::EulerODESolver;
use crate::numerics::ode::ODE;
use crate::numerics::{le, le_spec, ratio, ratio_spec, Float};
use crate::presenters::parametrizable_function::{
    ConstantFunction, FloatFn, Sine, StepFunction, StepSine,
};
use crate::simulators::spring::{SpringODE, SpringState};

verus! {

/// How many steps one call of `update` takes at most.
pub const MAX_STEPS_PER_UPDATE: usize = 100000;

/// The mass on its spring between two frames: the solver that moves it, the
/// states it has gone through, and the share of a step that is still owed.
pub struct Spring<F: Float> {
    pub simulation_speed: F,
    pub pending_steps: F,
    pub euler: EulerODESolver<F, 2, SpringODE<F>>,
    pub states: Vec<SpringState<F>>,
    pub last_clear_t: F,
}

/// The functions of time that can be chosen to drive the spring, each with
/// the parameters it starts with: a constant zero, a step of one at time
/// zero, a square wave and a sine wave of amplitude and frequency one.
pub fn create_selectable_functions<F: Float>() -> (r: Vec<FloatFn<F>>)
    ensures
        r@.len() == 4,
        r@[0] == FloatFn::Constant(ConstantFunction { value: F::from_i32_spec(0) }),
        r@[1] == FloatFn::Step(
            StepFunction { amplitude: F::from_i32_spec(1), t_0: F::from_i32_spec(0) },
        ),
        r@[2] == FloatFn::StepSine(
            StepSine {
                amplitude: F::from_i32_spec(1),
                frequency: F::from_i32_spec(1),
                phase: F::from_i32_spec(0),
            },
        ),
        r@[3] == FloatFn::Sine(
            Sine {
                amplitude: F::from_i32_spec(1),
                frequency: F::from_i32_spec(1),
                phase: F::from_i32_spec(0),
            },
        ),
{
    let zero = F::from_i32(0);
    let one = F::from_i32(1);
    let mut functions: Vec<FloatFn<F>> = Vec::with_capacity(4);
    functions.push(FloatFn::Constant(ConstantFunction::new(zero)));
    functions.push(FloatFn::Step(StepFunction::new(one, zero)));
    functions.push(FloatFn::StepSine(StepSine::new(one, one, zero)));
    functions.push(FloatFn::Sine(Sine::new(one, one, zero)));
    functions
}

impl<F: Float> Spring<F> {
    /// A unit mass on a spring of constant one with a damping of a fifth,
    /// neither driven nor pushed, at `position` with `velocity`; the time
    /// step is a hundredth, and a tenth of a time unit passes for each call
    /// of `update`.
    pub fn new(position: F, velocity: F) -> (r: Self)
        ensures
            r.euler.delta == ratio_spec::<F>(1, 100),
            r.euler.ode == (SpringODE {
                t: F::from_i32_spec(0),
                mass: F::from_i32_spec(1),
                equilibrium: FloatFn::Constant(ConstantFunction { value: F::from_i32_spec(0) }),
                position,
                velocity,
                spring_constant: F::from_i32_spec(1),
                damping_factor: ratio_spec::<F>(1, 5),
                outer_force: FloatFn::Constant(ConstantFunction { value: F::from_i32_spec(0) }),
            }),
            r.simulation_speed == ratio_spec::<F>(1, 10),
            r.pending_steps == F::from_i32_spec(1),
            r.last_clear_t == F::from_i32_spec(0),
            r.states@.len() == 1,
    {
        let rest = FloatFn::Constant(ConstantFunction::new(F::from_i32(0)));
        let ode = SpringODE::new(
            F::from_i32(1),
            rest,
            position,
            velocity,
            F::from_i32(1),
            ratio(1, 5),
            rest,
        );
        let mut states: Vec<SpringState<F>> = Vec::new();
        states.push(ode.state());
        Spring {
            states,
            simulation_speed: ratio(1, 10),
            pending_steps: F::from_i32(1),
            euler: EulerODESolver::new(ratio(1, 100), ode),
            last_clear_t: F::from_i32(0),
        }
    }

    /// What is owed of steps after `n` whole steps have been taken off
    /// `pending`.
    pub open spec fn owed_spec(pending: F, n: nat) -> F
        decreases n,
    {
        if n == 0 {
            pending
        } else {
            Self::owed_spec(pending, (n - 1) as nat).sub_spec(F::from_i32_spec(1))
        }
    }

    /// Whether `n` whole steps are taken off `pending`: a step while a whole
    /// one is owed, but `fuel` steps at most.
    pub open spec fn steps_spec(pending: F, fuel: nat) -> nat
        decreases fuel,
    {
        if fuel == 0 || !le_spec(F::from_i32_spec(1), pending) {
            0
        } else {
            1 + Self::steps_spec(pending.sub_spec(F::from_i32_spec(1)), (fuel - 1) as nat)
        }
    }

    /// Whether `after` is what one step makes of `before`: the equation has
    /// gone one step of the explicit Euler method, for a slope that it may
    /// give, and a state of the equation after the step stands at the end of
    /// the states. What is owed of steps is left as it is.
    pub open spec fn stepped_rel(before: Self, after: Self) -> bool {
        &&& after.simulation_speed == before.simulation_speed
        &&& after.pending_steps == before.pending_steps
        &&& after.last_clear_t == before.last_clear_t
        &&& after.euler.delta == before.euler.delta
        &&& after.euler.ode.t == before.euler.ode.t.add_spec(before.euler.delta)
        &&& after.euler.ode.mass == before.euler.ode.mass
        &&& after.euler.ode.equilibrium == before.euler.ode.equilibrium
        &&& after.euler.ode.outer_force == before.euler.ode.outer_force
        &&& after.euler.ode.spring_constant == before.euler.ode.spring_constant
        &&& after.euler.ode.damping_factor == before.euler.ode.damping_factor
        &&& exists|e: F, o: F| #[trigger]
            before.euler.ode.driven_rel(e, o) && after.euler.ode.position
                == before.euler.ode.position.add_spec(
                before.euler.ode.velocity.mul_spec(before.euler.delta),
            ) && after.euler.ode.velocity == before.euler.ode.velocity.add_spec(
                before.euler.ode.acceleration_spec(e, o).mul_spec(before.euler.delta),
            )
        &&& after.states@.len() == before.states@.len() + 1
        &&& after.states@.subrange(0, before.states@.len() as int) == before.states@
        &&& exists|e: F, o: F| #[trigger]
            after.euler.ode.driven_rel(e, o) && after.states@.last() == after.euler.ode.state_spec(
                e,
                o,
            )
    }

    /// Takes one step and keeps the state after it.
    pub fn step_update(&mut self)
        ensures
            Self::stepped_rel(*old(self), *final(self)),
    {
        let ghost before = *self;
        self.euler.step();
        proof {
            let d = choose|d: Seq<F>| #[trigger]
                before.euler.ode.derivative_rel(d) && self.euler.ode.y_spec()
                    == EulerODESolver::<F, 2, SpringODE<F>>::stepped_spec(
                    before.euler.ode.y_spec(),
                    d,
                    before.euler.delta,
                );
            let (e, o) = choose|e: F, o: F| #[trigger]
                before.euler.ode.driven_rel(e, o) && d == seq![
                    before.euler.ode.velocity,
                    before.euler.ode.acceleration_spec(e, o),
                ];
            let stepped = EulerODESolver::<F, 2, SpringODE<F>>::stepped_spec(
                before.euler.ode.y_spec(),
                d,
                before.euler.delta,
            );
            assert(self.euler.ode.y_spec()[0] == stepped[0]);
            assert(self.euler.ode.y_spec()[1] == stepped[1]);
            assert(before.euler.ode.driven_rel(e, o));
        }
        let state = self.euler.ode.state();
        self.states.push(state);
        assert(self.states@.subrange(0, before.states@.len() as int) =~= before.states@);
    }

    /// The mass with one whole step taken off what is owed.
    pub open spec fn paid_spec(self) -> Self {
        Spring { pending_steps: self.pending_steps.sub_spec(F::from_i32_spec(1)), ..self }
    }

    /// Whether entry `i + 1` of `trace` is what a step makes of entry `i`:
    /// one whole step is taken off what is owed, and a step is taken as
    /// `stepped_rel` says.
    pub open spec fn link_rel(trace: Seq<Self>, i: int) -> bool {
        Self::stepped_rel(trace[i].paid_spec(), trace[i + 1])
    }

    /// Whether `after` is what `n` steps make of `before`: there is a trace
    /// from the one to the other in which each entry is what a step makes
    /// of the entry before it.
    pub open spec fn ran_rel(before: Self, after: Self, n: nat) -> bool {
        exists|trace: Seq<Self>|
            {
                &&& #[trigger] trace.len() == n + 1
                &&& trace[0] == before
                &&& trace[n as int] == after
                &&& forall|i: int| 0 <= i < n ==> #[trigger] Self::link_rel(trace, i)
            }
    }

    /// The mass with the steps that the simulation's speed asks for added
    /// to what is owed.
    pub open spec fn charged_spec(self) -> Self {
        Spring {
            pending_steps: self.pending_steps.add_spec(
                self.simulation_speed.div_spec(self.euler.delta),
            ),
            ..self
        }
    }

    /// Moves the mass on by one frame: the steps that the simulation's speed
    /// asks for are added to what is owed, and the whole steps among them
    /// are taken. The state after each step is kept.
    pub fn update(&mut self)
        ensures
            Self::ran_rel(
                old(self).charged_spec(),
                *final(self),
                Self::steps_spec(old(self).charged_spec().pending_steps, MAX_STEPS_PER_UPDATE as nat),
            ),
            final(self).pending_steps == Self::owed_spec(
                old(self).charged_spec().pending_steps,
                Self::steps_spec(old(self).charged_spec().pending_steps, MAX_STEPS_PER_UPDATE as nat),
            ),
    {
        self.pending_steps = self.pending_steps.add(self.simulation_speed.div(self.euler.delta));
        let ghost charged = *self;
        assert(charged == old(self).charged_spec());

        let mut fuel: usize = MAX_STEPS_PER_UPDATE;
        let ghost mut trace: Seq<Self> = seq![charged];
        while fuel > 0 && le(F::from_i32(1), self.pending_steps)
            invariant
                trace.len() >= 1,
                trace[0] == charged,
                trace.last() == *self,
                forall|i: int| 0 <= i < trace.len() - 1 ==> #[trigger] Self::link_rel(trace, i),
                self.pending_steps == Self::owed_spec(
                    charged.pending_steps,
                    (trace.len() - 1) as nat,
                ),
                trace.len() - 1 + Self::steps_spec(self.pending_steps, fuel as nat)
                    == Self::steps_spec(charged.pending_steps, MAX_STEPS_PER_UPDATE as nat),
            decreases fuel,
        {
            let ghost mid = *self;
            let ghost trace_0 = trace;
            self.pending_steps = self.pending_steps.sub(F::from_i32(1));
            assert(*self == mid.paid_spec());
            self.step_update();
            fuel -= 1;
            proof {
                trace = trace_0.push(*self);
                assert forall|i: int| 0 <= i < trace.len() - 1 implies #[trigger] Self::link_rel(
                    trace,
                    i,
                ) by {
                    if i < trace_0.len() - 1 {
                        assert(Self::link_rel(trace_0, i));
                        assert(trace[i] == trace_0[i]);
                        assert(trace[i + 1] == trace_0[i + 1]);
                    } else {
                        assert(trace[i] == mid);
                    }
                }
            }
        }
        assert(trace.len() == (trace.len() - 1) as nat + 1);
    }
}

/// Sets up a mass on a spring: where it starts and how fast.
#[derive(Debug)]
pub struct SpringBuilder<F> {
    pub velocity: F,
    pub position: F,
}

impl<F: Float> SpringBuilder<F> {
    /// A mass at rest at the origin.
    pub fn new() -> (r: Self)
        ensures
            r.velocity == F::from_i32_spec(0),
            r.position == F::from_i32_spec(0),
    {
        SpringBuilder { velocity: F::from_i32(0), position: F::from_i32(0) }
    }

    /// The mass on its spring, where and as fast as set up.
    pub fn build(&self) -> (r: Spring<F>)
        ensures
            r.euler.ode.position == self.position,
            r.euler.ode.velocity == self.velocity,
            r.euler.ode.t == F::from_i32_spec(0),
    {
        Spring::new(self.position, self.velocity)
    }
}

impl<F: Float> Default for SpringBuilder<F> {
    fn default() -> (r: Self)
        ensures
            r.velocity == F::from_i32_spec(0),
            r.position == F::from_i32_spec(0),
    {
        SpringBuilder { velocity: F::from_i32(0), position: F::from_i32(0) }
    }
}

} // verus!
