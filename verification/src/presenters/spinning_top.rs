use vstd::prelude::*;

use crate::numerics::linalg::{Matrix3, Vector3};
use crate::numerics::ode::runge_kutta::{runge_kutta_y, RungeKuttaIV};
use crate::numerics::ode::Solver;
use crate::numerics::rotations::Quaternion;
use crate::numerics::{ratio, ratio_spec, to_radians, to_radians_spec, Float};
use crate::simulators::spinning_top::{
    renormalized_spec, tensor_spec, SpinningTopODE, SpinningTopState, TOP_DIM,
};

verus! {

/// How many steps one call of `update` takes at most. A step that does not
/// move the time forward would else keep `update` from ever returning.
pub const MAX_STEPS_PER_UPDATE: usize = 100000;

/// The top between two frames: its state, the solver that moves it, and the
/// time up to which it is to be moved.
pub struct SpinningTop<F: Float> {
    pub state: SpinningTopState<F>,
    pub solver: RungeKuttaIV<F, TOP_DIM, SpinningTopODE<F>>,
    pub simulation_speed: F,
    pub exact_t: F,
}

/// The unknowns after one accepted step from time `t` and unknowns `y`: the
/// solver's step, then the orientation brought back to unit length.
pub open spec fn stepped_spec<F: Float>(
    solver: RungeKuttaIV<F, TOP_DIM, SpinningTopODE<F>>,
    t: F,
    y: Seq<F>,
) -> Seq<F> {
    renormalized_spec(runge_kutta_y(solver.ode, solver.delta, t, y))
}

/// The time and the unknowns after stepping until the time is no longer
/// below `target`, but `fuel` times at most.
pub open spec fn advanced_spec<F: Float>(
    solver: RungeKuttaIV<F, TOP_DIM, SpinningTopODE<F>>,
    target: F,
    t: F,
    y: Seq<F>,
    fuel: nat,
) -> (F, Seq<F>)
    decreases fuel,
{
    if fuel == 0 || !t.lt_spec(target) {
        (t, y)
    } else {
        advanced_spec(
            solver,
            target,
            t.add_spec(solver.delta),
            stepped_spec(solver, t, y),
            (fuel - 1) as nat,
        )
    }
}

/// The density of the cube that `SpinningTop::new` makes.
pub open spec fn default_density_spec<F: Float>() -> F {
    F::from_i32_spec(10)
}

/// The side of the cube that `SpinningTop::new` makes.
pub open spec fn default_side_length_spec<F: Float>() -> F {
    F::from_i32_spec(2)
}

impl<F: Float> SpinningTop<F> {
    pub open spec fn wf(&self) -> bool {
        self.state.wf() && self.solver.ode.wf()
    }

    /// A cube of density 10 and side 2 at time zero, with the given
    /// orientation and angular velocity and a time step of a hundredth; or
    /// `None` where the scalar type gives that cube a tensor that cannot be
    /// inverted.
    pub fn new(rotation: &Quaternion<F>, angular_velocity: &Vector3<F>) -> (r: Option<Self>)
        ensures
            r.is_some() == tensor_spec(
                default_density_spec::<F>(),
                default_side_length_spec::<F>(),
            ).invertible_spec(),
            r.is_some() ==> {
                let top = r.unwrap();
                &&& top.wf()
                &&& top.state.t == F::from_i32_spec(0)
                &&& top.state.y@ == seq![
                    angular_velocity.x,
                    angular_velocity.y,
                    angular_velocity.z,
                    rotation.0[0],
                    rotation.0[1],
                    rotation.0[2],
                    rotation.0[3],
                ]
                &&& top.solver.delta == ratio_spec::<F>(1, 100)
                &&& top.solver.ode.density_spec() == default_density_spec::<F>()
                &&& top.solver.ode.side_length_spec() == default_side_length_spec::<F>()
                &&& top.simulation_speed == F::from_i32_spec(1)
                &&& top.exact_t == F::from_i32_spec(0)
            },
    {
        match SpinningTopODE::try_new(F::from_i32(10), F::from_i32(2)) {
            Some(ode) => Some(
                Self {
                    exact_t: F::from_i32(0),
                    state: SpinningTopODE::initial_state(rotation, angular_velocity),
                    solver: RungeKuttaIV::new(ratio(1, 100), ode),
                    simulation_speed: F::from_i32(1),
                },
            ),
            None => None,
        }
    }

    /// Moves the top on by the share of time of one frame: `delta` seconds at
    /// the simulation's speed are added to the time to reach, and steps are
    /// taken while the state's time lies below it.
    pub fn update(&mut self, delta: F)
        requires
            old(self).wf(),
        ensures
            final(self).wf(),
            final(self).solver == old(self).solver,
            final(self).simulation_speed == old(self).simulation_speed,
            final(self).exact_t == old(self).exact_t.add_spec(
                delta.mul_spec(old(self).simulation_speed),
            ),
            (final(self).state.t, final(self).state.y@) == advanced_spec(
                old(self).solver,
                final(self).exact_t,
                old(self).state.t,
                old(self).state.y@,
                MAX_STEPS_PER_UPDATE as nat,
            ),
    {
        let elapsed_t = delta.mul(self.simulation_speed);
        self.exact_t = self.exact_t.add(elapsed_t);

        let mut fuel: usize = MAX_STEPS_PER_UPDATE;
        while fuel > 0 && self.state.t.lt(self.exact_t)
            invariant
                self.wf(),
                self.solver == old(self).solver,
                self.simulation_speed == old(self).simulation_speed,
                self.exact_t == old(self).exact_t.add_spec(
                    delta.mul_spec(old(self).simulation_speed),
                ),
                advanced_spec(
                    self.solver,
                    self.exact_t,
                    self.state.t,
                    self.state.y@,
                    fuel as nat,
                ) == advanced_spec(
                    old(self).solver,
                    self.exact_t,
                    old(self).state.t,
                    old(self).state.y@,
                    MAX_STEPS_PER_UPDATE as nat,
                ),
            decreases fuel,
        {
            self.step_update();
            fuel -= 1;
        }
    }

    /// Takes one step and brings the orientation back to unit length.
    pub fn step_update(&mut self)
        requires
            old(self).wf(),
        ensures
            final(self).wf(),
            final(self).solver == old(self).solver,
            final(self).simulation_speed == old(self).simulation_speed,
            final(self).exact_t == old(self).exact_t,
            final(self).state.t == old(self).state.t.add_spec(old(self).solver.delta),
            final(self).state.y@ == stepped_spec(
                old(self).solver,
                old(self).state.t,
                old(self).state.y@,
            ),
    {
        self.state = SpinningTopODE::renormalize(self.solver.step(&self.state));
    }
}

/// Sets up the spinning top: how far it leans at the start, in degrees, and
/// how fast it spins about its diagonal.
#[derive(Debug)]
pub struct SpinningTopBuilder<F> {
    pub tilt: F,
    pub angular_velocity: F,
}

impl<F: Float> SpinningTopBuilder<F> {
    /// An upright top that does not spin.
    pub fn new() -> (r: Self)
        ensures
            r.tilt == F::from_i32_spec(0),
            r.angular_velocity == F::from_i32_spec(0),
    {
        SpinningTopBuilder { tilt: F::from_i32(0), angular_velocity: F::from_i32(0) }
    }
}

/// The values of the arc tangent, the cosines and the sines that place the
/// top at its start.
pub struct StartTrig<F> {
    /// The angle between the diagonal of a face and the diagonal of the cube.
    pub arc: F,
    /// The cosine of half the angle by which the top is turned.
    pub cos_half: F,
    /// The sine of half the angle by which the top is turned.
    pub sin_half: F,
    /// The sine of the angle `arc`.
    pub sin_arc: F,
    /// The cosine of the angle `arc`.
    pub cos_arc: F,
}

impl<F: Float> SpinningTopBuilder<F> {
    /// The axis about which the cube is tipped onto its corner.
    pub open spec fn axis_spec() -> Vector3<F> {
        (Vector3 {
            x: F::from_i32_spec(1).neg_spec(),
            y: F::from_i32_spec(0),
            z: F::from_i32_spec(1),
        }).normalize_spec()
    }

    /// A quarter turn, in radians.
    pub open spec fn quarter_turn_spec() -> F {
        F::pi_spec().div_spec(F::from_i32_spec(2))
    }

    /// The angle that brings the cube's diagonal upright, for the angle
    /// `arc` between a face's diagonal and the cube's.
    pub open spec fn diagonal_angle_spec(arc: F) -> F {
        Self::quarter_turn_spec().sub_spec(arc)
    }

    /// Half the angle by which the cube is turned at its start: the angle
    /// that brings its diagonal upright and the tilt.
    pub open spec fn half_turn_spec(&self, arc: F) -> F {
        Self::diagonal_angle_spec(arc).add_spec(to_radians_spec(self.tilt)).div_spec(
            F::from_i32_spec(2),
        )
    }

    /// The angle by which the spin's axis is turned: a quarter turn less the
    /// angle that brings the diagonal upright.
    pub open spec fn spin_turn_spec(arc: F) -> F {
        Self::quarter_turn_spec().sub_spec(Self::diagonal_angle_spec(arc))
    }

    /// Whether `trig` holds values that the scalar type may give.
    pub open spec fn trig_rel(&self, trig: StartTrig<F>) -> bool {
        &&& F::from_i32_spec(1).atan2_rel(F::from_i32_spec(2).sqrt_spec(), trig.arc)
        &&& self.half_turn_spec(trig.arc).sin_rel(trig.sin_half)
        &&& self.half_turn_spec(trig.arc).cos_rel(trig.cos_half)
        &&& Self::spin_turn_spec(trig.arc).sin_rel(trig.sin_arc)
        &&& Self::spin_turn_spec(trig.arc).cos_rel(trig.cos_arc)
    }

    /// The orientation at the start: the cube on its corner, tilted.
    pub open spec fn rotation_spec(trig: StartTrig<F>) -> Quaternion<F> {
        Quaternion::from_axis_angle_spec(Self::axis_spec(), trig.cos_half, trig.sin_half)
    }

    /// The angular velocity at the start: along the cube's diagonal.
    pub open spec fn spin_spec(&self, trig: StartTrig<F>) -> Vector3<F> {
        Matrix3::from_axis_angle_spec(Self::axis_spec(), trig.sin_arc, trig.cos_arc).mul_vec_spec(
            Vector3 { x: F::from_i32_spec(1), y: F::from_i32_spec(0), z: F::from_i32_spec(1) },
        ).scale_spec(self.angular_velocity)
    }

    /// Whether `top` is a top as this builder sets it up.
    pub open spec fn is_built(&self, top: SpinningTop<F>) -> bool {
        exists|trig: StartTrig<F>|
            {
                &&& #[trigger] self.trig_rel(trig)
                &&& top.state.y@ == seq![
                    self.spin_spec(trig).x,
                    self.spin_spec(trig).y,
                    self.spin_spec(trig).z,
                    Self::rotation_spec(trig).0[0],
                    Self::rotation_spec(trig).0[1],
                    Self::rotation_spec(trig).0[2],
                    Self::rotation_spec(trig).0[3],
                ]
            }
    }

    /// The top on its corner at time zero, tilted and spinning as set up;
    /// or `None` where the scalar type gives the cube a tensor that cannot
    /// be inverted.
    pub fn build(&self) -> (r: Option<SpinningTop<F>>)
        ensures
            r.is_some() == tensor_spec(
                default_density_spec::<F>(),
                default_side_length_spec::<F>(),
            ).invertible_spec(),
            r.is_some() ==> {
                &&& r.unwrap().wf()
                &&& r.unwrap().state.t == F::from_i32_spec(0)
                &&& r.unwrap().exact_t == F::from_i32_spec(0)
                &&& self.is_built(r.unwrap())
            },
    {
        let quarter_turn = F::pi().div(F::from_i32(2));
        let arc = F::from_i32(1).atan2(F::from_i32(2).sqrt());
        let diagonal_angle = quarter_turn.sub(arc);
        let axis = Vector3 { x: F::from_i32(1).neg(), y: F::from_i32(0), z: F::from_i32(1) }.normalize();
        let half_turn = diagonal_angle.add(to_radians(self.tilt)).div(F::from_i32(2));
        let spin_turn = quarter_turn.sub(diagonal_angle);
        let trig = StartTrig {
            arc,
            sin_half: half_turn.sin(),
            cos_half: half_turn.cos(),
            sin_arc: spin_turn.sin(),
            cos_arc: spin_turn.cos(),
        };
        assert(self.trig_rel(trig));
        let rotation = Quaternion::from_axis_angle_from(&axis, trig.cos_half, trig.sin_half);
        let angular_velocity = Matrix3::from_axis_angle_from(
            &axis,
            trig.sin_arc,
            trig.cos_arc,
        ).mul_vec(&Vector3 { x: F::from_i32(1), y: F::from_i32(0), z: F::from_i32(1) }).scale(
            self.angular_velocity,
        );
        SpinningTop::new(&rotation, &angular_velocity)
    }
}

impl<F: Float> Default for SpinningTopBuilder<F> {
    fn default() -> (r: Self)
        ensures
            r.tilt == F::from_i32_spec(0),
            r.angular_velocity == F::from_i32_spec(0),
    {
        SpinningTopBuilder { tilt: F::from_i32(0), angular_velocity: F::from_i32(0) }
    }
}

} // verus!
