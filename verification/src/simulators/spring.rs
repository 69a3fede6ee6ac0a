use vstd::prelude::*;

use crate::numerics::ode::ODE;
use crate::numerics::Float;
use crate::presenters::parametrizable_function::FloatFn;

verus! {

/// Everything that is shown of a mass on a spring at one time.
#[derive(Clone, Debug)]
pub struct SpringState<F> {
    pub t: F,
    pub position: F,
    pub velocity: F,
    pub acceleration: F,
    pub spring_force: F,
    pub damping_force: F,
    pub outer_force: F,
    pub total_force: F,
    pub equilibrium: F,
}

impl<F: Float> SpringState<F> {
    /// The quantities with their names, in the order of the fields.
    pub fn iter(&self) -> (r: Vec<(&'static str, F)>)
        ensures
            r@.len() == 9,
            r@[0].1 == self.t,
            r@[1].1 == self.position,
            r@[2].1 == self.velocity,
            r@[3].1 == self.acceleration,
            r@[4].1 == self.spring_force,
            r@[5].1 == self.damping_force,
            r@[6].1 == self.outer_force,
            r@[7].1 == self.total_force,
            r@[8].1 == self.equilibrium,
            r@[0].0@ == "t"@,
            r@[1].0@ == "position"@,
            r@[2].0@ == "velocity"@,
            r@[3].0@ == "acceleration"@,
            r@[4].0@ == "spring_force"@,
            r@[5].0@ == "damping_force"@,
            r@[6].0@ == "outer_force"@,
            r@[7].0@ == "total_force"@,
            r@[8].0@ == "equilibrium"@,
    {
        let mut r: Vec<(&'static str, F)> = Vec::with_capacity(9);
        r.push(("t", self.t));
        r.push(("position", self.position));
        r.push(("velocity", self.velocity));
        r.push(("acceleration", self.acceleration));
        r.push(("spring_force", self.spring_force));
        r.push(("damping_force", self.damping_force));
        r.push(("outer_force", self.outer_force));
        r.push(("total_force", self.total_force));
        r.push(("equilibrium", self.equilibrium));
        r
    }
}

/// A mass on a damped spring whose other end moves with time, under a force
/// from outside.
pub struct SpringODE<F> {
    pub t: F,
    pub mass: F,
    pub equilibrium: FloatFn<F>,
    pub position: F,
    pub velocity: F,
    pub spring_constant: F,
    pub damping_factor: F,
    pub outer_force: FloatFn<F>,
}

impl<F: Float> SpringODE<F> {
    /// The mass at time zero.
    pub fn new(
        mass: F,
        equilibrium: FloatFn<F>,
        position: F,
        velocity: F,
        spring_constant: F,
        damping_factor: F,
        outer_force: FloatFn<F>,
    ) -> (r: Self)
        ensures
            r == (SpringODE {
                t: F::from_i32_spec(0),
                mass,
                equilibrium,
                position,
                velocity,
                spring_constant,
                damping_factor,
                outer_force,
            }),
    {
        Self {
            t: F::from_i32(0),
            mass,
            equilibrium,
            position,
            velocity,
            spring_constant,
            damping_factor,
            outer_force,
        }
    }

    /// Whether `equilibrium` and `outer_force` are values that the two
    /// driving functions may come out as at the time held.
    pub open spec fn driven_rel(&self, equilibrium: F, outer_force: F) -> bool {
        self.equilibrium.call_rel(self.t, equilibrium) && self.outer_force.call_rel(
            self.t,
            outer_force,
        )
    }

    /// The force against the velocity.
    pub open spec fn damping_force_spec(&self) -> F {
        self.damping_factor.neg_spec().mul_spec(self.velocity)
    }

    /// The force of the spring while its other end is at `equilibrium`.
    pub open spec fn spring_force_spec(&self, equilibrium: F) -> F {
        self.spring_constant.mul_spec(equilibrium.sub_spec(self.position))
    }

    /// The sum of the three forces.
    pub open spec fn total_force_spec(&self, equilibrium: F, outer_force: F) -> F {
        self.spring_force_spec(equilibrium).add_spec(self.damping_force_spec()).add_spec(
            outer_force,
        )
    }

    pub open spec fn acceleration_spec(&self, equilibrium: F, outer_force: F) -> F {
        self.total_force_spec(equilibrium, outer_force).div_spec(self.mass)
    }

    /// Everything that is shown, for the values `equilibrium` and
    /// `outer_force` of the two driving functions.
    pub open spec fn state_spec(&self, equilibrium: F, outer_force: F) -> SpringState<F> {
        SpringState {
            t: self.t,
            position: self.position,
            velocity: self.velocity,
            acceleration: self.acceleration_spec(equilibrium, outer_force),
            spring_force: self.spring_force_spec(equilibrium),
            damping_force: self.damping_force_spec(),
            outer_force,
            total_force: self.total_force_spec(equilibrium, outer_force),
            equilibrium,
        }
    }

    /// Everything that is shown at the time held. The driving functions are
    /// asked once each.
    pub fn state(&self) -> (r: SpringState<F>)
        ensures
            exists|e: F, o: F| #[trigger] self.driven_rel(e, o) && r == self.state_spec(e, o),
    {
        let e = self.equilibrium();
        let o = self.outer_force();
        assert(self.driven_rel(e, o));
        let spring_force = self.spring_constant.mul(e.sub(self.position));
        let total_force = spring_force.add(self.damping_force()).add(o);
        SpringState {
            t: self.t,
            position: self.position(),
            velocity: self.velocity(),
            acceleration: total_force.div(self.mass),
            spring_force,
            damping_force: self.damping_force(),
            outer_force: o,
            total_force,
            equilibrium: e,
        }
    }

    pub fn total_force(&self) -> (r: F)
        ensures
            exists|e: F, o: F| #[trigger] self.driven_rel(e, o) && r == self.total_force_spec(e, o),
    {
        let e = self.equilibrium();
        let spring_force = self.spring_constant.mul(e.sub(self.position));
        let o = self.outer_force();
        assert(self.driven_rel(e, o));
        spring_force.add(self.damping_force()).add(o)
    }

    pub fn outer_force(&self) -> (r: F)
        ensures
            self.outer_force.call_rel(self.t, r),
    {
        self.outer_force.call(self.t)
    }

    pub fn damping_force(&self) -> (r: F)
        ensures
            r == self.damping_force_spec(),
    {
        self.damping_factor.neg().mul(self.velocity)
    }

    pub fn spring_force(&self) -> (r: F)
        ensures
            exists|e: F| #[trigger]
                self.equilibrium.call_rel(self.t, e) && r == self.spring_force_spec(e),
    {
        let e = self.equilibrium();
        self.spring_constant.mul(e.sub(self.position))
    }

    pub fn equilibrium(&self) -> (r: F)
        ensures
            self.equilibrium.call_rel(self.t, r),
    {
        self.equilibrium.call(self.t)
    }

    pub fn position(&self) -> (r: F)
        ensures
            r == self.position,
    {
        self.position
    }

    pub fn velocity(&self) -> (r: F)
        ensures
            r == self.velocity,
    {
        self.velocity
    }

    pub fn acceleration(&self) -> (r: F)
        ensures
            exists|e: F, o: F| #[trigger]
                self.driven_rel(e, o) && r == self.acceleration_spec(e, o),
    {
        let e = self.equilibrium();
        let spring_force = self.spring_constant.mul(e.sub(self.position));
        let o = self.outer_force();
        assert(self.driven_rel(e, o));
        spring_force.add(self.damping_force()).add(o).div(self.mass)
    }
}

/// A mass on a spring apart from where it is and when.
pub struct SpringEquation<F> {
    pub mass: F,
    pub equilibrium: FloatFn<F>,
    pub spring_constant: F,
    pub damping_factor: F,
    pub outer_force: FloatFn<F>,
}

impl<F: Float> ODE<F, 2> for SpringODE<F> {
    type Equation = SpringEquation<F>;

    open spec fn equation_spec(&self) -> SpringEquation<F> {
        SpringEquation {
            mass: self.mass,
            equilibrium: self.equilibrium,
            spring_constant: self.spring_constant,
            damping_factor: self.damping_factor,
            outer_force: self.outer_force,
        }
    }

    open spec fn t_spec(&self) -> F {
        self.t
    }

    /// The position, then the velocity.
    open spec fn y_spec(&self) -> Seq<F> {
        seq![self.position, self.velocity]
    }

    /// The velocity, then the acceleration.
    open spec fn derivative_rel(&self, d: Seq<F>) -> bool {
        exists|e: F, o: F| #[trigger]
            self.driven_rel(e, o) && d == seq![self.velocity, self.acceleration_spec(e, o)]
    }

    fn derivative(&self) -> (r: Vec<F>) {
        let e = self.equilibrium();
        let spring_force = self.spring_constant.mul(e.sub(self.position));
        let o = self.outer_force();
        assert(self.driven_rel(e, o));
        let acceleration = spring_force.add(self.damping_force()).add(o).div(self.mass);
        let mut r: Vec<F> = Vec::with_capacity(2);
        r.push(self.velocity);
        r.push(acceleration);
        assert(r@ =~= seq![self.velocity, self.acceleration_spec(e, o)]);
        r
    }

    fn t(&self) -> (r: F) {
        self.t
    }

    fn y(&self) -> (r: Vec<F>) {
        let mut r: Vec<F> = Vec::with_capacity(2);
        r.push(self.position);
        r.push(self.velocity);
        assert(r@ =~= seq![self.position, self.velocity]);
        r
    }

    fn set_t(&mut self, t: F) {
        self.t = t;
    }

    fn set_y(&mut self, y: Vec<F>) {
        self.position = y[0];
        self.velocity = y[1];
        assert(self.y_spec() =~= y@);
    }
}

} // verus!
