use vstd::prelude::*;

use crate::numerics::linalg::{Matrix3, Vector3};
use crate::numerics::ode::{PlainODE, State};
use crate::numerics::rotations::Quaternion;
use crate::numerics::{ratio, ratio_spec, Float};
use crate::physics::inertia::Inertia;

verus! {

/// The number of unknowns of the spinning top: three of the angular velocity
/// in the body's frame, then the four of the orientation `[w, x, y, z]`.
pub const TOP_DIM: usize = 7;

pub type SpinningTopState<F> = State<F, TOP_DIM>;

/// A cube of uniform density that spins on one of its corners, under gravity.
pub struct SpinningTopODE<F> {
    inertia: Inertia<F>,
    side_length: F,
    density: F,
    pub gravity: Vector3<F>,
    pub enable_gravity: bool,
}

/// `x` to the third power, multiplied from the left.
pub open spec fn cube_spec<F: Float>(x: F) -> F {
    x.mul_spec(x).mul_spec(x)
}

/// `x` to the fifth power, multiplied from the left.
pub open spec fn fifth_power_spec<F: Float>(x: F) -> F {
    x.mul_spec(x).mul_spec(x).mul_spec(x).mul_spec(x)
}

/// The inertia tensor of a cube of unit density and unit side about the
/// corner it stands on, in the frame of its edges.
pub open spec fn shape_factor_spec<F: Float>() -> Matrix3<F> {
    let d = ratio_spec::<F>(2, 3);
    let o = ratio_spec::<F>(1, 4).neg_spec();
    Matrix3([[d, o, o], [o, d, o], [o, o, d]])
}

/// The inertia tensor of the cube: `density * side^5` times the shape factor.
pub open spec fn tensor_spec<F: Float>(density: F, side_length: F) -> Matrix3<F> {
    shape_factor_spec::<F>().scale_spec(density.mul_spec(fifth_power_spec(side_length)))
}

/// The orientation that `y` holds, brought to unit length.
pub open spec fn orientation_spec<F: Float>(y: Seq<F>) -> Quaternion<F> {
    Quaternion([y[3], y[4], y[5], y[6]]).normalize_spec()
}

/// The angular velocity that `y` holds.
pub open spec fn angular_velocity_spec<F: Float>(y: Seq<F>) -> Vector3<F> {
    Vector3 { x: y[0], y: y[1], z: y[2] }
}

/// The unknowns `y` with the orientation brought to unit length.
pub open spec fn renormalized_spec<F: Float>(y: Seq<F>) -> Seq<F> {
    let q = orientation_spec(y);
    seq![y[0], y[1], y[2], q.0[0], q.0[1], q.0[2], q.0[3]]
}

pub fn tensor<F: Float>(density: F, side_length: F) -> (r: Matrix3<F>)
    ensures
        r == tensor_spec(density, side_length),
{
    let d: F = ratio(2, 3);
    let o: F = ratio::<F>(1, 4).neg();
    let s = side_length;
    Matrix3([[d, o, o], [o, d, o], [o, o, d]]).scale(density.mul(s.mul(s).mul(s).mul(s).mul(s)))
}

impl<F: Float> SpinningTopODE<F> {
    pub closed spec fn inertia_spec(&self) -> Inertia<F> {
        self.inertia
    }

    pub closed spec fn side_length_spec(&self) -> F {
        self.side_length
    }

    pub closed spec fn density_spec(&self) -> F {
        self.density
    }

    /// The gravity held, whether it acts or not.
    pub closed spec fn held_gravity_spec(&self) -> Vector3<F> {
        self.gravity
    }

    /// Whether gravity acts.
    pub closed spec fn gravity_enabled_spec(&self) -> bool {
        self.enable_gravity
    }

    /// The inertia held is the one of a cube with the density and side held.
    pub open spec fn wf(&self) -> bool {
        let tensor = tensor_spec(self.density_spec(), self.side_length_spec());
        &&& self.inertia_spec().matrix_spec() == tensor
        &&& self.inertia_spec().inverse_matrix_spec() == tensor.inverse_spec()
    }

    /// A cube of the given density and side under a gravity of 100 downwards.
    /// The two must give a tensor that can be inverted, which a side or a
    /// density of zero does not: test `tensor(density, side_length).invertible()`.
    pub fn new(density: F, side_length: F) -> (r: Self)
        requires
            tensor_spec(density, side_length).invertible_spec(),
        ensures
            r.wf(),
            r.density_spec() == density,
            r.side_length_spec() == side_length,
            r.gravity_enabled_spec(),
            r.held_gravity_spec() == (Vector3 {
                x: F::from_i32_spec(0),
                y: F::from_i32_spec(100).neg_spec(),
                z: F::from_i32_spec(0),
            }),
    {
        Self {
            inertia: Inertia::new(tensor(density, side_length)),
            gravity: Vector3::new(F::from_i32(0), F::from_i32(100).neg(), F::from_i32(0)),
            enable_gravity: true,
            density,
            side_length,
        }
    }

    /// A cube of the given density and side, or `None` where the two give a
    /// tensor that cannot be inverted.
    pub fn try_new(density: F, side_length: F) -> (r: Option<Self>)
        ensures
            r.is_some() == tensor_spec(density, side_length).invertible_spec(),
            r.is_some() ==> {
                &&& r.unwrap().wf()
                &&& r.unwrap().density_spec() == density
                &&& r.unwrap().side_length_spec() == side_length
                &&& r.unwrap().gravity_enabled_spec()
                &&& r.unwrap().held_gravity_spec() == (Vector3 {
                    x: F::from_i32_spec(0),
                    y: F::from_i32_spec(100).neg_spec(),
                    z: F::from_i32_spec(0),
                })
            },
    {
        if tensor(density, side_length).invertible() {
            Some(Self::new(density, side_length))
        } else {
            None
        }
    }

    /// The gravity that acts: the one held, or none where gravity is switched off.
    pub open spec fn gravity_spec(&self) -> Vector3<F> {
        if self.gravity_enabled_spec() {
            self.held_gravity_spec()
        } else {
            Vector3::zeros_spec()
        }
    }

    pub fn gravity(&self) -> (r: Vector3<F>)
        ensures
            r == self.gravity_spec(),
    {
        if self.enable_gravity {
            self.gravity
        } else {
            Vector3::zeros()
        }
    }

    /// The mass `density * side^3`.
    pub open spec fn mass_spec(&self) -> F {
        self.density_spec().mul_spec(cube_spec(self.side_length_spec()))
    }

    pub fn mass(&self) -> (r: F)
        ensures
            r == self.mass_spec(),
    {
        let s = self.side_length;
        self.density.mul(s.mul(s).mul(s))
    }

    /// The weight: the acting gravity times the mass.
    pub open spec fn weight_spec(&self) -> Vector3<F> {
        self.gravity_spec().scale_spec(self.mass_spec())
    }

    pub fn weight(&self) -> (r: Vector3<F>)
        ensures
            r == self.weight_spec(),
    {
        self.gravity().scale(self.mass())
    }

    /// The torque of the weight about the corner the cube stands on, in the
    /// body's frame: the centre of mass `side / 2 * (1, 1, 1)` is turned into
    /// the world, crossed with the weight, and the product turned back.
    pub open spec fn torque_spec(&self, rotation: Quaternion<F>) -> Vector3<F> {
        let one = F::from_i32_spec(1);
        let centre = (Vector3 { x: one, y: one, z: one }).scale_spec(
            ratio_spec::<F>(1, 2).mul_spec(self.side_length_spec()),
        );
        rotation.conjugate_spec().rotate_vector_spec(
            rotation.rotate_vector_spec(centre).cross_spec(self.weight_spec()),
        )
    }

    /// The torque at the orientation `rotation`, a quaternion of unit length.
    pub fn torque(&self, rotation: &Quaternion<F>) -> (r: Vector3<F>)
        ensures
            r == self.torque_spec(*rotation),
    {
        let one = F::from_i32(1);
        let centre = Vector3 { x: one, y: one, z: one }.scale(
            ratio::<F>(1, 2).mul(self.side_length()),
        );
        rotation.conjugate().rotate_vector(&rotation.rotate_vector(&centre).cross(&self.weight()))
    }

    /// Sets the gravity that acts while gravity is switched on.
    pub fn set_gravity(&mut self, gravity: Vector3<F>)
        ensures
            final(self).held_gravity_spec() == gravity,
            final(self).gravity_enabled_spec() == old(self).gravity_enabled_spec(),
            final(self).inertia_spec() == old(self).inertia_spec(),
            final(self).density_spec() == old(self).density_spec(),
            final(self).side_length_spec() == old(self).side_length_spec(),
    {
        self.gravity = gravity;
    }

    /// Switches gravity on or off.
    pub fn set_enable_gravity(&mut self, enable: bool)
        ensures
            final(self).gravity_enabled_spec() == enable,
            final(self).held_gravity_spec() == old(self).held_gravity_spec(),
            final(self).inertia_spec() == old(self).inertia_spec(),
            final(self).density_spec() == old(self).density_spec(),
            final(self).side_length_spec() == old(self).side_length_spec(),
    {
        self.enable_gravity = enable;
    }

    pub fn side_length(&self) -> (r: F)
        ensures
            r == self.side_length_spec(),
    {
        self.side_length
    }

    /// Sets the side and computes the inertia anew. The new side must give a
    /// tensor that can be inverted.
    pub fn set_side_length(&mut self, side_length: F)
        requires
            tensor_spec(old(self).density_spec(), side_length).invertible_spec(),
        ensures
            final(self).wf(),
            final(self).side_length_spec() == side_length,
            final(self).density_spec() == old(self).density_spec(),
            final(self).held_gravity_spec() == old(self).held_gravity_spec(),
            final(self).gravity_enabled_spec() == old(self).gravity_enabled_spec(),
    {
        self.side_length = side_length;
        self.inertia = Inertia::new(tensor(self.density, self.side_length));
    }

    pub fn density(&self) -> (r: F)
        ensures
            r == self.density_spec(),
    {
        self.density
    }

    /// Sets the density and computes the inertia anew. The new density must
    /// give a tensor that can be inverted.
    pub fn set_density(&mut self, density: F)
        requires
            tensor_spec(density, old(self).side_length_spec()).invertible_spec(),
        ensures
            final(self).wf(),
            final(self).density_spec() == density,
            final(self).side_length_spec() == old(self).side_length_spec(),
            final(self).held_gravity_spec() == old(self).held_gravity_spec(),
            final(self).gravity_enabled_spec() == old(self).gravity_enabled_spec(),
    {
        self.density = density;
        self.inertia = Inertia::new(tensor(self.density, self.side_length));
    }

    /// The rate of the angular velocity by Euler's equation:
    /// `I^-1 (torque + (I w) x w)`.
    pub open spec fn angular_acceleration_spec(&self, y: Seq<F>) -> Vector3<F> {
        let w = angular_velocity_spec(y);
        self.inertia_spec().inverse_matrix_spec().mul_vec_spec(
            self.torque_spec(orientation_spec(y)).add_spec(
                self.inertia_spec().matrix_spec().mul_vec_spec(w).cross_spec(w),
            ),
        )
    }

    /// The rate of the orientation: half the product of the unit orientation
    /// with the angular velocity as a quaternion without real part.
    pub open spec fn orientation_rate_spec(y: Seq<F>) -> Quaternion<F> {
        let w = angular_velocity_spec(y);
        let q = orientation_spec(y).mul_spec(Quaternion([F::from_i32_spec(0), w.x, w.y, w.z]));
        let half = ratio_spec::<F>(1, 2);
        Quaternion(
            [
                q.0[0].mul_spec(half),
                q.0[1].mul_spec(half),
                q.0[2].mul_spec(half),
                q.0[3].mul_spec(half),
            ],
        )
    }

    /// The state with its orientation brought back to unit length, as it has
    /// to be after every step of a solver: the steps let its length drift.
    pub fn renormalize(state: SpinningTopState<F>) -> (r: SpinningTopState<F>)
        requires
            state.wf(),
        ensures
            r.wf(),
            r.t == state.t,
            r.y@ == renormalized_spec(state.y@),
    {
        let q = Quaternion([state.y[3], state.y[4], state.y[5], state.y[6]]).normalize();
        let mut y: Vec<F> = Vec::with_capacity(TOP_DIM);
        y.push(state.y[0]);
        y.push(state.y[1]);
        y.push(state.y[2]);
        y.push(q.0[0]);
        y.push(q.0[1]);
        y.push(q.0[2]);
        y.push(q.0[3]);
        assert(y@ =~= renormalized_spec(state.y@));
        State { t: state.t, y }
    }

    /// The state at time zero with the given orientation and angular velocity.
    pub fn initial_state(rotation: &Quaternion<F>, angular_velocity: &Vector3<F>) -> (r:
        SpinningTopState<F>)
        ensures
            r.wf(),
            r.t == F::from_i32_spec(0),
            r.y@ == seq![
                angular_velocity.x,
                angular_velocity.y,
                angular_velocity.z,
                rotation.0[0],
                rotation.0[1],
                rotation.0[2],
                rotation.0[3],
            ],
    {
        let mut y: Vec<F> = Vec::with_capacity(TOP_DIM);
        y.push(angular_velocity.x);
        y.push(angular_velocity.y);
        y.push(angular_velocity.z);
        y.push(rotation.0[0]);
        y.push(rotation.0[1]);
        y.push(rotation.0[2]);
        y.push(rotation.0[3]);
        State { t: F::from_i32(0), y }
    }
}

impl<F: Float> PlainODE<F, TOP_DIM> for SpinningTopODE<F> {
    /// The rates of the seven unknowns. They do not depend on the time. The
    /// orientation is read through its normalization; the state is left as it is.
    open spec fn derivative_spec(&self, t: F, y: Seq<F>) -> Seq<F> {
        let a = self.angular_acceleration_spec(y);
        let q = Self::orientation_rate_spec(y);
        seq![a.x, a.y, a.z, q.0[0], q.0[1], q.0[2], q.0[3]]
    }

    fn derivative(&self, state: &State<F, TOP_DIM>) -> (r: Vec<F>) {
        let angular_velocity = Vector3 { x: state.y[0], y: state.y[1], z: state.y[2] };
        let rotation = Quaternion([state.y[3], state.y[4], state.y[5], state.y[6]]).normalize();

        let angular_velocity_derivative = self.inertia.inverse_matrix().mul_vec(
            &self.torque(&rotation).add(
                &self.inertia.matrix().mul_vec(&angular_velocity).cross(&angular_velocity),
            ),
        );
        let angular_velocity_quaternion = Quaternion(
            [F::from_i32(0), angular_velocity.x, angular_velocity.y, angular_velocity.z],
        );

        let product = rotation.mul(&angular_velocity_quaternion);
        let half: F = ratio(1, 2);

        let mut r: Vec<F> = Vec::with_capacity(TOP_DIM);
        r.push(angular_velocity_derivative.x);
        r.push(angular_velocity_derivative.y);
        r.push(angular_velocity_derivative.z);
        r.push(product.0[0].mul(half));
        r.push(product.0[1].mul(half));
        r.push(product.0[2].mul(half));
        r.push(product.0[3].mul(half));
        assert(r@ =~= self.derivative_spec(state.t, state.y@));
        r
    }
}

} // verus!
