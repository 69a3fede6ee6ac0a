use vstd::prelude::*;

use crate::numerics::bezier::{rest_point_spec, Cube};
use crate::numerics::linalg::{Matrix4, Vector3};
use crate::numerics::ode::{PlainODE, State};
use crate::numerics::rotations::Quaternion;
use crate::numerics::{ratio, ratio_spec, Float};

verus! {

/// The lattice has four points along each of its three axes.
pub const POINT_COUNT: usize = 64;

/// The number of coordinates of the positions, and of the velocities.
pub const SPACE_DIM: usize = 192;

/// The number of unknowns: the positions, then the velocities.
pub const ODE_DIM: usize = 384;

/// How many walls a point may bounce off while one state is corrected.
pub const MAX_COLLISIONS: usize = 100;

pub type JellyState<F> = State<F, ODE_DIM>;

/// Half the side of the room that holds the body: its walls stand at this
/// distance from the origin along every axis.
pub open spec fn room_half_size_spec<F: Float>() -> F {
    F::from_i32_spec(5)
}

pub fn room_half_size<F: Float>() -> (r: F)
    ensures
        r == room_half_size_spec::<F>(),
{
    F::from_i32(5)
}

/// The place and the turn of the frame that the eight corners are tied to.
pub struct ControlFrameTransform<F> {
    pub translation: Vector3<F>,
    pub rotation: Quaternion<F>,
}

impl<F: Float> ControlFrameTransform<F> {
    pub fn new() -> (r: Self)
        ensures
            r.translation == Vector3::<F>::zeros_spec(),
            r.rotation == Quaternion::<F>::identity_spec(),
    {
        Self { translation: Vector3::zeros(), rotation: Quaternion::identity() }
    }

    /// The transform of the frame: the turn of the normalized rotation, then
    /// the translation.
    pub open spec fn compose_spec(&self) -> Matrix4<F> {
        Matrix4::translation_spec(self.translation).mul_spec(
            Matrix4::from_linear_spec(self.rotation.normalize_spec().to_rotation_matrix_spec()),
        )
    }

    pub fn compose(&self) -> (r: Matrix4<F>)
        ensures
            r == self.compose_spec(),
    {
        Matrix4::translation(&self.translation).mul(
            &Matrix4::from_linear(&self.rotation.normalize().to_rotation_matrix()),
        )
    }
}

/// The number of the lattice point `(u, v, w)`, each coordinate in `0..4`.
pub open spec fn point_index_spec(u: int, v: int, w: int) -> int {
    w + v * 4 + u * 16
}

pub fn point_index(u: usize, v: usize, w: usize) -> (r: usize)
    requires
        u < 4,
        v < 4,
        w < 4,
    ensures
        r == point_index_spec(u as int, v as int, w as int),
        r < POINT_COUNT,
{
    w + v * 4 + u * 16
}

/// The three entries of `y` from `at` on, as a vector.
pub open spec fn vector_at_spec<F: Float>(y: Seq<F>, at: int) -> Vector3<F> {
    Vector3 { x: y[at], y: y[at + 1], z: y[at + 2] }
}

/// The position of point `p` in the unknowns `y`.
pub open spec fn position_spec<F: Float>(y: Seq<F>, p: int) -> Vector3<F> {
    vector_at_spec(y, 3 * p)
}

/// The velocity of point `p` in the unknowns `y`.
pub open spec fn velocity_spec<F: Float>(y: Seq<F>, p: int) -> Vector3<F> {
    vector_at_spec(y, 3 * p + SPACE_DIM as int)
}

/// Entry `c` of a vector: 0 for x, 1 for y, anything else for z.
pub open spec fn component_spec<F: Float>(v: Vector3<F>, c: int) -> F {
    if c == 0 {
        v.x
    } else if c == 1 {
        v.y
    } else {
        v.z
    }
}

fn vector_at<F: Float>(y: &Vec<F>, at: usize) -> (r: Vector3<F>)
    requires
        at + 2 < y.len(),
    ensures
        r == vector_at_spec(y@, at as int),
{
    Vector3 { x: y[at], y: y[at + 1], z: y[at + 2] }
}

/// The force on a point at `p_1` from a spring to `p_0` with the rest length
/// `length` and the constant `spring_constant`: along the line between the
/// two, in proportion to the stretch; none where the two coincide.
pub open spec fn spring_force_spec<F: Float>(
    p_0: Vector3<F>,
    p_1: Vector3<F>,
    length: F,
    spring_constant: F,
) -> Vector3<F> {
    let diff = p_0.sub_spec(p_1);
    let dist = diff.norm_spec();
    if dist.eq_spec(F::from_i32_spec(0)) {
        Vector3::zeros_spec()
    } else {
        diff.unscale_spec(dist).scale_spec(spring_constant).scale_spec(dist.sub_spec(length))
    }
}

pub fn spring_force<F: Float>(
    p_0: &Vector3<F>,
    p_1: &Vector3<F>,
    length: F,
    spring_constant: F,
) -> (r: Vector3<F>)
    ensures
        r == spring_force_spec(*p_0, *p_1, length, spring_constant),
{
    let diff = p_0.sub(p_1);
    let dist = diff.norm();

    if dist.eq(F::from_i32(0)) {
        Vector3::zeros()
    } else {
        diff.unscale(dist).scale(spring_constant).scale(dist.sub(length))
    }
}

/// The coordinate of the frame's cube for the lattice coordinate `i` of a
/// corner: `-1` at 0 and `1` at 3.
pub open spec fn corner_coord_spec<F: Float>(i: int) -> F {
    if i == 0 {
        F::from_i32_spec(1).neg_spec()
    } else {
        F::from_i32_spec(1)
    }
}

fn corner_coord<F: Float>(i: usize) -> (r: F)
    ensures
        r == corner_coord_spec::<F>(i as int),
{
    if i == 0 {
        F::from_i32(1).neg()
    } else {
        F::from_i32(1)
    }
}

/// Whether `(u, v, w)` is one of the eight corners of the lattice.
pub open spec fn is_corner_spec(u: int, v: int, w: int) -> bool {
    (u == 0 || u == 3) && (v == 0 || v == 3) && (w == 0 || w == 3)
}

/// The vertex of the frame's cube that the corner `(u, v, w)` is tied to.
pub open spec fn corner_point_spec<F: Float>(transform: Matrix4<F>, u: int, v: int, w: int)
    -> Vector3<F> {
    transform.transform_point_spec(
        Vector3 {
            x: corner_coord_spec::<F>(u),
            y: corner_coord_spec::<F>(v),
            z: corner_coord_spec::<F>(w),
        },
    )
}

/// One of the 27 steps to a lattice point at most one away along each axis:
/// step `k` moves by `k / 9 - 1`, `k / 3 % 3 - 1` and `k % 3 - 1`.
pub open spec fn offset_spec(k: int) -> (int, int, int) {
    (k / 9 - 1, (k / 3) % 3 - 1, k % 3 - 1)
}

/// Along how many axes the step `d` moves.
pub open spec fn axes_moved_spec(d: (int, int, int)) -> int {
    (if d.0 != 0 {
        1int
    } else {
        0int
    }) + (if d.1 != 0 {
        1int
    } else {
        0int
    }) + (if d.2 != 0 {
        1int
    } else {
        0int
    })
}

/// Whether a spring joins `(u, v, w)` to the point the step `d` away: the
/// point lies in the lattice, next along one axis or across the diagonal of
/// a face. No spring crosses the diagonal of a cell.
pub open spec fn joined_spec(u: int, v: int, w: int, d: (int, int, int)) -> bool {
    &&& 0 <= u + d.0 < 4
    &&& 0 <= v + d.1 < 4
    &&& 0 <= w + d.2 < 4
    &&& 1 <= axes_moved_spec(d) <= 2
}

/// The rest length of the spring along the step `d`: two thirds for a step
/// along one axis, two thirds of the root of two across a face.
pub open spec fn rest_length_spec<F: Float>(d: (int, int, int)) -> F {
    ratio_spec::<F>(2, 3).mul_spec(
        if axes_moved_spec(d) == 2 {
            F::from_i32_spec(2).sqrt_spec()
        } else {
            F::from_i32_spec(1)
        },
    )
}

/// A lattice of 64 point masses. Springs tie its eight corners to the
/// vertices of a control frame and each point to its neighbours; every point
/// is slowed in proportion to its velocity.
pub struct JellyODE<F> {
    point_mass_inverse: F,
    point_mass: F,
    pub corner_spring_constant: F,
    pub inner_spring_constant: F,
    pub damping_factor: F,
    pub elasticity_coefficient: F,
    control_frame: ControlFrameTransform<F>,
}

impl<F: Float> JellyODE<F> {
    pub closed spec fn point_mass_spec(&self) -> F {
        self.point_mass
    }

    /// The factor that turns a force into an acceleration.
    pub closed spec fn point_mass_inverse_spec(&self) -> F {
        self.point_mass_inverse
    }

    pub closed spec fn corner_spring_constant_spec(&self) -> F {
        self.corner_spring_constant
    }

    pub closed spec fn inner_spring_constant_spec(&self) -> F {
        self.inner_spring_constant
    }

    pub closed spec fn damping_factor_spec(&self) -> F {
        self.damping_factor
    }

    /// The part of its velocity that a point keeps when it hits a wall.
    pub closed spec fn elasticity_coefficient_spec(&self) -> F {
        self.elasticity_coefficient
    }

    pub closed spec fn control_frame_spec(&self) -> ControlFrameTransform<F> {
        self.control_frame
    }

    /// Whether `other` has the point mass of `self`.
    pub open spec fn same_mass(&self, other: &Self) -> bool {
        &&& self.point_mass_spec() == other.point_mass_spec()
        &&& self.point_mass_inverse_spec() == other.point_mass_inverse_spec()
    }

    /// A body of unit point masses tied to `control_frame`, with a corner
    /// spring constant of 10, an inner spring constant of 3, a damping
    /// factor of 1 and an elasticity of one tenth.
    pub fn new(control_frame: ControlFrameTransform<F>) -> (r: Self)
        ensures
            r.point_mass_spec() == F::from_i32_spec(1),
            r.point_mass_inverse_spec() == F::from_i32_spec(1),
            r.corner_spring_constant_spec() == F::from_i32_spec(10),
            r.inner_spring_constant_spec() == F::from_i32_spec(3),
            r.elasticity_coefficient_spec() == ratio_spec::<F>(1, 10),
            r.damping_factor_spec() == F::from_i32_spec(1),
            r.control_frame_spec() == control_frame,
    {
        Self {
            point_mass: F::from_i32(1),
            point_mass_inverse: F::from_i32(1),
            corner_spring_constant: F::from_i32(10),
            inner_spring_constant: F::from_i32(3),
            elasticity_coefficient: ratio(1, 10),
            damping_factor: F::from_i32(1),
            control_frame,
        }
    }

    /// Sets the mass of every point, and with it the factor `1 / mass`.
    pub fn set_point_mass(&mut self, mass: F)
        ensures
            final(self).point_mass_spec() == mass,
            final(self).point_mass_inverse_spec() == F::from_i32_spec(1).div_spec(mass),
            final(self).same_springs(old(self)),
            final(self).control_frame_spec() == old(self).control_frame_spec(),
    {
        self.point_mass = mass;
        self.point_mass_inverse = F::from_i32(1).div(mass);
    }

    pub fn point_mass(&self) -> (r: F)
        ensures
            r == self.point_mass_spec(),
    {
        self.point_mass
    }

    /// Whether `other` has the four constants of `self`.
    pub open spec fn same_springs(&self, other: &Self) -> bool {
        &&& self.corner_spring_constant_spec() == other.corner_spring_constant_spec()
        &&& self.inner_spring_constant_spec() == other.inner_spring_constant_spec()
        &&& self.damping_factor_spec() == other.damping_factor_spec()
        &&& self.elasticity_coefficient_spec() == other.elasticity_coefficient_spec()
    }

    /// Moves the control frame. A solver reads the frame once for every
    /// evaluation of the right-hand side, so that a frame set between two
    /// steps holds for all the stages of the next step.
    pub fn set_control_frame(&mut self, control_frame: ControlFrameTransform<F>)
        ensures
            final(self).control_frame_spec() == control_frame,
            final(self).same_mass(old(self)),
            final(self).same_springs(old(self)),
    {
        self.control_frame = control_frame;
    }

    pub fn control_frame(&self) -> (r: &ControlFrameTransform<F>)
        ensures
            *r == self.control_frame_spec(),
    {
        &self.control_frame
    }

    pub fn set_corner_spring_constant(&mut self, value: F)
        ensures
            final(self).corner_spring_constant_spec() == value,
            final(self).inner_spring_constant_spec() == old(self).inner_spring_constant_spec(),
            final(self).damping_factor_spec() == old(self).damping_factor_spec(),
            final(self).elasticity_coefficient_spec() == old(self).elasticity_coefficient_spec(),
            final(self).same_mass(old(self)),
            final(self).control_frame_spec() == old(self).control_frame_spec(),
    {
        self.corner_spring_constant = value;
    }

    pub fn set_inner_spring_constant(&mut self, value: F)
        ensures
            final(self).inner_spring_constant_spec() == value,
            final(self).corner_spring_constant_spec() == old(self).corner_spring_constant_spec(),
            final(self).damping_factor_spec() == old(self).damping_factor_spec(),
            final(self).elasticity_coefficient_spec() == old(self).elasticity_coefficient_spec(),
            final(self).same_mass(old(self)),
            final(self).control_frame_spec() == old(self).control_frame_spec(),
    {
        self.inner_spring_constant = value;
    }

    pub fn set_damping_factor(&mut self, value: F)
        ensures
            final(self).damping_factor_spec() == value,
            final(self).corner_spring_constant_spec() == old(self).corner_spring_constant_spec(),
            final(self).inner_spring_constant_spec() == old(self).inner_spring_constant_spec(),
            final(self).elasticity_coefficient_spec() == old(self).elasticity_coefficient_spec(),
            final(self).same_mass(old(self)),
            final(self).control_frame_spec() == old(self).control_frame_spec(),
    {
        self.damping_factor = value;
    }

    pub fn set_elasticity_coefficient(&mut self, value: F)
        ensures
            final(self).elasticity_coefficient_spec() == value,
            final(self).corner_spring_constant_spec() == old(self).corner_spring_constant_spec(),
            final(self).inner_spring_constant_spec() == old(self).inner_spring_constant_spec(),
            final(self).damping_factor_spec() == old(self).damping_factor_spec(),
            final(self).same_mass(old(self)),
            final(self).control_frame_spec() == old(self).control_frame_spec(),
    {
        self.elasticity_coefficient = value;
    }

    /// Entry `i` of the unknowns at rest: the coordinates of the cube of
    /// control points at rest, point by point, then a zero for every velocity.
    pub open spec fn default_entry_spec(i: int) -> F {
        if i < SPACE_DIM {
            let p = i / 3;
            component_spec(rest_point_spec::<F>(p / 16, (p / 4) % 4, p % 4), i % 3)
        } else {
            F::from_i32_spec(0)
        }
    }

    /// The state at time zero in which the body is a cube at rest.
    pub fn default_state() -> (r: JellyState<F>)
        ensures
            r.wf(),
            r.t == F::from_i32_spec(0),
            forall|i: int| 0 <= i < ODE_DIM ==> r.y@[i] == Self::default_entry_spec(i),
    {
        let cube = Cube::<F>::new();
        let mut y = cube.as_flat();
        assert forall|i: int| 0 <= i < SPACE_DIM implies y@[i] == Self::default_entry_spec(i) by {
            assert(y@[i] == cube.flat_entry_spec(i));
            assert(i / 3 / 4 / 4 == i / 3 / 16);
        }
        let mut i: usize = SPACE_DIM;
        while i < ODE_DIM
            invariant
                SPACE_DIM <= i <= ODE_DIM,
                y@.len() == i,
                forall|j: int| 0 <= j < i ==> y@[j] == Self::default_entry_spec(j),
            decreases ODE_DIM - i,
        {
            y.push(F::from_i32(0));
            i += 1;
        }
        State { t: F::from_i32(0), y }
    }
}

/// The step opposite to step `k` is step `26 - k`.
pub proof fn lemma_opposite_offset(k: int)
    requires
        0 <= k < 27,
    ensures
        offset_spec(26 - k) == (-offset_spec(k).0, -offset_spec(k).1, -offset_spec(k).2),
        axes_moved_spec(offset_spec(26 - k)) == axes_moved_spec(offset_spec(k)),
{
}

/// Springs are mutual: where a spring joins a point to the point one step
/// away, a spring of the same rest length joins that point to the first, by
/// the opposite step.
pub proof fn lemma_springs_are_mutual<F: Float>(u: int, v: int, w: int, k: int)
    requires
        0 <= u < 4,
        0 <= v < 4,
        0 <= w < 4,
        0 <= k < 27,
        joined_spec(u, v, w, offset_spec(k)),
    ensures
        joined_spec(
            u + offset_spec(k).0,
            v + offset_spec(k).1,
            w + offset_spec(k).2,
            offset_spec(26 - k),
        ),
        rest_length_spec::<F>(offset_spec(26 - k)) == rest_length_spec::<F>(offset_spec(k)),
{
    lemma_opposite_offset(k);
}

/// How many springs join the point `(u, v, w)` to others along the first
/// `n` of the 27 steps.
pub open spec fn springs_upto_spec(u: int, v: int, w: int, n: nat) -> nat
    decreases n,
{
    if n == 0 {
        0
    } else {
        springs_upto_spec(u, v, w, (n - 1) as nat) + if joined_spec(u, v, w, offset_spec(n - 1)) {
            1nat
        } else {
            0nat
        }
    }
}

/// A point inside the lattice is joined to eighteen others: six along the
/// axes and twelve across the faces. A corner of the lattice is joined to six.
pub proof fn lemma_spring_count(u: int, v: int, w: int)
    requires
        0 <= u < 4,
        0 <= v < 4,
        0 <= w < 4,
    ensures
        1 <= u <= 2 && 1 <= v <= 2 && 1 <= w <= 2 ==> springs_upto_spec(u, v, w, 27) == 18,
        is_corner_spec(u, v, w) ==> springs_upto_spec(u, v, w, 27) == 6,
{
    reveal_with_fuel(springs_upto_spec, 28);
}

/// What hitting a wall along one axis does to the coordinate `c` and the
/// velocity `vc` along that axis: a coordinate beyond a wall is mirrored at
/// the wall and the velocity turned round. The last entry says whether a wall
/// was hit.
pub open spec fn collide_coordinate_spec<F: Float>(c: F, vc: F) -> (F, F, bool) {
    let room = room_half_size_spec::<F>();
    if c.lt_spec(room.neg_spec()) {
        (c.add_spec(room).neg_spec().sub_spec(room), vc.neg_spec(), true)
    } else if room.lt_spec(c) {
        (c.sub_spec(room).neg_spec().add_spec(room), vc.neg_spec(), true)
    } else {
        (c, vc, false)
    }
}

/// Whether the coordinate `c` lies beyond neither wall of its axis.
pub open spec fn within_walls_spec<F: Float>(c: F) -> bool {
    !c.lt_spec(room_half_size_spec::<F>().neg_spec()) && !room_half_size_spec::<F>().lt_spec(c)
}

/// Whether the point `position` lies in the room.
pub open spec fn in_room_spec<F: Float>(position: Vector3<F>) -> bool {
    within_walls_spec(position.x) && within_walls_spec(position.y) && within_walls_spec(
        position.z,
    )
}

/// One collision of a point: the first axis, in the order x, y, z, along
/// which the point lies beyond a wall is mirrored, and the whole velocity is
/// scaled by `elasticity`. A point in the room is left as it is. The last
/// entry says whether a wall was hit.
pub open spec fn collide_spec<F: Float>(
    elasticity: F,
    position: Vector3<F>,
    velocity: Vector3<F>,
) -> (Vector3<F>, Vector3<F>, bool) {
    let x = collide_coordinate_spec(position.x, velocity.x);
    let y = collide_coordinate_spec(position.y, velocity.y);
    let z = collide_coordinate_spec(position.z, velocity.z);
    if x.2 {
        (
            Vector3 { x: x.0, y: position.y, z: position.z },
            (Vector3 { x: x.1, y: velocity.y, z: velocity.z }).scale_spec(elasticity),
            true,
        )
    } else if y.2 {
        (
            Vector3 { x: position.x, y: y.0, z: position.z },
            (Vector3 { x: velocity.x, y: y.1, z: velocity.z }).scale_spec(elasticity),
            true,
        )
    } else if z.2 {
        (
            Vector3 { x: position.x, y: position.y, z: z.0 },
            (Vector3 { x: velocity.x, y: velocity.y, z: z.1 }).scale_spec(elasticity),
            true,
        )
    } else {
        (position, velocity, false)
    }
}

/// A point after its collisions: it collides until it lies in the room, but
/// at most `n` times.
pub open spec fn settle_spec<F: Float>(
    elasticity: F,
    position: Vector3<F>,
    velocity: Vector3<F>,
    n: nat,
) -> (Vector3<F>, Vector3<F>)
    decreases n,
{
    let hit = collide_spec(elasticity, position, velocity);
    if n == 0 || !hit.2 {
        (position, velocity)
    } else {
        settle_spec(elasticity, hit.0, hit.1, (n - 1) as nat)
    }
}

/// A point in the room does not collide: it keeps its place and its velocity.
pub proof fn lemma_settle_in_room<F: Float>(
    elasticity: F,
    position: Vector3<F>,
    velocity: Vector3<F>,
    n: nat,
)
    requires
        in_room_spec(position),
    ensures
        settle_spec(elasticity, position, velocity, n) == (position, velocity),
{
}

/// A point that lies in the room after one collision has collided once or
/// not at all: no further collision changes it.
pub proof fn lemma_settle_after_one<F: Float>(
    elasticity: F,
    position: Vector3<F>,
    velocity: Vector3<F>,
    n: nat,
)
    requires
        n >= 1,
        in_room_spec(collide_spec(elasticity, position, velocity).0),
    ensures
        settle_spec(elasticity, position, velocity, n) == (
            collide_spec(elasticity, position, velocity).0,
            collide_spec(elasticity, position, velocity).1,
        ),
{
    let hit = collide_spec(elasticity, position, velocity);
    if hit.2 {
        lemma_settle_in_room(elasticity, hit.0, hit.1, (n - 1) as nat);
    }
}

fn collide_position_coordinate<F: Float>(c: F, vc: F) -> (r: (F, F, bool))
    ensures
        r == collide_coordinate_spec(c, vc),
{
    let room: F = room_half_size();
    if c.lt(room.neg()) {
        (c.add(room).neg().sub(room), vc.neg(), true)
    } else if room.lt(c) {
        (c.sub(room).neg().add(room), vc.neg(), true)
    } else {
        (c, vc, false)
    }
}

impl<F: Float> JellyODE<F> {
    /// The force of the frame on the point `(u, v, w)`: none unless the
    /// point is a corner, which a spring of rest length zero pulls to its
    /// vertex of the frame's cube.
    pub open spec fn corner_force_spec(
        &self,
        frame_transform: Matrix4<F>,
        y: Seq<F>,
        u: int,
        v: int,
        w: int,
    ) -> Vector3<F> {
        if is_corner_spec(u, v, w) {
            spring_force_spec(
                corner_point_spec(frame_transform, u, v, w),
                position_spec(y, point_index_spec(u, v, w)),
                F::from_i32_spec(0),
                self.corner_spring_constant_spec(),
            )
        } else {
            Vector3::zeros_spec()
        }
    }

    /// The sum of the forces on `(u, v, w)` from the springs along the first
    /// `n` of the 27 steps, added in the order of the steps.
    pub open spec fn inner_force_upto_spec(&self, y: Seq<F>, u: int, v: int, w: int, n: nat)
        -> Vector3<F>
        decreases n,
    {
        if n == 0 {
            Vector3::zeros_spec()
        } else {
            let before = self.inner_force_upto_spec(y, u, v, w, (n - 1) as nat);
            let d = offset_spec(n - 1);
            if joined_spec(u, v, w, d) {
                before.add_spec(
                    spring_force_spec(
                        position_spec(y, point_index_spec(u + d.0, v + d.1, w + d.2)),
                        position_spec(y, point_index_spec(u, v, w)),
                        rest_length_spec::<F>(d),
                        self.inner_spring_constant_spec(),
                    ),
                )
            } else {
                before
            }
        }
    }

    /// The force on `(u, v, w)` from the springs to its neighbours.
    pub open spec fn inner_force_spec(&self, y: Seq<F>, u: int, v: int, w: int) -> Vector3<F> {
        self.inner_force_upto_spec(y, u, v, w, 27)
    }

    /// The force that slows the point: against its velocity, in proportion to it.
    pub open spec fn damping_force_spec(&self, y: Seq<F>, u: int, v: int, w: int) -> Vector3<F> {
        velocity_spec(y, point_index_spec(u, v, w)).neg_spec().scale_spec(
            self.damping_factor_spec(),
        )
    }

    /// The whole force on the point `(u, v, w)`.
    pub open spec fn force_spec(
        &self,
        frame_transform: Matrix4<F>,
        y: Seq<F>,
        u: int,
        v: int,
        w: int,
    ) -> Vector3<F> {
        self.corner_force_spec(frame_transform, y, u, v, w).add_spec(
            self.inner_force_spec(y, u, v, w),
        ).add_spec(self.damping_force_spec(y, u, v, w))
    }

    /// The acceleration of point `p`: the force on it times `1 / mass`.
    pub open spec fn acceleration_spec(&self, y: Seq<F>, p: int) -> Vector3<F> {
        self.force_spec(
            self.control_frame_spec().compose_spec(),
            y,
            p / 16,
            (p / 4) % 4,
            p % 4,
        ).scale_spec(self.point_mass_inverse_spec())
    }

    /// Entry `i` of the right-hand side: the rate of a position is the
    /// velocity that the unknowns hold, the rate of a velocity the acceleration.
    pub open spec fn derivative_entry_spec(&self, y: Seq<F>, i: int) -> F {
        if i < SPACE_DIM {
            y[i + SPACE_DIM]
        } else {
            component_spec(self.acceleration_spec(y, (i - SPACE_DIM) / 3), (i - SPACE_DIM) % 3)
        }
    }

    /// Entry `i` of the unknowns after the collisions: each point has settled
    /// on its own.
    pub open spec fn settled_entry_spec(&self, y: Seq<F>, i: int) -> F {
        let p = (i % (SPACE_DIM as int)) / 3;
        let settled = settle_spec(
            self.elasticity_coefficient_spec(),
            position_spec(y, p),
            velocity_spec(y, p),
            MAX_COLLISIONS as nat,
        );
        component_spec(
            if i < SPACE_DIM {
                settled.0
            } else {
                settled.1
            },
            i % 3,
        )
    }

    /// The unknowns after the collisions with the walls of the room.
    pub open spec fn apply_collisions_spec(&self, y: Seq<F>) -> Seq<F> {
        Seq::new(ODE_DIM as nat, |i: int| self.settled_entry_spec(y, i))
    }

    fn corner_force(&self, frame_transform: &Matrix4<F>, y: &Vec<F>, u: usize, v: usize, w: usize)
        -> (r: Vector3<F>)
        requires
            y.len() == ODE_DIM,
            u < 4,
            v < 4,
            w < 4,
        ensures
            r == self.corner_force_spec(*frame_transform, y@, u as int, v as int, w as int),
    {
        if (u != 3 && u != 0) || (v != 3 && v != 0) || (w != 3 && w != 0) {
            Vector3::zeros()
        } else {
            let corner = Vector3 { x: corner_coord(u), y: corner_coord(v), z: corner_coord(w) };
            let corner_point = frame_transform.transform_point(&corner);
            let idx = point_index(u, v, w) * 3;
            spring_force(
                &corner_point,
                &vector_at(y, idx),
                F::from_i32(0),
                self.corner_spring_constant,
            )
        }
    }

    fn inner_force(&self, y: &Vec<F>, u: usize, v: usize, w: usize) -> (r: Vector3<F>)
        requires
            y.len() == ODE_DIM,
            u < 4,
            v < 4,
            w < 4,
        ensures
            r == self.inner_force_spec(y@, u as int, v as int, w as int),
    {
        let position = vector_at(y, point_index(u, v, w) * 3);
        let axis_length = ratio::<F>(2, 3).mul(F::from_i32(1));
        let face_length = ratio::<F>(2, 3).mul(F::from_i32(2).sqrt());
        let mut force_accumulator = Vector3::zeros();

        let mut k: usize = 0;
        while k < 27
            invariant
                k <= 27,
                y.len() == ODE_DIM,
                u < 4,
                v < 4,
                w < 4,
                position == position_spec(y@, point_index_spec(u as int, v as int, w as int)),
                axis_length == rest_length_spec::<F>((1, 0, 0)),
                face_length == rest_length_spec::<F>((1, 1, 0)),
                force_accumulator == self.inner_force_upto_spec(
                    y@,
                    u as int,
                    v as int,
                    w as int,
                    k as nat,
                ),
            decreases 27 - k,
        {
            // Each step is held one higher than it is, to stay above zero.
            let a = k / 9;
            let b = (k / 3) % 3;
            let c = k % 3;
            let mut moved: usize = 0;
            if a != 1 {
                moved += 1;
            }
            if b != 1 {
                moved += 1;
            }
            if c != 1 {
                moved += 1;
            }
            let ghost d = offset_spec(k as int);
            assert(d == (a as int - 1, b as int - 1, c as int - 1));
            assert(moved == axes_moved_spec(d));
            if 1 <= u + a && u + a <= 4 && 1 <= v + b && v + b <= 4 && 1 <= w + c && w + c <= 4
                && 1 <= moved && moved <= 2 {
                let idx_other = point_index(u + a - 1, v + b - 1, w + c - 1) * 3;
                let other_position = vector_at(y, idx_other);
                let length = if moved == 2 {
                    face_length
                } else {
                    axis_length
                };
                force_accumulator = force_accumulator.add(
                    &spring_force(&other_position, &position, length, self.inner_spring_constant),
                );
            }
            k += 1;
        }

        force_accumulator
    }

    fn damping_force(&self, y: &Vec<F>, u: usize, v: usize, w: usize) -> (r: Vector3<F>)
        requires
            y.len() == ODE_DIM,
            u < 4,
            v < 4,
            w < 4,
        ensures
            r == self.damping_force_spec(y@, u as int, v as int, w as int),
    {
        let idx = point_index(u, v, w) * 3 + SPACE_DIM;
        vector_at(y, idx).neg().scale(self.damping_factor)
    }

    fn force(&self, frame_transform: &Matrix4<F>, y: &Vec<F>, u: usize, v: usize, w: usize) -> (r:
        Vector3<F>)
        requires
            y.len() == ODE_DIM,
            u < 4,
            v < 4,
            w < 4,
        ensures
            r == self.force_spec(*frame_transform, y@, u as int, v as int, w as int),
    {
        self.corner_force(frame_transform, y, u, v, w).add(&self.inner_force(y, u, v, w)).add(
            &self.damping_force(y, u, v, w),
        )
    }

    // True on collision
    fn collide(&self, position: &Vector3<F>, velocity: &Vector3<F>) -> (r: (
        Vector3<F>,
        Vector3<F>,
        bool,
    ))
        ensures
            r == collide_spec(self.elasticity_coefficient_spec(), *position, *velocity),
    {
        let x = collide_position_coordinate(position.x, velocity.x);
        if x.2 {
            return (
                Vector3 { x: x.0, y: position.y, z: position.z },
                Vector3 { x: x.1, y: velocity.y, z: velocity.z }.scale(self.elasticity_coefficient),
                true,
            );
        }
        let y = collide_position_coordinate(position.y, velocity.y);
        if y.2 {
            return (
                Vector3 { x: position.x, y: y.0, z: position.z },
                Vector3 { x: velocity.x, y: y.1, z: velocity.z }.scale(self.elasticity_coefficient),
                true,
            );
        }
        let z = collide_position_coordinate(position.z, velocity.z);
        if z.2 {
            return (
                Vector3 { x: position.x, y: position.y, z: z.0 },
                Vector3 { x: velocity.x, y: velocity.y, z: z.1 }.scale(self.elasticity_coefficient),
                true,
            );
        }
        (*position, *velocity, false)
    }

    /// Brings every point back into the room. This is no part of the
    /// equation of motion: it is applied to the state that a solver's step
    /// gave, before that state is accepted, and it loses energy. A point
    /// beyond a wall is mirrored at the wall, its velocity along that axis
    /// turned round and its whole velocity scaled by the elasticity; this is
    /// done again while the point lies beyond any wall, `MAX_COLLISIONS`
    /// times at most.
    pub fn apply_collisions(&self, state: JellyState<F>) -> (r: JellyState<F>)
        requires
            state.wf(),
        ensures
            r.wf(),
            r.t == state.t,
            r.y@ == self.apply_collisions_spec(state.y@),
    {
        let ghost y_0 = state.y@;
        let t = state.t;
        let mut y = state.y;
        let mut p: usize = 0;
        while p < POINT_COUNT
            invariant
                p <= POINT_COUNT,
                y@.len() == ODE_DIM,
                y_0.len() == ODE_DIM,
                forall|i: int|
                    0 <= i < ODE_DIM ==> y@[i] == if (i % (SPACE_DIM as int)) / 3 < p {
                        self.settled_entry_spec(y_0, i)
                    } else {
                        y_0[i]
                    },
            decreases POINT_COUNT - p,
        {
            let i = p * 3;
            let mut position = vector_at(&y, i);
            let mut velocity = vector_at(&y, i + SPACE_DIM);
            let ghost position_0 = position;
            let ghost velocity_0 = velocity;
            assert(position_0 == position_spec(y_0, p as int));
            assert(velocity_0 == velocity_spec(y_0, p as int));

            let mut left: usize = MAX_COLLISIONS;
            while left > 0
                invariant
                    settle_spec(
                        self.elasticity_coefficient_spec(),
                        position,
                        velocity,
                        left as nat,
                    ) == settle_spec(
                        self.elasticity_coefficient_spec(),
                        position_0,
                        velocity_0,
                        MAX_COLLISIONS as nat,
                    ),
                decreases left,
            {
                let hit = self.collide(&position, &velocity);
                if hit.2 {
                    position = hit.0;
                    velocity = hit.1;
                    left -= 1;
                } else {
                    left = 0;
                }
            }

            let ghost y_1 = y@;
            y.set(i, position.x);
            y.set(i + 1, position.y);
            y.set(i + 2, position.z);
            y.set(i + SPACE_DIM, velocity.x);
            y.set(i + SPACE_DIM + 1, velocity.y);
            y.set(i + SPACE_DIM + 2, velocity.z);
            assert forall|j: int| 0 <= j < ODE_DIM implies y@[j] == if (j % (
            SPACE_DIM as int)) / 3 < p + 1 {
                self.settled_entry_spec(y_0, j)
            } else {
                y_0[j]
            } by {
                if (j % (SPACE_DIM as int)) / 3 == p {
                    assert(j == i || j == i + 1 || j == i + 2 || j == i + SPACE_DIM || j == i
                        + SPACE_DIM + 1 || j == i + SPACE_DIM + 2);
                } else {
                    assert(y@[j] == y_1[j]);
                }
            }
            p += 1;
        }
        assert(y@ =~= self.apply_collisions_spec(y_0));
        State { t, y }
    }
}

impl<F: Float> PlainODE<F, ODE_DIM> for JellyODE<F> {
    /// The rates of the unknowns. They do not depend on the time.
    open spec fn derivative_spec(&self, t: F, y: Seq<F>) -> Seq<F> {
        Seq::new(ODE_DIM as nat, |i: int| self.derivative_entry_spec(y, i))
    }

    fn derivative(&self, state: &JellyState<F>) -> (r: Vec<F>) {
        let frame_transform = self.control_frame.compose();
        let mut r: Vec<F> = Vec::with_capacity(ODE_DIM);
        let mut i: usize = 0;
        while i < SPACE_DIM
            invariant
                i <= SPACE_DIM,
                state.wf(),
                r@.len() == i,
                forall|j: int| 0 <= j < i ==> r@[j] == self.derivative_entry_spec(state.y@, j),
            decreases SPACE_DIM - i,
        {
            r.push(state.y[i + SPACE_DIM]);
            i += 1;
        }
        let mut p: usize = 0;
        while p < POINT_COUNT
            invariant
                p <= POINT_COUNT,
                state.wf(),
                frame_transform == self.control_frame_spec().compose_spec(),
                r@.len() == SPACE_DIM + 3 * p,
                forall|j: int|
                    0 <= j < SPACE_DIM + 3 * p ==> r@[j] == self.derivative_entry_spec(
                        state.y@,
                        j,
                    ),
            decreases POINT_COUNT - p,
        {
            let acceleration = self.force(
                &frame_transform,
                &state.y,
                p / 16,
                (p / 4) % 4,
                p % 4,
            ).scale(self.point_mass_inverse);
            assert(acceleration == self.acceleration_spec(state.y@, p as int));
            r.push(acceleration.x);
            r.push(acceleration.y);
            r.push(acceleration.z);
            p += 1;
        }
        assert(r@ =~= self.derivative_spec(state.t, state.y@));
        r
    }
}

} // verus!
