use vstd::prelude::*;

use crate::numerics::angle::{
    closest_spec, difference_spec, lerp_radians_spec, opposite_spec, sum_spec, wrap_spec, Angle,
};
use crate::numerics::linalg::{dot4, dot4_spec, normalize4, normalize4_spec, Matrix4, Vector3};
use crate::numerics::rotations::{
    is_rotate_x, is_rotate_y, is_rotate_z, rotate_x, rotate_y, rotate_z, Quaternion,
};
use crate::numerics::{clamp, clamp_spec, ratio, ratio_spec, Float};

verus! {

/// The joints of an arm of five turning joints and one sliding joint: the
/// five angles, and the length `q2` of the sliding link.
#[derive(Debug, Clone, Copy)]
pub struct ConfigState<F> {
    pub a1: Angle<F>,
    pub a2: Angle<F>,
    pub a3: Angle<F>,
    pub a4: Angle<F>,
    pub a5: Angle<F>,
    pub q2: F,
}

/// The joints as plain numbers: the radians of the five angles, and `q2`.
pub struct Joints<F> {
    pub a1: F,
    pub a2: F,
    pub a3: F,
    pub a4: F,
    pub a5: F,
    pub q2: F,
}

/// Where the links and the joints of the arm are to be drawn.
#[derive(Clone)]
pub struct CylindersTransforms<F> {
    pub bone_transforms: [Matrix4<F>; 5],
    pub joint_transforms: [Matrix4<F>; 4],
}

/// Where the hand of the arm is, and how it is turned.
pub struct SceneState<F> {
    pub position: Vector3<F>,
    pub rotation: Quaternion<F>,
}

/// The lengths of the three links that do not slide.
#[derive(Clone, Copy)]
pub struct Params<F> {
    pub l1: F,
    pub l3: F,
    pub l4: F,
}

impl<F: Float> Default for Params<F> {
    fn default() -> (r: Self)
        ensures
            r.l1 == F::from_i32_spec(3),
            r.l3 == F::from_i32_spec(3),
            r.l4 == F::from_i32_spec(3),
    {
        Self { l1: F::from_i32(3), l3: F::from_i32(3), l4: F::from_i32(3) }
    }
}

/// The turns of the five joints, and the fixed turns that lay the links
/// along their axes.
pub struct Turns<F> {
    pub f01: Matrix4<F>,
    pub f12: Matrix4<F>,
    pub f23: Matrix4<F>,
    pub f34: Matrix4<F>,
    pub f45: Matrix4<F>,
    pub quarter_y: Matrix4<F>,
    pub half_y: Matrix4<F>,
    pub quarter_x: Matrix4<F>,
}

impl<F: Float> View for ConfigState<F> {
    type V = Joints<F>;

    open spec fn view(&self) -> Joints<F> {
        Joints {
            a1: self.a1@,
            a2: self.a2@,
            a3: self.a3@,
            a4: self.a4@,
            a5: self.a5@,
            q2: self.q2,
        }
    }
}

impl<F: Float> Default for ConfigState<F> {
    fn default() -> (r: Self)
        ensures
            r@ == (Joints {
                a1: F::from_i32_spec(0),
                a2: F::from_i32_spec(0),
                a3: F::from_i32_spec(0),
                a4: F::from_i32_spec(0),
                a5: F::from_i32_spec(0),
                q2: F::from_i32_spec(0),
            }),
    {
        Self {
            a1: Angle::default(),
            a2: Angle::default(),
            a3: Angle::default(),
            a4: Angle::default(),
            a5: Angle::default(),
            q2: F::from_i32(0),
        }
    }
}

/// A quarter turn, in radians.
pub open spec fn quarter_turn_spec<F: Float>() -> F {
    F::pi_spec().div_spec(F::from_i32_spec(2))
}

impl<F: Float> ConfigState<F> {
    /// The arm with every angle at zero and a sliding link of length one.
    pub fn new() -> (r: Self)
        ensures
            r@ == (Joints {
                a1: F::from_i32_spec(0),
                a2: F::from_i32_spec(0),
                a3: F::from_i32_spec(0),
                a4: F::from_i32_spec(0),
                a5: F::from_i32_spec(0),
                q2: F::from_i32_spec(1),
            }),
    {
        Self {
            a1: Angle::default(),
            a2: Angle::default(),
            a3: Angle::default(),
            a4: Angle::default(),
            a5: Angle::default(),
            q2: F::from_i32(1),
        }
    }

    /// Whether `turns` holds turns that the scalar type may give for these joints.
    pub open spec fn turns_rel(&self, turns: Turns<F>) -> bool {
        &&& is_rotate_z(self.a1@, turns.f01)
        &&& is_rotate_y(self.a2@, turns.f12)
        &&& is_rotate_y(self.a3@, turns.f23)
        &&& is_rotate_z(self.a4@, turns.f34)
        &&& is_rotate_x(self.a5@, turns.f45)
        &&& is_rotate_y(quarter_turn_spec::<F>(), turns.quarter_y)
        &&& is_rotate_y(F::pi_spec(), turns.half_y)
        &&& is_rotate_x(quarter_turn_spec::<F>(), turns.quarter_x)
    }

    /// The frame `frame` with a unit cylinder stretched into a link of the
    /// length `length` in it: a tenth as thick, and half as long each way.
    pub open spec fn link_spec(frame: Matrix4<F>, length: F) -> Matrix4<F> {
        let one = F::from_i32_spec(1);
        let tenth = ratio_spec::<F>(1, 10);
        frame.mul_spec(Matrix4::scaling_spec(tenth, tenth, one)).mul_spec(
            Matrix4::scaling_spec(one, one, ratio_spec::<F>(1, 2).mul_spec(length)),
        )
    }

    /// The move along the z axis by `by`.
    pub open spec fn along_z_spec(by: F) -> Matrix4<F> {
        Matrix4::translation_spec(
            Vector3 { x: F::from_i32_spec(0), y: F::from_i32_spec(0), z: by },
        )
    }

    /// The move along the x axis by `by`.
    pub open spec fn along_x_spec(by: F) -> Matrix4<F> {
        Matrix4::translation_spec(
            Vector3 { x: by, y: F::from_i32_spec(0), z: F::from_i32_spec(0) },
        )
    }

    /// Where the links and joints are, from the turns of the joints. Each
    /// frame is the one before it, moved along its link and turned by its
    /// joint; a link is drawn half way along, a joint at a fifth of its size.
    pub open spec fn forward_from_spec(&self, params: Params<F>, turns: Turns<F>)
        -> CylindersTransforms<F> {
        let half = ratio_spec::<F>(1, 2);
        let f11 = Self::along_z_spec(params.l1);
        let f22 = Self::along_x_spec(self.q2);
        let f33 = Self::along_z_spec(params.l3.neg_spec());
        let f44 = Self::along_x_spec(params.l4);
        let f01 = turns.f01;
        let f02 = f01.mul_spec(f11).mul_spec(turns.f12);
        let f03 = f02.mul_spec(f22).mul_spec(turns.f23);
        let f04 = f03.mul_spec(f33).mul_spec(turns.f34);
        let f05 = f04.mul_spec(f44).mul_spec(turns.f45);
        let fifth = ratio_spec::<F>(1, 5);
        let small = Matrix4::scaling_spec(fifth, fifth, fifth);
        let two = F::from_i32_spec(2);
        CylindersTransforms {
            bone_transforms: [
                Self::link_spec(
                    f01.mul_spec(Self::along_z_spec(params.l1.mul_spec(half))),
                    params.l1,
                ),
                Self::link_spec(
                    f02.mul_spec(Self::along_x_spec(self.q2.mul_spec(half))).mul_spec(
                        turns.quarter_y,
                    ),
                    self.q2,
                ),
                Self::link_spec(
                    f03.mul_spec(Self::along_z_spec(params.l3.neg_spec().mul_spec(half))).mul_spec(
                        turns.half_y,
                    ),
                    params.l3,
                ),
                Self::link_spec(
                    f04.mul_spec(Self::along_x_spec(params.l4.mul_spec(half))).mul_spec(
                        turns.quarter_y,
                    ),
                    params.l4,
                ),
                f05,
            ],
            joint_transforms: [
                Matrix4::scaling_spec(two, two, two).mul_spec(small),
                f01.mul_spec(f11).mul_spec(turns.quarter_x).mul_spec(small),
                f02.mul_spec(f22).mul_spec(turns.quarter_x).mul_spec(small),
                f03.mul_spec(f33).mul_spec(small),
            ],
        }
    }

    fn link(frame: &Matrix4<F>, length: F) -> (r: Matrix4<F>)
        ensures
            r == Self::link_spec(*frame, length),
    {
        let one = F::from_i32(1);
        let tenth: F = ratio(1, 10);
        frame.mul(&Matrix4::scaling(tenth, tenth, one)).mul(
            &Matrix4::scaling(one, one, ratio::<F>(1, 2).mul(length)),
        )
    }

    fn along_z(by: F) -> (r: Matrix4<F>)
        ensures
            r == Self::along_z_spec(by),
    {
        Matrix4::translation(&Vector3 { x: F::from_i32(0), y: F::from_i32(0), z: by })
    }

    fn along_x(by: F) -> (r: Matrix4<F>)
        ensures
            r == Self::along_x_spec(by),
    {
        Matrix4::translation(&Vector3 { x: by, y: F::from_i32(0), z: F::from_i32(0) })
    }

    pub fn forward_from(&self, params: &Params<F>, turns: &Turns<F>) -> (r: CylindersTransforms<F>)
        ensures
            r == self.forward_from_spec(*params, *turns),
    {
        let half: F = ratio(1, 2);
        let f11 = Self::along_z(params.l1);
        let f22 = Self::along_x(self.q2);
        let f33 = Self::along_z(params.l3.neg());
        let f44 = Self::along_x(params.l4);
        let f01 = turns.f01;
        let f02 = f01.mul(&f11).mul(&turns.f12);
        let f03 = f02.mul(&f22).mul(&turns.f23);
        let f04 = f03.mul(&f33).mul(&turns.f34);
        let f05 = f04.mul(&f44).mul(&turns.f45);
        let fifth: F = ratio(1, 5);
        let small = Matrix4::scaling(fifth, fifth, fifth);
        let two = F::from_i32(2);
        CylindersTransforms {
            bone_transforms: [
                Self::link(&f01.mul(&Self::along_z(params.l1.mul(half))), params.l1),
                Self::link(
                    &f02.mul(&Self::along_x(self.q2.mul(half))).mul(&turns.quarter_y),
                    self.q2,
                ),
                Self::link(
                    &f03.mul(&Self::along_z(params.l3.neg().mul(half))).mul(&turns.half_y),
                    params.l3,
                ),
                Self::link(
                    &f04.mul(&Self::along_x(params.l4.mul(half))).mul(&turns.quarter_y),
                    params.l4,
                ),
                f05,
            ],
            joint_transforms: [
                Matrix4::scaling(two, two, two).mul(&small),
                f01.mul(&f11).mul(&turns.quarter_x).mul(&small),
                f02.mul(&f22).mul(&turns.quarter_x).mul(&small),
                f03.mul(&f33).mul(&small),
            ],
        }
    }

    /// Where the links and the joints of the arm are, for links of the
    /// lengths `params`.
    pub fn forward_kinematics(&self, params: &Params<F>) -> (r: CylindersTransforms<F>)
        ensures
            exists|turns: Turns<F>| #[trigger]
                self.turns_rel(turns) && r == self.forward_from_spec(*params, turns),
    {
        let quarter_turn = F::pi().div(F::from_i32(2));
        let turns = Turns {
            f01: rotate_z(self.a1.rad()),
            f12: rotate_y(self.a2.rad()),
            f23: rotate_y(self.a3.rad()),
            f34: rotate_z(self.a4.rad()),
            f45: rotate_x(self.a5.rad()),
            quarter_y: rotate_y(quarter_turn),
            half_y: rotate_y(F::pi()),
            quarter_x: rotate_x(quarter_turn),
        };
        assert(self.turns_rel(turns));
        self.forward_from(params, &turns)
    }

    /// The joints at `t` on the way from `self` to `other`: each angle goes
    /// the short way round, the sliding link straight.
    pub open spec fn lerp_spec(&self, other: &Self, t: F) -> Joints<F> {
        Joints {
            a1: lerp_radians_spec(self.a1@, other.a1@, t),
            a2: lerp_radians_spec(self.a2@, other.a2@, t),
            a3: lerp_radians_spec(self.a3@, other.a3@, t),
            a4: lerp_radians_spec(self.a4@, other.a4@, t),
            a5: lerp_radians_spec(self.a5@, other.a5@, t),
            q2: self.q2.mul_spec(F::from_i32_spec(1).sub_spec(t)).add_spec(other.q2.mul_spec(t)),
        }
    }

    pub fn lerp(&self, other: &Self, t: F) -> (r: Self)
        ensures
            r@ == self.lerp_spec(other, t),
    {
        Self {
            a1: self.a1.lerp(other.a1, t),
            a2: self.a2.lerp(other.a2, t),
            a3: self.a3.lerp(other.a3, t),
            a4: self.a4.lerp(other.a4, t),
            a5: self.a5.lerp(other.a5, t),
            q2: self.q2.mul(F::from_i32(1).sub(t)).add(other.q2.mul(t)),
        }
    }
}

impl<F: Float> SceneState<F> {
    pub fn new(position: Vector3<F>, rotation: Quaternion<F>) -> (r: Self)
        ensures
            r.position == position,
            r.rotation == rotation,
    {
        Self { position, rotation }
    }

    /// The hand at `t` on the way from `self` to `other`: its place goes
    /// straight, its turn along the short arc.
    pub fn interpolate(&self, other: &Self, t: F) -> (r: Self)
        ensures
            r.position == self.position.lerp_spec(other.position, t),
            self.rotation.is_slerp(other.rotation, t, r.rotation),
    {
        Self::new(self.position.lerp(&other.position, t), self.rotation.slerp(&other.rotation, t))
    }
}

/// The first three of four homogeneous coordinates.
pub open spec fn xyz_spec<F: Float>(v: [F; 4]) -> Vector3<F> {
    Vector3 { x: v[0], y: v[1], z: v[2] }
}

fn xyz<F: Float>(v: &[F; 4]) -> (r: Vector3<F>)
    ensures
        r == xyz_spec(*v),
{
    Vector3 { x: v[0], y: v[1], z: v[2] }
}

/// The sines and cosines that the joints are found with, the sum of the
/// second and third angle, and the frame of the third link.
pub struct ArmTrig<F> {
    pub s1: F,
    pub c1: F,
    pub a23: F,
    pub s23: F,
    pub c23: F,
    pub s2: F,
    pub c2: F,
    pub frame: Matrix4<F>,
}

/// Half a turn as an angle within one turn.
pub open spec fn half_turn_spec<F: Float>() -> F {
    wrap_spec(F::pi_spec())
}

/// Of `angle` and the angle half a turn on, the one nearer to `guide`.
pub open spec fn nearer_spec<F: Float>(guide: F, angle: F) -> F {
    closest_spec(guide, angle, sum_spec(angle, half_turn_spec::<F>()))
}

/// The first angle, from the arc `arc` of the wrist `p3` seen from above
/// and the cosine `c1` of its size: the arc or its opposite as the wrist
/// lies, and of that and the angle half a turn on, the one nearer to the guide.
pub open spec fn first_angle_from_spec<F: Float>(guide_a1: F, p3: [F; 4], arc: F, c1: F) -> F {
    let zero = F::from_i32_spec(0);
    let size = wrap_spec(arc.abs_spec());
    let along = zero.lt_spec(c1.mul_spec(p3[0]));
    let above = zero.lt_spec(p3[1]);
    nearer_spec(
        guide_a1,
        if along == above {
            size
        } else {
            opposite_spec(size)
        },
    )
}

/// Whether `a1` is a first angle for the wrist `p3`: the guide's where the
/// wrist stands over the base, which any angle reaches.
pub open spec fn is_first_angle<F: Float>(guide_a1: F, p3: [F; 4], a1: F) -> bool {
    let zero = F::from_i32_spec(0);
    if !p3[0].eq_spec(zero) || !p3[1].eq_spec(zero) {
        exists|arc: F, c1: F|
            {
                &&& #[trigger] p3[1].atan2_rel(p3[0], arc)
                &&& #[trigger] wrap_spec(arc.abs_spec()).cos_rel(c1)
                &&& a1 == first_angle_from_spec(guide_a1, p3, arc, c1)
            }
    } else {
        a1 == guide_a1
    }
}

/// The part of the hand's axis that lies along the first link's direction.
pub open spec fn along_first_spec<F: Float>(d4x: [F; 4], s1: F, c1: F) -> F {
    d4x[0].mul_spec(c1).add_spec(d4x[1].mul_spec(s1))
}

/// Whether `a23` is a sum of the second and third angle for a hand along
/// `d4x`: the guide's sum where the hand's axis does not tell.
pub open spec fn is_elbow_sum<F: Float>(guide: Joints<F>, d4x: [F; 4], s1: F, c1: F, a23: F)
    -> bool {
    let zero = F::from_i32_spec(0);
    let icjs = along_first_spec(d4x, s1, c1);
    let guide_sum = sum_spec(guide.a2, guide.a3);
    if d4x[2].eq_spec(zero) && icjs.eq_spec(zero) {
        a23 == guide_sum
    } else {
        exists|arc: F| #[trigger]
            d4x[2].atan2_rel(icjs.neg_spec(), arc) && a23 == nearer_spec(guide_sum, wrap_spec(arc))
    }
}

/// How far the wrist lies above the end of the third link's reach.
pub open spec fn lift_spec<F: Float>(params: Params<F>, p3: [F; 4], c23: F) -> F {
    params.l1.sub_spec(params.l3.mul_spec(c23)).sub_spec(p3[2])
}

/// How far the wrist lies out from the base, along the first link's
/// direction: taken from the coordinate that divides by the larger of the
/// sine and the cosine.
pub open spec fn span_spec<F: Float>(params: Params<F>, p3: [F; 4], s1: F, c1: F, s23: F) -> F {
    (if c1.abs_spec().lt_spec(s1.abs_spec()) {
        p3[1].div_spec(s1)
    } else {
        p3[0].div_spec(c1)
    }).add_spec(params.l3.mul_spec(s23))
}

/// Whether `a2` is a second angle for a wrist `span` out and `lift` up: the
/// guide's where both are zero.
pub open spec fn is_shoulder<F: Float>(guide_a2: F, span: F, lift: F, a2: F) -> bool {
    let zero = F::from_i32_spec(0);
    if span.eq_spec(zero) && lift.eq_spec(zero) {
        a2 == guide_a2
    } else {
        exists|arc: F| #[trigger] lift.atan2_rel(span, arc) && a2 == wrap_spec(arc)
    }
}

/// The length of the sliding link: the lift or the span, divided by the
/// larger of the second angle's sine and cosine.
pub open spec fn slide_spec<F: Float>(span: F, lift: F, s2: F, c2: F) -> F {
    if c2.abs_spec().lt_spec(s2.abs_spec()) {
        lift.div_spec(s2)
    } else {
        span.div_spec(c2)
    }
}

/// Whether `frame` is a frame of the third link for the first three angles.
pub open spec fn is_third_frame<F: Float>(a1: F, a2: F, a3: F, frame: Matrix4<F>) -> bool {
    exists|z: Matrix4<F>, y_2: Matrix4<F>, y_3: Matrix4<F>|
        {
            &&& #[trigger] is_rotate_z(a1, z)
            &&& #[trigger] is_rotate_y(a2, y_2)
            &&& #[trigger] is_rotate_y(a3, y_3)
            &&& frame == z.mul_spec(y_2).mul_spec(y_3)
        }
}

/// The unit vector along axis `axis` of `frame`.
pub open spec fn axis_spec<F: Float>(frame: Matrix4<F>, axis: [F; 4]) -> [F; 4] {
    normalize4_spec(frame.mul_vec_spec(axis))
}

/// The x axis in homogeneous coordinates.
pub open spec fn unit_x_spec<F: Float>() -> [F; 4] {
    let o = F::from_i32_spec(1);
    let z = F::from_i32_spec(0);
    [o, z, z, z]
}

/// The z axis in homogeneous coordinates.
pub open spec fn unit_z_spec<F: Float>() -> [F; 4] {
    let o = F::from_i32_spec(1);
    let z = F::from_i32_spec(0);
    [z, z, o, z]
}

/// The angle `arc`, or its opposite where `side` is not above zero.
pub open spec fn signed_angle_spec<F: Float>(arc: F, side: F) -> F {
    if F::from_i32_spec(0).lt_spec(side) {
        wrap_spec(arc)
    } else {
        opposite_spec(wrap_spec(arc))
    }
}

/// Whether `a` is an angle from the direction `u` to the direction `v`,
/// counted about `about`.
pub open spec fn is_twist<F: Float>(u: [F; 4], v: [F; 4], about: [F; 4], a: F) -> bool {
    let one = F::from_i32_spec(1);
    let c = clamp_spec(xyz_spec(u).dot_spec(xyz_spec(v)), one.neg_spec(), one);
    exists|arc: F| #[trigger]
        c.acos_rel(arc) && a == signed_angle_spec(
            arc,
            xyz_spec(u).cross_spec(xyz_spec(v)).dot_spec(xyz_spec(about)),
        )
}

fn twist<F: Float>(u: &[F; 4], v: &[F; 4], about: &[F; 4]) -> (r: Angle<F>)
    ensures
        is_twist(*u, *v, *about, r@),
{
    let one = F::from_i32(1);
    let c = clamp(xyz(u).dot(&xyz(v)), one.neg(), one);
    let arc = c.acos();
    let size = Angle::from_rad(arc);
    let side = xyz(u).cross(&xyz(v)).dot(&xyz(about));
    let r = if F::from_i32(0).lt(side) {
        size
    } else {
        size.neg()
    };
    assert(c.acos_rel(arc) && r@ == signed_angle_spec(arc, side));
    r
}

fn axis<F: Float>(frame: &Matrix4<F>, unit: &[F; 4]) -> (r: [F; 4])
    ensures
        r == axis_spec(*frame, *unit),
{
    normalize4(&frame.mul_vec(unit))
}

impl<F: Float> SceneState<F> {
    /// The direction of the hand's x axis.
    pub open spec fn hand_x_spec(&self) -> [F; 4] {
        axis_spec(self.rotation.to_homogeneous_spec(), unit_x_spec::<F>())
    }

    /// The direction of the hand's z axis.
    pub open spec fn hand_z_spec(&self) -> [F; 4] {
        axis_spec(self.rotation.to_homogeneous_spec(), unit_z_spec::<F>())
    }

    /// The wrist: the hand, taken back by the last link along the hand's x axis.
    pub open spec fn wrist_spec(&self, params: Params<F>) -> [F; 4] {
        let d = self.hand_x_spec();
        [
            self.position.x.sub_spec(params.l4.mul_spec(d[0])),
            self.position.y.sub_spec(params.l4.mul_spec(d[1])),
            self.position.z.sub_spec(params.l4.mul_spec(d[2])),
            F::from_i32_spec(1).sub_spec(params.l4.mul_spec(d[3])),
        ]
    }

    /// Whether `r` holds joints that bring the hand to this place and turn,
    /// for the sines and cosines `t` that the scalar type may give. Where
    /// the place leaves an angle open, the angle of `guide` is taken; of
    /// two angles half a turn apart, the one nearer to the guide's.
    pub open spec fn joints_rel(&self, guide: Joints<F>, params: Params<F>, t: ArmTrig<F>, r: Joints<F>)
        -> bool {
        let d4x = self.hand_x_spec();
        let p3 = self.wrist_spec(params);
        let lift = lift_spec(params, p3, t.c23);
        let span = span_spec(params, p3, t.s1, t.c1, t.s23);
        let d3x = axis_spec(t.frame, unit_x_spec::<F>());
        let d3z = axis_spec(t.frame, unit_z_spec::<F>());
        &&& is_first_angle(guide.a1, p3, r.a1)
        &&& r.a1.sin_rel(t.s1)
        &&& r.a1.cos_rel(t.c1)
        &&& is_elbow_sum(guide, d4x, t.s1, t.c1, t.a23)
        &&& t.a23.sin_rel(t.s23)
        &&& t.a23.cos_rel(t.c23)
        &&& is_shoulder(guide.a2, span, lift, r.a2)
        &&& r.a2.sin_rel(t.s2)
        &&& r.a2.cos_rel(t.c2)
        &&& r.a3 == difference_spec(t.a23, r.a2)
        &&& r.q2 == slide_spec(span, lift, t.s2, t.c2)
        &&& is_third_frame(r.a1, r.a2, r.a3, t.frame)
        &&& is_twist(d3x, d4x, d3z, r.a4)
        &&& is_twist(d3z, self.hand_z_spec(), d4x, r.a5)
    }

    /// Whether `r` holds joints that bring the hand to this place and turn.
    pub open spec fn is_inverse_kinematics(&self, guide: Joints<F>, params: Params<F>, r: Joints<F>)
        -> bool {
        exists|t: ArmTrig<F>| #[trigger] self.joints_rel(guide, params, t, r)
    }

    fn first_angle(guide: &ConfigState<F>, p3: &[F; 4]) -> (r: Angle<F>)
        ensures
            is_first_angle(guide.a1@, *p3, r@),
    {
        let zero = F::from_i32(0);
        if !p3[0].eq(zero) || !p3[1].eq(zero) {
            let arc = p3[1].atan2(p3[0]);
            let a1_abs = Angle::from_rad(arc.abs());
            let c1 = a1_abs.cos();

            let a1_mod_pi = if zero.lt(c1.mul(p3[0])) {
                if zero.lt(p3[1]) {
                    a1_abs
                } else {
                    a1_abs.neg()
                }
            } else {
                if zero.lt(p3[1]) {
                    a1_abs.neg()
                } else {
                    a1_abs
                }
            };

            let r = guide.a1.closest(a1_mod_pi, a1_mod_pi.add(Angle::pi_rad()));
            assert(p3[1].atan2_rel(p3[0], arc) && wrap_spec(arc.abs_spec()).cos_rel(c1) && r@
                == first_angle_from_spec(guide.a1@, *p3, arc, c1));
            r
        } else {
            guide.a1
        }
    }

    fn elbow_sum(guide: &ConfigState<F>, d4x: &[F; 4], s1: F, c1: F) -> (r: Angle<F>)
        ensures
            is_elbow_sum(guide@, *d4x, s1, c1, r@),
    {
        let zero = F::from_i32(0);
        let icjs = d4x[0].mul(c1).add(d4x[1].mul(s1));
        assert(icjs == along_first_spec(*d4x, s1, c1));
        if d4x[2].eq(zero) && icjs.eq(zero) {
            let r = guide.a2.add(guide.a3);
            assert(is_elbow_sum(guide@, *d4x, s1, c1, r@));
            r
        } else {
            let arc = d4x[2].atan2(icjs.neg());
            let a23_mod_pi = Angle::from_rad(arc);
            let r = guide.a2.add(guide.a3).closest(a23_mod_pi, a23_mod_pi.add(Angle::pi_rad()));
            assert(d4x[2].atan2_rel(icjs.neg_spec(), arc) && r@ == nearer_spec(
                sum_spec(guide@.a2, guide@.a3),
                wrap_spec(arc),
            ));
            assert(is_elbow_sum(guide@, *d4x, s1, c1, r@));
            r
        }
    }

    fn shoulder(guide: &ConfigState<F>, span: F, lift: F) -> (r: Angle<F>)
        ensures
            is_shoulder(guide.a2@, span, lift, r@),
    {
        let zero = F::from_i32(0);
        if span.eq(zero) && lift.eq(zero) {
            guide.a2
        } else {
            let arc = lift.atan2(span);
            let r = Angle::from_rad(arc);
            assert(lift.atan2_rel(span, arc) && r@ == wrap_spec(arc));
            r
        }
    }

    fn third_frame(a1: &Angle<F>, a2: &Angle<F>, a3: &Angle<F>) -> (r: Matrix4<F>)
        ensures
            is_third_frame(a1@, a2@, a3@, r),
    {
        let z = rotate_z(a1.rad());
        let y_2 = rotate_y(a2.rad());
        let y_3 = rotate_y(a3.rad());
        let r = z.mul(&y_2).mul(&y_3);
        assert(is_rotate_z(a1@, z) && is_rotate_y(a2@, y_2) && is_rotate_y(a3@, y_3));
        r
    }

    /// The joints that bring the hand to this place and turn, for links of
    /// the lengths `params`. Where several do, those nearest to `guide`.
    pub fn inverse_kinematics(&self, guide: &ConfigState<F>, params: &Params<F>) -> (r:
        ConfigState<F>)
        ensures
            self.is_inverse_kinematics(guide@, *params, r@),
    {
        let one = F::from_i32(1);
        let zero = F::from_i32(0);
        // Effector is at p4, its axes are i5, j5 and k5
        let turn = self.rotation.to_homogeneous();
        let d4x = axis(&turn, &[one, zero, zero, zero]);
        let p3 = [
            self.position.x.sub(params.l4.mul(d4x[0])),
            self.position.y.sub(params.l4.mul(d4x[1])),
            self.position.z.sub(params.l4.mul(d4x[2])),
            one.sub(params.l4.mul(d4x[3])),
        ];

        let a1 = Self::first_angle(guide, &p3);
        let s1 = a1.sin();
        let c1 = a1.cos();

        // a2 + a3
        let a23 = Self::elbow_sum(guide, &d4x, s1, c1);
        let s23 = a23.sin();
        let c23 = a23.cos();

        let y_a2 = params.l1.sub(params.l3.mul(c23)).sub(p3[2]);
        let x_a2 = (if c1.abs().lt(s1.abs()) {
            p3[1].div(s1)
        } else {
            p3[0].div(c1)
        }).add(params.l3.mul(s23));

        let a2 = Self::shoulder(guide, x_a2, y_a2);
        let s2 = a2.sin();
        let c2 = a2.cos();

        let a3 = a23.sub(a2);

        let q2 = if c2.abs().lt(s2.abs()) {
            y_a2.div(s2)
        } else {
            x_a2.div(c2)
        };

        let frame = Self::third_frame(&a1, &a2, &a3);
        let d3x = axis(&frame, &[one, zero, zero, zero]);
        let d3z = axis(&frame, &[zero, zero, one, zero]);

        let a4 = twist(&d3x, &d4x, &d3z);

        // Rotation 4 is around Z axis
        let d5z = axis(&turn, &[zero, zero, one, zero]);
        let a5 = twist(&d3z, &d5z, &d4x);

        let r = ConfigState { a1, a2, a3, a4, a5, q2 };
        proof {
            let t = ArmTrig { s1, c1, a23: a23@, s23, c23, s2, c2, frame };
            assert(d4x == self.hand_x_spec());
            assert(d5z == self.hand_z_spec());
            assert(p3 == self.wrist_spec(*params));
            assert(self.joints_rel(guide@, *params, t, r@));
        }
        r
    }
}

impl<F: Float> ConfigState<F> {
    /// The joints that bring the hand to `next_position`, nearest to these.
    pub fn next_config(&self, next_position: &SceneState<F>, params: &Params<F>) -> (r: Self)
        ensures
            next_position.is_inverse_kinematics(self@, *params, r@),
    {
        next_position.inverse_kinematics(self, params)
    }
}

} // verus!
