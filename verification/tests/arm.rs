use phyesthon::numerics::angle::Angle;
use phyesthon::numerics::linalg::{Matrix4, Vector3};
use phyesthon::numerics::rotations::{EulerAngles, Quaternion, Rotation};
use phyesthon::numerics::Float;
use phyesthon::presenters::hodograph::{Hodograph, HodographBuilder};
use phyesthon::presenters::quaternions::{
    euler_keyframe, euler_keyframes, frame_time, place, quaternion_keyframe, quaternion_keyframes,
    Quaternions, QuaternionsBuilder,
};
use phyesthon::simulators::puma::{ConfigState, Params, SceneState, Turns};

#[derive(Clone, Copy, Debug, PartialEq)]
struct Real(f64);

impl Float for Real {
    fn from_i32_spec(n: i32) -> Self {
        Self::from_i32(n)
    }

    fn from_i32(n: i32) -> Self {
        Real(f64::from(n))
    }

    fn pi_spec() -> Self {
        Self::pi()
    }

    fn pi() -> Self {
        Real(std::f64::consts::PI)
    }

    fn epsilon_spec() -> Self {
        Self::epsilon()
    }

    fn epsilon() -> Self {
        Real(f64::EPSILON)
    }

    fn add_spec(self, rhs: Self) -> Self {
        self.add(rhs)
    }

    fn add(self, rhs: Self) -> Self {
        Real(self.0 + rhs.0)
    }

    fn sub_spec(self, rhs: Self) -> Self {
        self.sub(rhs)
    }

    fn sub(self, rhs: Self) -> Self {
        Real(self.0 - rhs.0)
    }

    fn mul_spec(self, rhs: Self) -> Self {
        self.mul(rhs)
    }

    fn mul(self, rhs: Self) -> Self {
        Real(self.0 * rhs.0)
    }

    fn div_spec(self, rhs: Self) -> Self {
        self.div(rhs)
    }

    fn div(self, rhs: Self) -> Self {
        Real(self.0 / rhs.0)
    }

    fn rem_spec(self, rhs: Self) -> Self {
        self.rem(rhs)
    }

    fn rem(self, rhs: Self) -> Self {
        Real(self.0 % rhs.0)
    }

    fn neg_spec(self) -> Self {
        self.neg()
    }

    fn neg(self) -> Self {
        Real(-self.0)
    }

    fn abs_spec(self) -> Self {
        self.abs()
    }

    fn abs(self) -> Self {
        Real(self.0.abs())
    }

    fn sqrt_spec(self) -> Self {
        self.sqrt()
    }

    fn sqrt(self) -> Self {
        Real(self.0.sqrt())
    }

    fn parse_spec(text: Vec<u8>) -> Option<Self> {
        Self::parse(&text)
    }

    fn parse(text: &[u8]) -> Option<Self> {
        std::str::from_utf8(text).ok()?.parse::<f64>().ok().map(Real)
    }

    fn floor_u32_spec(self) -> u32 {
        self.floor_u32()
    }

    fn floor_u32(self) -> u32 {
        self.0.floor() as u32
    }

    fn ceil_u32_spec(self) -> u32 {
        self.ceil_u32()
    }

    fn ceil_u32(self) -> u32 {
        self.0.ceil() as u32
    }

    fn round_u32_spec(self) -> u32 {
        self.round_u32()
    }

    fn round_u32(self) -> u32 {
        self.0.round() as u32
    }

    fn lt_spec(self, rhs: Self) -> bool {
        self.lt(rhs)
    }

    fn lt(self, rhs: Self) -> bool {
        self.0 < rhs.0
    }

    fn eq_spec(self, rhs: Self) -> bool {
        self.eq(rhs)
    }

    fn eq(self, rhs: Self) -> bool {
        self.0 == rhs.0
    }

    fn sin_rel(self, r: Self) -> bool {
        r.0.abs() <= 1.0
    }

    fn sin(self) -> Self {
        Real(self.0.sin())
    }

    fn cos_rel(self, r: Self) -> bool {
        r.0.abs() <= 1.0
    }

    fn cos(self) -> Self {
        Real(self.0.cos())
    }

    fn asin_rel(self, _r: Self) -> bool {
        true
    }

    fn asin(self) -> Self {
        Real(self.0.asin())
    }

    fn acos_rel(self, _r: Self) -> bool {
        true
    }

    fn acos(self) -> Self {
        Real(self.0.acos())
    }

    fn atan2_rel(self, _x: Self, _r: Self) -> bool {
        true
    }

    fn atan2(self, x: Self) -> Self {
        Real(self.0.atan2(x.0))
    }
}

fn close(a: f64, b: f64, tolerance: f64) -> bool {
    (a - b).abs() <= tolerance
}

const PI: f64 = std::f64::consts::PI;

fn v3(x: f64, y: f64, z: f64) -> Vector3<Real> {
    Vector3 { x: Real(x), y: Real(y), z: Real(z) }
}

fn quat(w: f64, x: f64, y: f64, z: f64) -> Quaternion<Real> {
    Quaternion([Real(w), Real(x), Real(y), Real(z)])
}

fn joints(a: [f64; 5], q2: f64) -> ConfigState<Real> {
    ConfigState {
        a1: Angle::from_rad(Real(a[0])),
        a2: Angle::from_rad(Real(a[1])),
        a3: Angle::from_rad(Real(a[2])),
        a4: Angle::from_rad(Real(a[3])),
        a5: Angle::from_rad(Real(a[4])),
        q2: Real(q2),
    }
}

fn same(a: &Matrix4<Real>, b: &Matrix4<Real>, tolerance: f64) -> bool {
    (0..4).all(|i| (0..4).all(|j| close(a.0[i][j].0, b.0[i][j].0, tolerance)))
}

fn hand(config: &ConfigState<Real>, params: &Params<Real>) -> Matrix4<Real> {
    config.forward_kinematics(params).bone_transforms[4]
}

#[test]
fn arm_starts_stretched_with_a_sliding_link_of_one() {
    let start = ConfigState::<Real>::new();
    assert_eq!(start.q2, Real(1.0));
    assert_eq!(start.a1.rad(), Real(0.0));
    assert_eq!(start.a5.rad(), Real(0.0));
    assert_eq!(ConfigState::<Real>::default().q2, Real(0.0));
    let params = Params::<Real>::default();
    assert_eq!((params.l1, params.l3, params.l4), (Real(3.0), Real(3.0), Real(3.0)));
    let at = hand(&start, &params).transform_point(&v3(0.0, 0.0, 0.0));
    assert!(close(at.x.0, 4.0, 1e-12) && close(at.y.0, 0.0, 1e-12) && close(at.z.0, 0.0, 1e-12));
}

#[test]
fn arm_links_and_joints_are_placed_along_the_chain() {
    let params = Params { l1: Real(3.0), l3: Real(2.0), l4: Real(1.0) };
    let config = joints([PI / 2.0, 0.0, 0.0, 0.0, 0.0], 4.0);
    let shown = config.forward_kinematics(&params);
    let middle = |m: &Matrix4<Real>| {
        let p = m.transform_point(&v3(0.0, 0.0, 0.0));
        [p.x.0, p.y.0, p.z.0]
    };
    let near = |a: [f64; 3], b: [f64; 3]| (0..3).all(|i| close(a[i], b[i], 1e-12));
    assert!(near(middle(&shown.bone_transforms[0]), [0.0, 0.0, 1.5]));
    assert!(near(middle(&shown.bone_transforms[1]), [0.0, 2.0, 3.0]));
    assert!(near(middle(&shown.bone_transforms[2]), [0.0, 4.0, 2.0]));
    assert!(near(middle(&shown.bone_transforms[3]), [0.0, 4.5, 1.0]));
    assert!(near(middle(&shown.bone_transforms[4]), [0.0, 5.0, 1.0]));
    assert!(near(middle(&shown.joint_transforms[0]), [0.0, 0.0, 0.0]));
    assert!(near(middle(&shown.joint_transforms[1]), [0.0, 0.0, 3.0]));
    assert!(near(middle(&shown.joint_transforms[2]), [0.0, 4.0, 3.0]));
    assert!(near(middle(&shown.joint_transforms[3]), [0.0, 4.0, 1.0]));
    assert!(close(shown.joint_transforms[0].0[0][0].0, 0.4, 1e-12));
    let top = shown.bone_transforms[0].transform_point(&v3(0.0, 0.0, 1.0));
    assert!(close(top.z.0, 3.0, 1e-12));
    let thick = shown.bone_transforms[0].transform_point(&v3(1.0, 0.0, 0.0));
    assert!(close((thick.x.0.powi(2) + thick.y.0.powi(2)).sqrt(), 0.1, 1e-12));
}

#[test]
fn arm_forward_from_given_turns() {
    let params = Params { l1: Real(1.0), l3: Real(1.0), l4: Real(1.0) };
    let id = Matrix4::<Real>::identity();
    let turns = Turns {
        f01: id,
        f12: id,
        f23: id,
        f34: id,
        f45: id,
        quarter_y: id,
        half_y: id,
        quarter_x: id,
    };
    let shown = ConfigState::<Real>::new().forward_from(&params, &turns);
    let at = shown.bone_transforms[4].transform_point(&v3(0.0, 0.0, 0.0));
    assert_eq!((at.x, at.y, at.z), (Real(2.0), Real(0.0), Real(0.0)));
}

#[test]
fn arm_inverse_kinematics_brings_the_hand_to_the_scene() {
    let params = Params::<Real>::default();
    let guide = ConfigState::<Real>::new();
    let configs = [
        joints([0.3, 0.2, -0.4, 0.5, 0.1], 2.0),
        joints([-0.8, 0.6, 0.3, -0.2, 0.7], 1.5),
        joints([1.2, -0.3, 0.9, 0.4, -0.6], 3.0),
    ];
    for config in configs {
        let target = hand(&config, &params);
        let at = target.transform_point(&v3(0.0, 0.0, 0.0));
        let x = target.transform_point(&v3(1.0, 0.0, 0.0)).sub(&at);
        let y = target.transform_point(&v3(0.0, 1.0, 0.0)).sub(&at);
        let z = target.transform_point(&v3(0.0, 0.0, 1.0)).sub(&at);
        let w = 0.5 * (1.0 + x.x.0 + y.y.0 + z.z.0).sqrt();
        let rotation = quat(
            w,
            (y.z.0 - z.y.0) / (4.0 * w),
            (z.x.0 - x.z.0) / (4.0 * w),
            (x.y.0 - y.x.0) / (4.0 * w),
        );
        let scene = SceneState::new(at, rotation);
        let found = scene.inverse_kinematics(&guide, &params);
        assert!(same(&hand(&found, &params), &target, 1e-9), "{:?}", found);
        let next = guide.next_config(&scene, &params);
        assert!(same(&hand(&next, &params), &target, 1e-9));
    }
}

#[test]
fn arm_joints_are_interpolated_the_short_way() {
    let a = joints([0.1, 6.0, 1.0, 2.0, 3.0], 1.0);
    let b = joints([0.3, 0.2, 1.0, 2.5, 3.0], 3.0);
    let mid = a.lerp(&b, Real(0.5));
    assert!(close(mid.a1.rad().0, 0.2, 1e-12));
    assert!(close(mid.a2.rad().0, (6.0 - 2.0 * PI + 0.2) / 2.0, 1e-12));
    assert!(close(mid.a3.rad().0, 1.0, 1e-12));
    assert!(close(mid.a4.rad().0, 2.25, 1e-12));
    assert_eq!(mid.q2, Real(2.0));
}

#[test]
fn scene_is_interpolated_in_place_and_turn() {
    let half = 0.5f64.sqrt();
    let a = SceneState::new(v3(0.0, 0.0, 0.0), quat(1.0, 0.0, 0.0, 0.0));
    let b = SceneState::new(v3(2.0, 4.0, -6.0), quat(half, 0.0, 0.0, half));
    let mid = a.interpolate(&b, Real(0.5));
    assert_eq!((mid.position.x, mid.position.y, mid.position.z), (Real(1.0), Real(2.0), Real(-3.0)));
    let eighth = (PI / 8.0).cos();
    assert!(close(mid.rotation.0[0].0, eighth, 1e-12));
    assert!(close(mid.rotation.0[3].0, (PI / 8.0).sin(), 1e-12));
    assert_eq!(v3(1.0, 2.0, 3.0).lerp(&v3(3.0, 2.0, 1.0), Real(0.25)).x, Real(1.5));
}

#[test]
fn keyframes_lead_from_the_start_to_the_end() {
    let start = Rotation::Quaternion(quat(1.0, 0.0, 0.0, 0.0));
    let end = Rotation::EulerAngles(EulerAngles(v3(0.0, 0.0, 90.0)));
    for slerp in [false, true] {
        let way = Quaternions::new(start, v3(0.0, 0.0, 0.0), end, v3(4.0, 0.0, 0.0), slerp, 3);
        assert_eq!(way.keyframes_euler.len(), 5);
        assert_eq!(way.keyframes_quaternion.len(), 5);
        assert_eq!(way.current_time, Real(0.0));
        assert_eq!(way.animation_time, Real(5.0));
        for frames in [&way.keyframes_euler, &way.keyframes_quaternion] {
            assert!(same(&frames[0], &Matrix4::identity(), 1e-12));
            let last = frames[4].transform_point(&v3(1.0, 0.0, 0.0));
            assert!(close(last.x.0, 4.0, 1e-12) && close(last.y.0, 1.0, 1e-12));
            let mid = frames[2].transform_point(&v3(0.0, 0.0, 0.0));
            assert!(close(mid.x.0, 2.0, 1e-12));
        }
        assert!(same(&way.current_euler, &way.keyframes_euler[0], 0.0));
        assert!(same(&way.current_quaternion, &way.keyframes_quaternion[0], 0.0));
    }
    let by_arc = Quaternions::new(start, v3(0.0, 0.0, 0.0), end, v3(0.0, 0.0, 0.0), true, 1);
    let turned = by_arc.keyframes_quaternion[1].transform_point(&v3(1.0, 0.0, 0.0));
    assert!(close(turned.x.0, half_sqrt(), 1e-12) && close(turned.y.0, half_sqrt(), 1e-12));
}

fn half_sqrt() -> f64 {
    0.5f64.sqrt()
}

#[test]
fn animation_runs_from_zero_to_one() {
    let mut builder = QuaternionsBuilder::<Real>::new();
    assert_eq!(builder.keyframes, 0);
    assert!(!builder.slerp);
    builder.end_position = v3(10.0, 0.0, 0.0);
    builder.keyframes = 2;
    let mut way = builder.build();
    assert_eq!(way.keyframes_euler.len(), 4);
    way.update(Real(1.0));
    assert!(close(way.current_time.0, 0.2, 1e-12));
    let at = way.current_quaternion.transform_point(&v3(0.0, 0.0, 0.0));
    assert!(close(at.x.0, 2.0, 1e-12));
    let other = way.current_euler.transform_point(&v3(0.0, 0.0, 0.0));
    assert!(close(other.x.0, 2.0, 1e-12));
    way.update(Real(100.0));
    assert_eq!(way.current_time, Real(1.0));
    way.update(Real(-1000.0));
    assert_eq!(way.current_time, Real(0.0));
    assert_eq!(frame_time::<Real>(1, 3), Real(0.25));
    assert_eq!(frame_time::<Real>(4, 3), Real(1.0));
    assert_eq!(place(&v3(0.0, 0.0, 0.0), &v3(1.0, 2.0, 3.0), Real(0.5)).y, Real(1.0));
}

#[test]
fn single_keyframes() {
    let a = EulerAngles(v3(0.0, 0.0, 350.0));
    let b = EulerAngles(v3(0.0, 0.0, 10.0));
    let frame = euler_keyframe(&a, &v3(0.0, 0.0, 0.0), &b, &v3(0.0, 2.0, 0.0), Real(0.5));
    assert!(same(&frame, &Matrix4::translation(&v3(0.0, 1.0, 0.0)), 1e-12));
    let q = quat(1.0, 0.0, 0.0, 0.0);
    let r = quat(0.0, 0.0, 0.0, 1.0);
    let lerped = quaternion_keyframe(false, &q, &v3(0.0, 0.0, 0.0), &r, &v3(0.0, 0.0, 0.0), Real(0.5));
    let slerped = quaternion_keyframe(true, &q, &v3(0.0, 0.0, 0.0), &r, &v3(0.0, 0.0, 0.0), Real(0.5));
    assert!(same(&lerped, &slerped, 1e-12));
    let turned = lerped.transform_point(&v3(1.0, 0.0, 0.0));
    assert!(close(turned.x.0, 0.0, 1e-12) && close(turned.y.0, 1.0, 1e-12));
    assert_eq!(euler_keyframes(&a, &v3(0.0, 0.0, 0.0), &b, &v3(0.0, 0.0, 0.0), 0).len(), 2);
    assert_eq!(quaternion_keyframes(&q, &v3(0.0, 0.0, 0.0), &r, &v3(0.0, 0.0, 0.0), 7, true).len(), 9);
}

#[test]
fn piston_follows_the_wheel() {
    let mut crank = HodographBuilder::new().build::<Real>();
    assert_eq!(crank.time.len(), 1);
    assert_eq!(crank.x.len(), 1);
    assert!(close(crank.x[0].0, 0.8 + 0.25, 1e-12));
    assert!(close(crank.slide().0, 1.05, 1e-12));
    crank.angle = Real(PI / 2.0);
    let up = crank.slide().0;
    assert!(close(up, (0.8f64 * 0.8 - 0.25 * 0.25).sqrt(), 1e-12));
    crank.angle = Real(PI);
    assert!(close(crank.slide().0, 0.8 - 0.25, 1e-12));
    assert_eq!(crank.crank_from(Real(0.6), Real(0.8)), (Real(0.15), Real(0.2)));
}

#[test]
fn piston_history_grows_with_every_step() {
    let mut crank = Hodograph::<Real>::new();
    assert!(!crank.step_due());
    crank.begin_update(Real(0.035));
    assert!(close(crank.work_left.0, 0.035, 1e-15));
    let mut steps = 0;
    while crank.step_due() {
        crank.step(Real(0.0));
        steps += 1;
    }
    assert_eq!(steps, 3);
    assert!(close(crank.work_left.0, 0.005, 1e-12));
    assert!(close(crank.angle.0, 0.03, 1e-12));
    assert_eq!((crank.time.len(), crank.x.len(), crank.xp.len(), crank.xpp.len()), (4, 4, 2, 0));
    assert!(close(crank.time[3].0, 0.03, 1e-12));
    assert!(close(crank.xp[0].0, (crank.x[2].0 - crank.x[0].0) / 2.0 / 0.01, 1e-12));
    assert!(close(crank.xp[1].0, (crank.x[3].0 - crank.x[1].0) / 2.0 / 0.01, 1e-12));
    crank.step(Real(0.001));
    assert_eq!(crank.error, Real(0.001));
    assert_eq!((crank.x.len(), crank.xp.len(), crank.xpp.len()), (5, 3, 1));
    assert!(close(crank.xpp[0].0, (crank.xp[2].0 - crank.xp[0].0) / 2.0 / 0.01, 1e-9));
}

#[test]
fn piston_history_is_cut_at_its_limit() {
    let mut crank = Hodograph::<Real>::new();
    for _ in 0..10010 {
        crank.step(Real(0.0));
    }
    assert!(crank.xpp.len() <= 10000);
    assert!(crank.xpp.len() >= 9999);
    assert_eq!(crank.time.len(), crank.x.len());
    assert_eq!(crank.xp.len() + 2, crank.x.len());
    assert_eq!(crank.xpp.len() + 2, crank.xp.len());
    assert!(close(crank.time[crank.time.len() - 1].0, 100.1, 1e-6));
}
