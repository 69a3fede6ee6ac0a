use phyesthon::numerics::angle::Angle;
use phyesthon::numerics::kinematics::flat_chain::{ArmTrig, MiddleSolutions, ReverseSolutions, System};
use phyesthon::numerics::linalg::{
    dot4, vec_add, vec_scale, vec_unscale, Matrix3, Matrix4, Vector2, Vector3,
};
use phyesthon::numerics::rect::{between, Rect};
use phyesthon::numerics::rotations::{
    lerp_degrees, rotate_x, rotate_x_from, rotate_y, rotate_y_from, rotate_z, rotate_z_from,
    EulerAngles, Quaternion, Rotation,
};
use phyesthon::numerics::segment::{Orientation, Segment};
use phyesthon::numerics::{
    clamp, is_nan, le, max, min, ratio, rem_euclid, to_degrees, to_radians, Float,
};
use phyesthon::presenters::parametrizable_function::{
    ConstantFunction, FloatFn, ParametrizableFunction, Sine, StepFunction, StepSine,
};

#[derive(Clone, Copy, Debug, PartialEq)]
struct Real(f64);

impl Float for Real {
    fn from_i32_spec(n: i32) -> Self {
        Self::from_i32(n)
    }

    fn from_i32(n: i32) -> Self {
        Real(f64::from(n))
    }

    fn pi_spec() -> Self {
        Self::pi()
    }

    fn pi() -> Self {
        Real(std::f64::consts::PI)
    }

    fn epsilon_spec() -> Self {
        Self::epsilon()
    }

    fn epsilon() -> Self {
        Real(f64::EPSILON)
    }

    fn add_spec(self, rhs: Self) -> Self {
        self.add(rhs)
    }

    fn add(self, rhs: Self) -> Self {
        Real(self.0 + rhs.0)
    }

    fn sub_spec(self, rhs: Self) -> Self {
        self.sub(rhs)
    }

    fn sub(self, rhs: Self) -> Self {
        Real(self.0 - rhs.0)
    }

    fn mul_spec(self, rhs: Self) -> Self {
        self.mul(rhs)
    }

    fn mul(self, rhs: Self) -> Self {
        Real(self.0 * rhs.0)
    }

    fn div_spec(self, rhs: Self) -> Self {
        self.div(rhs)
    }

    fn div(self, rhs: Self) -> Self {
        Real(self.0 / rhs.0)
    }

    fn rem_spec(self, rhs: Self) -> Self {
        self.rem(rhs)
    }

    fn rem(self, rhs: Self) -> Self {
        Real(self.0 % rhs.0)
    }

    fn neg_spec(self) -> Self {
        self.neg()
    }

    fn neg(self) -> Self {
        Real(-self.0)
    }

    fn abs_spec(self) -> Self {
        self.abs()
    }

    fn abs(self) -> Self {
        Real(self.0.abs())
    }

    fn sqrt_spec(self) -> Self {
        self.sqrt()
    }

    fn sqrt(self) -> Self {
        Real(self.0.sqrt())
    }

    fn parse_spec(text: Vec<u8>) -> Option<Self> {
        Self::parse(&text)
    }

    fn parse(text: &[u8]) -> Option<Self> {
        std::str::from_utf8(text).ok()?.parse::<f64>().ok().map(Real)
    }

    fn floor_u32_spec(self) -> u32 {
        self.floor_u32()
    }

    fn floor_u32(self) -> u32 {
        self.0.floor() as u32
    }

    fn ceil_u32_spec(self) -> u32 {
        self.ceil_u32()
    }

    fn ceil_u32(self) -> u32 {
        self.0.ceil() as u32
    }

    fn round_u32_spec(self) -> u32 {
        self.round_u32()
    }

    fn round_u32(self) -> u32 {
        self.0.round() as u32
    }

    fn lt_spec(self, rhs: Self) -> bool {
        self.lt(rhs)
    }

    fn lt(self, rhs: Self) -> bool {
        self.0 < rhs.0
    }

    fn eq_spec(self, rhs: Self) -> bool {
        self.eq(rhs)
    }

    fn eq(self, rhs: Self) -> bool {
        self.0 == rhs.0
    }

    fn sin_rel(self, r: Self) -> bool {
        r.0.abs() <= 1.0
    }

    fn sin(self) -> Self {
        Real(self.0.sin())
    }

    fn cos_rel(self, r: Self) -> bool {
        r.0.abs() <= 1.0
    }

    fn cos(self) -> Self {
        Real(self.0.cos())
    }

    fn asin_rel(self, _r: Self) -> bool {
        true
    }

    fn asin(self) -> Self {
        Real(self.0.asin())
    }

    fn acos_rel(self, _r: Self) -> bool {
        true
    }

    fn acos(self) -> Self {
        Real(self.0.acos())
    }

    fn atan2_rel(self, _x: Self, _r: Self) -> bool {
        true
    }

    fn atan2(self, x: Self) -> Self {
        Real(self.0.atan2(x.0))
    }
}

fn close(a: f64, b: f64, tolerance: f64) -> bool {
    (a - b).abs() <= tolerance
}

const PI: f64 = std::f64::consts::PI;

fn quat(w: f64, x: f64, y: f64, z: f64) -> Quaternion<Real> {
    Quaternion([Real(w), Real(x), Real(y), Real(z)])
}

fn v3(x: f64, y: f64, z: f64) -> Vector3<Real> {
    Vector3 { x: Real(x), y: Real(y), z: Real(z) }
}

fn v2(x: f64, y: f64) -> Vector2<Real> {
    Vector2 { x: Real(x), y: Real(y) }
}

fn euler(x: f64, y: f64, z: f64) -> EulerAngles<Real> {
    EulerAngles(v3(x, y, z))
}

fn norm(q: &Quaternion<Real>) -> f64 {
    q.0.iter().map(|c| c.0 * c.0).sum::<f64>().sqrt()
}

fn same_rotation(a: &Quaternion<Real>, b: &Quaternion<Real>, tolerance: f64) -> bool {
    let plus = (0..4).all(|i| close(a.0[i].0, b.0[i].0, tolerance));
    let minus = (0..4).all(|i| close(a.0[i].0, -b.0[i].0, tolerance));
    plus || minus
}

fn circle_close(a: f64, b: f64, tolerance: f64) -> bool {
    let d = (a - b).rem_euclid(2.0 * PI);
    d <= tolerance || 2.0 * PI - d <= tolerance
}

fn about_z(degrees: f64) -> Quaternion<Real> {
    let half = degrees.to_radians() / 2.0;
    quat(half.cos(), 0.0, 0.0, half.sin())
}

#[test]
fn rem_euclid_is_never_negative() {
    assert_eq!(rem_euclid(Real(-1.0), Real(360.0)), Real(359.0));
    assert_eq!(rem_euclid(Real(725.0), Real(360.0)), Real(5.0));
    assert_eq!(rem_euclid(Real(-1.0), Real(-360.0)), Real(359.0));
    assert_eq!(rem_euclid(Real(0.0), Real(360.0)), Real(0.0));
}

#[test]
fn min_and_max_pass_over_what_is_not_a_number() {
    assert_eq!(min(Real(1.0), Real(2.0)), Real(1.0));
    assert_eq!(min(Real(2.0), Real(1.0)), Real(1.0));
    assert_eq!(max(Real(1.0), Real(2.0)), Real(2.0));
    assert_eq!(max(Real(2.0), Real(1.0)), Real(2.0));
    assert_eq!(min(Real(f64::NAN), Real(1.0)), Real(1.0));
    assert_eq!(max(Real(f64::NAN), Real(1.0)), Real(1.0));
    assert_eq!(min(Real(1.0), Real(f64::NAN)), Real(1.0));
    assert_eq!(max(Real(1.0), Real(f64::NAN)), Real(1.0));
    assert!(is_nan(Real(f64::NAN)));
    assert!(!is_nan(Real(0.0)));
}

#[test]
fn clamp_moves_to_the_nearer_bound() {
    assert_eq!(clamp(Real(3.0), Real(-1.0), Real(1.0)), Real(1.0));
    assert_eq!(clamp(Real(-3.0), Real(-1.0), Real(1.0)), Real(-1.0));
    assert_eq!(clamp(Real(0.25), Real(-1.0), Real(1.0)), Real(0.25));
}

#[test]
fn le_holds_for_equal_scalars_and_fails_for_not_a_number() {
    assert!(le(Real(1.0), Real(1.0)));
    assert!(le(Real(1.0), Real(2.0)));
    assert!(!le(Real(2.0), Real(1.0)));
    assert!(!le(Real(f64::NAN), Real(1.0)));
}

#[test]
fn ratio_rounds_once() {
    assert_eq!(ratio::<Real>(1, 2), Real(0.5));
    assert_eq!(ratio::<Real>(2, 3), Real(2.0 / 3.0));
    assert_eq!(ratio::<Real>(1, 100), Real(0.01));
}

#[test]
fn degrees_and_radians_convert_as_the_standard_library_does() {
    for d in [0.0, 1.0, 45.0, 90.0, 123.456, -270.0] {
        assert_eq!(to_radians(Real(d)), Real(f64::to_radians(d)));
    }
    for a in [0.0, 1.0, PI, -0.3] {
        assert_eq!(to_degrees(Real(a)), Real(f64::to_degrees(a)));
    }
}

#[test]
fn angle_is_the_same_after_whole_turns() {
    for a in [0.1, 1.0, 2.5, 3.0, 4.0, 6.0, -0.7] {
        for k in -3..=3 {
            let one = Angle::from_rad(Real(a));
            let other = Angle::from_rad(Real(a + 2.0 * PI * f64::from(k)));
            assert!(circle_close(one.rad().0, other.rad().0, 1e-9), "{} {}", a, k);
            assert!(one.rad().0 >= 0.0 && one.rad().0 < 2.0 * PI);
        }
    }
}

#[test]
fn angle_distance_is_symmetric_and_at_most_half_a_turn() {
    let samples = [0.0, 0.3, 1.0, 2.0, 3.0, PI, 4.0, 5.5, 6.2];
    for a in samples {
        for b in samples {
            let x = Angle::from_rad(Real(a));
            let y = Angle::from_rad(Real(b));
            let forth = x.dist(y).rad().0;
            let back = y.dist(x).rad().0;
            assert!(close(forth, back, 1e-12), "{} {}", a, b);
            assert!(forth >= 0.0 && forth <= PI + 1e-12, "{} {} {}", a, b, forth);
        }
    }
}

#[test]
fn angle_distance_goes_the_short_way() {
    let a = Angle::from_deg(Real(350.0));
    let b = Angle::from_deg(Real(10.0));
    assert!(close(a.dist(b).deg().0, 20.0, 1e-9));
    assert!(close(b.dist(a).deg().0, 20.0, 1e-9));
}

#[test]
fn angle_from_degrees_wraps() {
    assert!(close(Angle::from_deg(Real(370.0)).deg().0, 10.0, 1e-9));
    assert!(close(Angle::from_deg(Real(-90.0)).deg().0, 270.0, 1e-9));
    assert!(close(Angle::from_rad(Real(-PI / 2.0)).rad().0, 1.5 * PI, 1e-12));
}

#[test]
fn angle_setters_store_without_wrapping() {
    let mut a = Angle::from_rad(Real(0.0));
    a.set_rad(Real(7.0));
    assert_eq!(a.rad(), Real(7.0));
    a.set_deg(Real(720.0));
    assert!(close(a.rad().0, 4.0 * PI, 1e-12));
}

#[test]
fn angle_sine_and_cosine() {
    let a = Angle::from_deg(Real(30.0));
    assert!(close(a.sin().0, 0.5, 1e-12));
    assert!(close(a.cos().0, 3.0f64.sqrt() / 2.0, 1e-12));
}

#[test]
fn angle_lerp_takes_the_short_way_round() {
    let a = Angle::from_deg(Real(350.0));
    let b = Angle::from_deg(Real(10.0));
    let mid = a.lerp(b, Real(0.5));
    assert!(circle_close(mid.rad().0, 0.0, 1e-9));
    let back = b.lerp(a, Real(0.25));
    assert!(circle_close(back.rad().0, 5.0f64.to_radians(), 1e-9));
    let plain = Angle::from_deg(Real(10.0)).lerp(Angle::from_deg(Real(50.0)), Real(0.25));
    assert!(close(plain.deg().0, 20.0, 1e-9));
}

#[test]
fn angle_sum_difference_and_negative_wrap() {
    let a = Angle::from_deg(Real(200.0));
    let b = Angle::from_deg(Real(300.0));
    assert!(close(a.add(b).deg().0, 140.0, 1e-9));
    assert!(close(a.sub(b).deg().0, 260.0, 1e-9));
    assert!(close(a.neg().deg().0, 160.0, 1e-9));
}

#[test]
fn angle_closest_picks_the_nearer_and_the_first_on_a_tie() {
    let me = Angle::from_deg(Real(10.0));
    let near = Angle::from_deg(Real(350.0));
    let far = Angle::from_deg(Real(90.0));
    assert_eq!(me.closest(near, far).rad(), near.rad());
    assert_eq!(me.closest(far, near).rad(), near.rad());
    let left = Angle::from_rad(Real(1.0));
    let right = Angle::from_rad(Real(3.0));
    assert_eq!(Angle::from_rad(Real(2.0)).closest(left, right).rad(), left.rad());
}

#[test]
fn angle_pi_rad_and_default() {
    assert_eq!(Angle::<Real>::pi_rad().rad(), Real(PI));
    assert_eq!(Angle::<Real>::default().rad(), Real(0.0));
}

#[test]
fn quaternion_product_follows_hamilton() {
    let i = quat(0.0, 1.0, 0.0, 0.0);
    let j = quat(0.0, 0.0, 1.0, 0.0);
    let k = quat(0.0, 0.0, 0.0, 1.0);
    assert_eq!(i.mul(&j).0, k.0);
    assert_eq!(j.mul(&i).0, k.neg().0);
    assert_eq!(j.mul(&k).0, i.0);
    assert_eq!(k.mul(&i).0, j.0);
    assert_eq!(i.mul(&i).0, quat(-1.0, 0.0, 0.0, 0.0).0);
    let a = quat(1.0, 2.0, 3.0, 4.0);
    let b = quat(5.0, 6.0, 7.0, 8.0);
    assert_eq!(a.mul(&b).0, quat(-60.0, 12.0, 30.0, 24.0).0);
}

#[test]
fn quaternion_conjugate_negative_and_zero() {
    let a = quat(1.0, 2.0, 3.0, 4.0);
    assert_eq!(a.conjugate().0, quat(1.0, -2.0, -3.0, -4.0).0);
    assert_eq!(a.neg().0, quat(-1.0, -2.0, -3.0, -4.0).0);
    assert!(!a.is_zero());
    assert!(quat(0.0, 0.0, 0.0, 0.0).is_zero());
    assert!(quat(0.0, -0.0, 0.0, 0.0).is_zero());
    assert!(!quat(0.0, 0.0, 0.0, 1e-300).is_zero());
    assert_eq!(a.vector().y, Real(3.0));
}

#[test]
fn quaternion_normalize_divides_by_the_length() {
    let a = quat(1.0, 2.0, 2.0, 4.0);
    assert_eq!(a.norm(), Real(5.0));
    assert_eq!(a.normalize().0, quat(0.2, 0.4, 0.4, 0.8).0);
    assert_eq!(Quaternion::<Real>::identity().0, quat(1.0, 0.0, 0.0, 0.0).0);
}

#[test]
fn quaternion_stays_of_unit_length_through_interpolation() {
    let mut q = quat(1.0, 2.0, 3.0, 4.0).normalize();
    let others = [
        quat(0.3, -0.2, 0.9, 0.1),
        quat(-1.0, 0.5, 0.0, 0.2),
        quat(0.0, 0.0, 1.0, 0.0),
        quat(0.7, 0.7, 0.0, 0.0),
        about_z(179.0),
    ];
    let mut t = 0.05;
    for round in 0..40 {
        let other = others[round % others.len()].normalize();
        q = if round % 2 == 0 { q.slerp(&other, Real(t)) } else { q.lerp(&other, Real(t)) };
        q = q.normalize();
        assert!(close(norm(&q), 1.0, 1e-9), "round {}: {}", round, norm(&q));
        t = (t + 0.17) % 1.0;
    }
}

#[test]
fn lerp_of_two_zero_quaternions_is_the_identity() {
    let zero = quat(0.0, 0.0, 0.0, 0.0);
    assert_eq!(zero.lerp(&zero, Real(0.3)).0, quat(1.0, 0.0, 0.0, 0.0).0);
}

#[test]
fn lerp_reaches_both_ends() {
    let a = about_z(10.0);
    let b = about_z(80.0);
    assert!(same_rotation(&a.lerp(&b, Real(0.0)), &a, 1e-12));
    assert!(same_rotation(&a.lerp(&b, Real(1.0)), &b, 1e-12));
    let mid = a.lerp(&b, Real(0.5));
    assert!(same_rotation(&mid, &about_z(45.0), 1e-12));
}

#[test]
fn lerp_of_opposite_quaternions_steps_off_the_middle() {
    let a = quat(1.0, 0.0, 0.0, 0.0);
    let b = quat(-1.0, 0.0, 0.0, 0.0);
    let mid = a.lerp(&b, Real(0.5));
    assert!(close(norm(&mid), 1.0, 1e-9));
    assert!(same_rotation(&mid, &a, 1e-12));
    let c = quat(0.0, 0.6, 0.0, 0.8);
    let other = c.lerp(&c.neg(), Real(0.5));
    assert!(close(norm(&other), 1.0, 1e-9));
}

#[test]
fn slerp_reaches_both_ends_and_halves_the_arc() {
    let a = about_z(0.0);
    let b = about_z(90.0);
    assert!(same_rotation(&a.slerp(&b, Real(0.0)), &a, 1e-12));
    assert!(same_rotation(&a.slerp(&b, Real(1.0)), &b, 1e-12));
    assert!(same_rotation(&a.slerp(&b, Real(0.5)), &about_z(45.0), 1e-12));
    assert!(same_rotation(&a.slerp(&b, Real(1.0 / 3.0)), &about_z(30.0), 1e-12));
}

#[test]
fn slerp_takes_the_short_arc() {
    let a = about_z(0.0);
    let b = about_z(300.0);
    let mid = a.slerp(&b, Real(0.5));
    assert!(same_rotation(&mid, &about_z(330.0), 1e-12));
    let quarter = a.slerp(&b, Real(0.25));
    assert!(same_rotation(&quarter, &about_z(345.0), 1e-12));
}

#[test]
fn slerp_of_nearly_equal_quaternions_falls_back_to_lerp() {
    let a = about_z(20.0);
    let out = a.slerp(&a, Real(0.4));
    assert!(same_rotation(&out, &a, 1e-12));
    assert!(Quaternion::<Real>::arc_is_short(Real(1e-15)));
    assert!(Quaternion::<Real>::arc_is_short(Real(-1e-15)));
    assert!(!Quaternion::<Real>::arc_is_short(Real(1e-3)));
}

#[test]
fn slerp_from_uses_the_sines_it_is_given() {
    let a = quat(1.0, 0.0, 0.0, 0.0);
    let b = quat(0.0, 0.0, 0.0, 1.0);
    let out = a.slerp_from(&b, Real(0.5), Real(1.0), Real(0.6), Real(0.8));
    assert_eq!(out.0, quat(0.6, 0.0, 0.0, 0.8).0);
}

#[test]
fn quaternion_turns_vectors() {
    let q = about_z(90.0);
    let turned = q.rotate_vector(&v3(1.0, 0.0, 0.0));
    assert!(close(turned.x.0, 0.0, 1e-12));
    assert!(close(turned.y.0, 1.0, 1e-12));
    assert!(close(turned.z.0, 0.0, 1e-12));
    let m = q.to_rotation_matrix();
    let by_matrix = m.mul_vec(&v3(1.0, 0.0, 0.0));
    assert!(close(by_matrix.x.0, 0.0, 1e-12));
    assert!(close(by_matrix.y.0, 1.0, 1e-12));
    let h = q.to_homogeneous();
    assert!(close(h.0[0][0].0, 0.0, 1e-12));
    assert!(close(h.0[1][0].0, 1.0, 1e-12));
    assert!(close(h.0[0][1].0, -1.0, 1e-12));
    assert!(close(h.0[2][2].0, 1.0, 1e-12));
    assert_eq!(h.0[3][3], Real(1.0));
    assert_eq!(h.0[0][3], Real(0.0));
    assert_eq!(h.0[3][0], Real(0.0));
}

#[test]
fn euler_angles_and_quaternion_go_round() {
    let cases = [(30.0, 40.0, 50.0), (10.0, -20.0, 200.0), (300.0, 60.0, 5.0), (0.0, 0.0, 0.0)];
    for (x, y, z) in cases {
        let q = euler(x, y, z).to_quaternion();
        assert!(close(norm(&q), 1.0, 1e-12));
        let back = q.to_euler().to_quaternion();
        assert!(same_rotation(&q, &back, 1e-9), "{:?} {:?} {:?}", (x, y, z), q, back);
    }
    let q = quat(0.5, -0.1, 0.7, 0.2).normalize();
    assert!(same_rotation(&q, &q.to_euler().to_quaternion(), 1e-9));
}

#[test]
fn to_euler_gives_degrees_within_one_turn() {
    let e = euler(30.0, 40.0, 50.0).to_quaternion().to_euler();
    assert!(close(e.0.x.0, 30.0, 1e-9));
    assert!(close(e.0.y.0, 40.0, 1e-9));
    assert!(close(e.0.z.0, 50.0, 1e-9));
    let wrapped = euler(0.0, -40.0, 0.0).to_quaternion().to_euler();
    assert!(close(wrapped.0.y.0, 320.0, 1e-9));
}

#[test]
fn euler_quaternion_about_one_axis() {
    let q = euler(0.0, 0.0, 90.0).to_quaternion();
    assert!(same_rotation(&q, &about_z(90.0), 1e-12));
    let x = euler(90.0, 0.0, 0.0).to_quaternion();
    let half = (0.5f64).sqrt();
    assert!(same_rotation(&x, &quat(half, half, 0.0, 0.0), 1e-12));
}

#[test]
fn quaternion_from_half_angle_values() {
    let q = EulerAngles::quaternion_from(&v3(1.0, 1.0, 0.0), &v3(0.0, 0.0, 1.0));
    assert_eq!(q.0, quat(0.0, 0.0, 0.0, 1.0).0);
    let halves = euler(90.0, 180.0, 360.0).half_angles();
    assert!(close(halves.x.0, PI / 4.0, 1e-12));
    assert!(close(halves.y.0, PI / 2.0, 1e-12));
    assert!(close(halves.z.0, PI, 1e-12));
}

#[test]
fn euler_lerp_goes_the_short_way_on_each_axis() {
    let a = euler(350.0, 10.0, 100.0);
    let b = euler(10.0, 350.0, 200.0);
    let mid = a.lerp(&b, Real(0.5));
    assert!(close(mid.0.x.0, 0.0, 1e-9));
    assert!(close(mid.0.y.0, 0.0, 1e-9));
    assert!(close(mid.0.z.0, 150.0, 1e-9));
    let quarter = a.lerp(&b, Real(0.25));
    assert!(close(quarter.0.x.0, -5.0, 1e-9));
    assert!(close(quarter.0.y.0, 5.0, 1e-9));
    assert!(close(quarter.0.z.0, 125.0, 1e-9));
    assert_eq!(lerp_degrees(Real(0.0), Real(180.0), Real(0.5)), Real(90.0));
}

#[test]
fn euler_normalize_brings_each_angle_into_one_turn() {
    let e = euler(-10.0, 370.0, 720.5).normalize();
    assert_eq!(e.0.x, Real(350.0));
    assert_eq!(e.0.y, Real(10.0));
    assert_eq!(e.0.z, Real(0.5));
}

#[test]
fn euler_matrix_is_the_product_of_the_three_turns() {
    let m = euler(0.0, 0.0, 90.0).to_homogeneous();
    assert!(close(m.0[0][0].0, 0.0, 1e-12));
    assert!(close(m.0[0][1].0, -1.0, 1e-12));
    assert!(close(m.0[1][0].0, 1.0, 1e-12));
    assert!(close(m.0[2][2].0, 1.0, 1e-12));
    let e = euler(20.0, 30.0, 40.0);
    let q = e.to_quaternion().to_homogeneous();
    let h = e.to_homogeneous();
    for i in 0..4 {
        for j in 0..4 {
            assert!(close(q.0[i][j].0, h.0[i][j].0, 1e-12), "{} {}", i, j);
        }
    }
}

#[test]
fn rotations_about_the_axes() {
    let x = rotate_x(Real(PI / 2.0));
    assert_eq!(x.0[0][0], Real(1.0));
    assert!(close(x.0[1][2].0, -1.0, 1e-12));
    assert!(close(x.0[2][1].0, 1.0, 1e-12));
    assert!(close(x.0[1][1].0, 0.0, 1e-12));
    let y = rotate_y(Real(PI / 2.0));
    assert_eq!(y.0[1][1], Real(1.0));
    assert!(close(y.0[0][2].0, 1.0, 1e-12));
    assert!(close(y.0[2][0].0, -1.0, 1e-12));
    let z = rotate_z(Real(PI / 2.0));
    assert_eq!(z.0[2][2], Real(1.0));
    assert!(close(z.0[0][1].0, -1.0, 1e-12));
    assert!(close(z.0[1][0].0, 1.0, 1e-12));
    assert_eq!(z.0[3][3], Real(1.0));
    let from = rotate_x_from(Real(0.6), Real(0.8));
    assert_eq!(from.0[1], [Real(0.0), Real(0.6), Real(-0.8), Real(0.0)]);
    assert_eq!(rotate_y_from(Real(0.6), Real(0.8)).0[2], [Real(-0.8), Real(0.0), Real(0.6), Real(0.0)]);
    assert_eq!(rotate_z_from(Real(0.6), Real(0.8)).0[0], [Real(0.6), Real(-0.8), Real(0.0), Real(0.0)]);
}

#[test]
fn rotation_is_either_form_and_normalizes_in_kind() {
    let q = Rotation::Quaternion(quat(0.0, 0.0, 0.0, 2.0));
    match q.normalize() {
        Rotation::Quaternion(n) => assert_eq!(n.0, quat(0.0, 0.0, 0.0, 1.0).0),
        Rotation::EulerAngles(_) => panic!("a quaternion stays a quaternion"),
    }
    let e = Rotation::EulerAngles(euler(-90.0, 0.0, 0.0));
    match e.normalize() {
        Rotation::EulerAngles(n) => assert_eq!(n.0.x, Real(270.0)),
        Rotation::Quaternion(_) => panic!("angles stay angles"),
    }
    assert_eq!(q.to_quaternion().0, quat(0.0, 0.0, 0.0, 2.0).0);
    assert_eq!(e.to_euler_angles().0.x, Real(-90.0));
    assert!(same_rotation(&Rotation::EulerAngles(euler(0.0, 0.0, 90.0)).to_quaternion(), &about_z(90.0), 1e-12));
    let angles = Rotation::Quaternion(about_z(90.0)).to_euler_angles();
    assert!(close(angles.0.z.0, 90.0, 1e-9));
    match Rotation::<Real>::default() {
        Rotation::Quaternion(d) => assert_eq!(d.0, quat(1.0, 0.0, 0.0, 0.0).0),
        Rotation::EulerAngles(_) => panic!("the default is a quaternion"),
    }
}

#[test]
fn vector_arithmetic() {
    let a = v3(1.0, 2.0, 3.0);
    let b = v3(4.0, 5.0, 6.0);
    assert_eq!(a.add(&b).x, Real(5.0));
    assert_eq!(a.sub(&b).z, Real(-3.0));
    assert_eq!(a.neg().y, Real(-2.0));
    assert_eq!(a.scale(Real(2.0)).z, Real(6.0));
    assert_eq!(b.unscale(Real(2.0)).x, Real(2.0));
    assert_eq!(a.dot(&b), Real(32.0));
    let c = a.cross(&b);
    assert_eq!((c.x, c.y, c.z), (Real(-3.0), Real(6.0), Real(-3.0)));
    assert_eq!(v3(3.0, 4.0, 12.0).norm(), Real(13.0));
    assert_eq!(v3(0.0, 3.0, 4.0).normalize().z, Real(0.8));
    assert_eq!(Vector3::<Real>::zeros().x, Real(0.0));
    assert_eq!(Vector3::new(Real(1.0), Real(2.0), Real(3.0)).y, Real(2.0));
    assert_eq!(v2(1.0, 2.0).add(&v2(3.0, 5.0)).y, Real(7.0));
    assert_eq!(v2(1.0, 2.0).sub(&v2(3.0, 5.0)).x, Real(-2.0));
    assert_eq!(Vector2::new(Real(1.0), Real(2.0)).x, Real(1.0));
    assert_eq!(vec_add(&vec![Real(1.0), Real(2.0)], &vec![Real(3.0), Real(4.0)]), vec![Real(4.0), Real(6.0)]);
    assert_eq!(vec_scale(&vec![Real(1.0), Real(2.0)], Real(3.0)), vec![Real(3.0), Real(6.0)]);
    assert_eq!(vec_unscale(&vec![Real(1.0), Real(2.0)], Real(2.0)), vec![Real(0.5), Real(1.0)]);
    assert_eq!(dot4(&[Real(1.0), Real(2.0), Real(3.0), Real(4.0)], &[Real(1.0); 4]), Real(10.0));
}

#[test]
fn matrix_inverse_by_cofactors() {
    let m = Matrix3([
        [Real(2.0), Real(0.0), Real(0.0)],
        [Real(0.0), Real(4.0), Real(0.0)],
        [Real(1.0), Real(0.0), Real(8.0)],
    ]);
    assert_eq!(m.determinant(), Real(64.0));
    assert!(m.invertible());
    let inverse = m.try_inverse().unwrap();
    assert_eq!(inverse.0[0][0], Real(0.5));
    assert_eq!(inverse.0[1][1], Real(0.25));
    assert_eq!(inverse.0[2][2], Real(0.125));
    assert_eq!(inverse.0[2][0], Real(-0.0625));
    let singular = Matrix3([
        [Real(1.0), Real(2.0), Real(3.0)],
        [Real(2.0), Real(4.0), Real(6.0)],
        [Real(0.0), Real(1.0), Real(1.0)],
    ]);
    assert!(!singular.invertible());
    assert!(singular.try_inverse().is_none());
    assert_eq!(Matrix3::<Real>::identity().mul_vec(&v3(1.0, 2.0, 3.0)).z, Real(3.0));
    assert_eq!(m.scale(Real(2.0)).0[2][2], Real(16.0));
    assert_eq!(m.mul_vec(&v3(1.0, 1.0, 1.0)).z, Real(9.0));
    let rows = Matrix3::from_rows(v3(1.0, 2.0, 3.0), v3(4.0, 5.0, 6.0), v3(7.0, 8.0, 9.0));
    assert_eq!(rows.0[1][2], Real(6.0));
}

#[test]
fn axis_angle_constructors() {
    let z = v3(0.0, 0.0, 1.0);
    let m = Matrix3::from_axis_angle_from(&z, Real(1.0), Real(0.0));
    let turned = m.mul_vec(&v3(1.0, 0.0, 0.0));
    assert_eq!((turned.x, turned.y, turned.z), (Real(0.0), Real(1.0), Real(0.0)));
    let q = Quaternion::from_axis_angle_from(&z, Real(0.6), Real(0.8));
    assert_eq!(q.0, quat(0.6, 0.0, 0.0, 0.8).0);
}

#[test]
fn homogeneous_matrices() {
    let t = Matrix4::translation(&v3(1.0, 2.0, 3.0));
    let moved = t.transform_point(&v3(1.0, 1.0, 1.0));
    assert_eq!((moved.x, moved.y, moved.z), (Real(2.0), Real(3.0), Real(4.0)));
    let id = Matrix4::<Real>::identity();
    assert_eq!(id.mul(&t).0, t.0);
    assert_eq!(t.mul(&id).0, t.0);
    assert_eq!(Matrix4::<Real>::zeros().0[2][2], Real(0.0));
    let lin = Matrix4::from_linear(&Matrix3::<Real>::identity().scale(Real(2.0)));
    let both = t.mul(&lin).transform_point(&v3(1.0, 1.0, 1.0));
    assert_eq!((both.x, both.y, both.z), (Real(3.0), Real(4.0), Real(5.0)));
    assert_eq!(t.mul_vec(&[Real(0.0), Real(0.0), Real(0.0), Real(1.0)]), [Real(1.0), Real(2.0), Real(3.0), Real(1.0)]);
    let flat = Matrix4::<Real>::zeros().transform_point(&v3(1.0, 1.0, 1.0));
    assert_eq!((flat.x, flat.y, flat.z), (Real(0.0), Real(0.0), Real(0.0)));
}

#[test]
fn orientation_of_three_points() {
    let a = v2(0.0, 0.0);
    let b = v2(1.0, 0.0);
    assert_eq!(Segment::orientation(a, b, v2(2.0, 0.0)), Orientation::Collinear);
    assert_eq!(Segment::orientation(a, b, v2(1.0, 1.0)), Orientation::Counterclockwise);
    assert_eq!(Segment::orientation(a, b, v2(1.0, -1.0)), Orientation::Clockwise);
}

#[test]
fn segments_that_cross_touch_or_miss() {
    let s = Segment::new(v2(0.0, 0.0), v2(2.0, 2.0));
    assert!(s.intersects(&Segment::new(v2(0.0, 2.0), v2(2.0, 0.0))));
    assert!(!s.intersects(&Segment::new(v2(3.0, 0.0), v2(3.0, 5.0))));
    assert!(s.intersects(&Segment::new(v2(1.0, 1.0), v2(5.0, 1.0))));
    assert!(s.intersects(&Segment::new(v2(2.0, 2.0), v2(3.0, 3.0))));
    assert!(!s.intersects(&Segment::new(v2(3.0, 3.0), v2(4.0, 4.0))));
    assert!(!s.intersects(&Segment::new(v2(0.0, 1.0), v2(1.0, 2.0))));
    assert!(s.contains_point_collinear(&v2(1.0, 1.0)));
    assert!(!s.contains_point_collinear(&v2(3.0, 3.0)));
}

#[test]
fn rectangle_holds_points_whichever_way_its_corners_are_given() {
    let r = Rect { p_1: v2(2.0, 3.0), p_2: v2(0.0, 1.0) };
    assert!(r.contains_point(&v2(1.0, 2.0)));
    assert!(r.contains_point(&v2(0.0, 3.0)));
    assert!(!r.contains_point(&v2(-0.1, 2.0)));
    assert!(!r.contains_point(&v2(1.0, 3.1)));
    assert!(between(Real(2.0), Real(0.0), Real(1.0)));
    assert!(!between(Real(2.0), Real(0.0), Real(3.0)));
}

#[test]
fn segment_against_rectangle() {
    let r = Rect { p_1: v2(0.0, 0.0), p_2: v2(2.0, 2.0) };
    assert!(Segment::new(v2(-1.0, 1.0), v2(3.0, 1.0)).collides_with_rect(&r));
    assert!(Segment::new(v2(0.5, 0.5), v2(1.5, 1.5)).collides_with_rect(&r));
    assert!(Segment::new(v2(1.0, 1.0), v2(5.0, 5.0)).collides_with_rect(&r));
    assert!(!Segment::new(v2(3.0, 0.0), v2(3.0, 2.0)).collides_with_rect(&r));
    assert!(!Segment::new(v2(-1.0, 3.0), v2(3.0, 3.5)).collides_with_rect(&r));
}

#[test]
fn arm_forward_kinematics() {
    let arm = System::new(Real(1.0), Real(1.0));
    let bent = arm.forward_kinematics(&v2(0.0, PI / 2.0));
    assert!(close(bent.p_1.x.0, 1.0, 1e-12) && close(bent.p_1.y.0, 0.0, 1e-12));
    assert!(close(bent.p_2.x.0, 1.0, 1e-12) && close(bent.p_2.y.0, 1.0, 1e-12));
    let placed = System::new(Real(2.0), Real(3.0)).place(&ArmTrig {
        cos_1: Real(0.0),
        sin_1: Real(1.0),
        cos_12: Real(1.0),
        sin_12: Real(0.0),
    });
    assert_eq!((placed.p_1.x, placed.p_1.y), (Real(0.0), Real(2.0)));
    assert_eq!((placed.p_2.x, placed.p_2.y), (Real(3.0), Real(2.0)));
}

#[test]
fn arm_inverse_kinematics_brings_the_hand_to_the_target() {
    let arm = System::new(Real(1.0), Real(1.5));
    for target in [v2(1.0, 1.0), v2(-0.5, 1.2), v2(0.0, 2.0), v2(0.7, -2.0)] {
        match arm.inverse_kinematics(&target) {
            ReverseSolutions::Two(a, b) => {
                for solution in [a, b] {
                    let hand = arm.forward_kinematics(&solution).p_2;
                    assert!(close(hand.x.0, target.x.0, 1e-9), "{:?} {:?}", target, solution);
                    assert!(close(hand.y.0, target.y.0, 1e-9), "{:?} {:?}", target, solution);
                }
                assert!(!close(a.x.0, b.x.0, 1e-6));
            }
            other => panic!("two solutions for {:?}, not {:?}", target, other),
        }
    }
}

#[test]
fn arm_inverse_kinematics_out_of_reach_and_at_the_origin() {
    let arm = System::new(Real(1.0), Real(1.5));
    assert!(matches!(arm.inverse_kinematics(&v2(3.0, 0.0)), ReverseSolutions::NoSolution));
    assert!(matches!(arm.inverse_kinematics(&v2(0.0, 3.0)), ReverseSolutions::NoSolution));
    assert!(matches!(arm.inverse_kinematics(&v2(0.1, 0.1)), ReverseSolutions::NoSolution));
    assert!(matches!(arm.inverse_kinematics(&v2(0.0, 0.0)), ReverseSolutions::NoSolution));
    let even = System::new(Real(1.0), Real(1.0));
    assert!(matches!(even.inverse_kinematics(&v2(0.0, 0.0)), ReverseSolutions::InfinitelyMany));
    assert!(matches!(
        even.middle_from_target(Real(3.0), Real(0.0), Real(9.0), Real(0.0), Real(4.5)),
        MiddleSolutions::NoSolution
    ));
}

#[test]
fn driving_functions() {
    let constant = ConstantFunction::new(Real(2.5));
    assert_eq!(constant.value(Real(7.0)), Real(2.5));
    assert_eq!(constant.name(), "A");
    let step = StepFunction::new(Real(3.0), Real(1.0));
    assert_eq!(step.value(Real(0.5)), Real(0.0));
    assert_eq!(step.value(Real(1.0)), Real(3.0));
    assert_eq!(step.value(Real(2.0)), Real(3.0));
    assert_eq!(step.name(), "t<0=>0, t>0=>A");
    let sine = Sine::new(Real(2.0), Real(3.0), Real(0.5));
    assert_eq!(sine.value(Real(0.25)), Real(2.0 * (0.25f64 * 3.0 + 0.5).sin()));
    assert_eq!(sine.name(), "A*sin(ω*t+φ)");
    let square = StepSine::new(Real(2.0), Real(1.0), Real(0.0));
    assert_eq!(square.value(Real(1.0)), Real(2.0));
    assert_eq!(square.value(Real(4.0)), Real(-2.0));
    assert_eq!(square.value(Real(0.0)), Real(-2.0));
    assert_eq!(square.name(), "A*sgn(sin(ω*t+φ))");
    assert_eq!(FloatFn::Step(step).call(Real(5.0)), Real(3.0));
    assert_eq!(FloatFn::Constant(constant).call(Real(5.0)), Real(2.5));
    assert_eq!(FloatFn::Sine(sine).call(Real(0.0)), Real(2.0 * 0.5f64.sin()));
    assert_eq!(FloatFn::StepSine(square).call(Real(1.0)), Real(2.0));
}
