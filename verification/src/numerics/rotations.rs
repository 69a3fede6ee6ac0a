use vstd::prelude::*;

use crate::numerics::linalg::{dot4, dot4_spec, Matrix3, Matrix4, Vector3};
use crate::numerics::{
    clamp, clamp_spec, le, le_spec, max, max_spec, ratio, ratio_spec, rem_euclid, rem_euclid_spec,
    to_degrees, to_degrees_spec, to_radians, to_radians_spec, Float,
};

verus! {

/// A quaternion `w + x i + y j + z k`, stored as `[w, x, y, z]`. It stands for
/// a rotation once it is normalized.
#[derive(Clone, Copy, Debug)]
pub struct Quaternion<F>(pub [F; 4]);

/// How many times [`Quaternion::lerp`] moves its parameter off a point where
/// the blend of the two quaternions vanishes, before it gives up and returns
/// the identity.
pub const LERP_RETRIES: usize = 16;

impl<F: Float> Quaternion<F> {
    /// The quaternion of the rotation that moves nothing: `1`.
    pub open spec fn identity_spec() -> Self {
        let o = F::from_i32_spec(1);
        let z = F::from_i32_spec(0);
        Quaternion([o, z, z, z])
    }

    pub fn identity() -> (r: Self)
        ensures
            r == Self::identity_spec(),
    {
        let o = F::from_i32(1);
        let z = F::from_i32(0);
        Quaternion([o, z, z, z])
    }

    /// The quaternion of the rotation about the unit vector `axis` by an
    /// angle whose half has the cosine `cos_half` and the sine `sin_half`.
    pub open spec fn from_axis_angle_spec(axis: Vector3<F>, cos_half: F, sin_half: F) -> Self {
        Quaternion(
            [
                cos_half,
                axis.x.mul_spec(sin_half),
                axis.y.mul_spec(sin_half),
                axis.z.mul_spec(sin_half),
            ],
        )
    }

    pub fn from_axis_angle_from(axis: &Vector3<F>, cos_half: F, sin_half: F) -> (r: Self)
        ensures
            r == Self::from_axis_angle_spec(*axis, cos_half, sin_half),
    {
        Quaternion([cos_half, axis.x.mul(sin_half), axis.y.mul(sin_half), axis.z.mul(sin_half)])
    }

    /// The imaginary part `(x, y, z)`.
    pub open spec fn vector_spec(self) -> Vector3<F> {
        Vector3 { x: self.0[1], y: self.0[2], z: self.0[3] }
    }

    pub fn vector(&self) -> (r: Vector3<F>)
        ensures
            r == self.vector_spec(),
    {
        Vector3 { x: self.0[1], y: self.0[2], z: self.0[3] }
    }

    /// All four components equal zero.
    pub open spec fn is_zero_spec(self) -> bool {
        let z = F::from_i32_spec(0);
        self.0[0].eq_spec(z) && self.0[1].eq_spec(z) && self.0[2].eq_spec(z) && self.0[3].eq_spec(
            z,
        )
    }

    pub fn is_zero(&self) -> (r: bool)
        ensures
            r == self.is_zero_spec(),
    {
        let z = F::from_i32(0);
        self.0[0].eq(z) && self.0[1].eq(z) && self.0[2].eq(z) && self.0[3].eq(z)
    }

    pub open spec fn neg_spec(self) -> Self {
        Quaternion(
            [self.0[0].neg_spec(), self.0[1].neg_spec(), self.0[2].neg_spec(), self.0[3].neg_spec()],
        )
    }

    pub fn neg(&self) -> (r: Self)
        ensures
            r == self.neg_spec(),
    {
        Quaternion([self.0[0].neg(), self.0[1].neg(), self.0[2].neg(), self.0[3].neg()])
    }

    /// The conjugate `w - x i - y j - z k`.
    pub open spec fn conjugate_spec(self) -> Self {
        Quaternion([self.0[0], self.0[1].neg_spec(), self.0[2].neg_spec(), self.0[3].neg_spec()])
    }

    pub fn conjugate(&self) -> (r: Self)
        ensures
            r == self.conjugate_spec(),
    {
        Quaternion([self.0[0], self.0[1].neg(), self.0[2].neg(), self.0[3].neg()])
    }

    /// The Hamilton product `self * rhs`, each component summed from left to right.
    pub open spec fn mul_spec(self, rhs: Self) -> Self {
        let (w1, x1, y1, z1) = (self.0[0], self.0[1], self.0[2], self.0[3]);
        let (w2, x2, y2, z2) = (rhs.0[0], rhs.0[1], rhs.0[2], rhs.0[3]);
        Quaternion(
            [
                w1.mul_spec(w2).sub_spec(x1.mul_spec(x2)).sub_spec(y1.mul_spec(y2)).sub_spec(
                    z1.mul_spec(z2),
                ),
                w1.mul_spec(x2).add_spec(x1.mul_spec(w2)).add_spec(y1.mul_spec(z2)).sub_spec(
                    z1.mul_spec(y2),
                ),
                w1.mul_spec(y2).sub_spec(x1.mul_spec(z2)).add_spec(y1.mul_spec(w2)).add_spec(
                    z1.mul_spec(x2),
                ),
                w1.mul_spec(z2).add_spec(x1.mul_spec(y2)).sub_spec(y1.mul_spec(x2)).add_spec(
                    z1.mul_spec(w2),
                ),
            ],
        )
    }

    pub fn mul(&self, rhs: &Self) -> (r: Self)
        ensures
            r == self.mul_spec(*rhs),
    {
        let (w1, x1, y1, z1) = (self.0[0], self.0[1], self.0[2], self.0[3]);
        let (w2, x2, y2, z2) = (rhs.0[0], rhs.0[1], rhs.0[2], rhs.0[3]);
        Quaternion(
            [
                w1.mul(w2).sub(x1.mul(x2)).sub(y1.mul(y2)).sub(z1.mul(z2)),
                w1.mul(x2).add(x1.mul(w2)).add(y1.mul(z2)).sub(z1.mul(y2)),
                w1.mul(y2).sub(x1.mul(z2)).add(y1.mul(w2)).add(z1.mul(x2)),
                w1.mul(z2).add(x1.mul(y2)).sub(y1.mul(x2)).add(z1.mul(w2)),
            ],
        )
    }

    /// The length: the root of the sum of the four squares.
    pub open spec fn norm_spec(self) -> F {
        dot4_spec(self.0, self.0).sqrt_spec()
    }

    pub fn norm(&self) -> (r: F)
        ensures
            r == self.norm_spec(),
    {
        dot4(&self.0, &self.0).sqrt()
    }

    /// Every component divided by `s`.
    pub open spec fn unscale_spec(self, s: F) -> Self {
        Quaternion(
            [
                self.0[0].div_spec(s),
                self.0[1].div_spec(s),
                self.0[2].div_spec(s),
                self.0[3].div_spec(s),
            ],
        )
    }

    pub fn unscale(&self, s: F) -> (r: Self)
        ensures
            r == self.unscale_spec(s),
    {
        Quaternion([self.0[0].div(s), self.0[1].div(s), self.0[2].div(s), self.0[3].div(s)])
    }

    /// The quaternion divided by its length.
    pub open spec fn normalize_spec(self) -> Self {
        self.unscale_spec(self.norm_spec())
    }

    pub fn normalize(&self) -> (r: Self)
        ensures
            r == self.normalize_spec(),
    {
        self.unscale(self.norm())
    }

    /// The blend `self * a + other * b`, component by component.
    pub open spec fn blend_spec(self, a: F, other: Self, b: F) -> Self {
        Quaternion(
            [
                self.0[0].mul_spec(a).add_spec(other.0[0].mul_spec(b)),
                self.0[1].mul_spec(a).add_spec(other.0[1].mul_spec(b)),
                self.0[2].mul_spec(a).add_spec(other.0[2].mul_spec(b)),
                self.0[3].mul_spec(a).add_spec(other.0[3].mul_spec(b)),
            ],
        )
    }

    pub fn blend(&self, a: F, other: &Self, b: F) -> (r: Self)
        ensures
            r == self.blend_spec(a, *other, b),
    {
        Quaternion(
            [
                self.0[0].mul(a).add(other.0[0].mul(b)),
                self.0[1].mul(a).add(other.0[1].mul(b)),
                self.0[2].mul(a).add(other.0[2].mul(b)),
                self.0[3].mul(a).add(other.0[3].mul(b)),
            ],
        )
    }

    /// The parameter that `lerp` tries next after `t`: ten machine epsilons
    /// further, or nearer where `t` is one.
    pub open spec fn nudge_spec(t: F) -> F {
        let sign = if t.eq_spec(F::from_i32_spec(1)) {
            F::from_i32_spec(1).neg_spec()
        } else {
            F::from_i32_spec(1)
        };
        t.add_spec(sign.mul_spec(F::from_i32_spec(10)).mul_spec(F::epsilon_spec()))
    }

    /// The linear blend at `t`, normalized, with `fuel` retries left.
    ///
    /// Two zero quaternions give the identity. Where the blend vanishes (the
    /// two are opposite and `t` is at their midpoint) `t` is nudged and the
    /// blend is taken again; with no retry left the result is the identity.
    pub open spec fn lerp_fuel_spec(self, other: Self, t: F, fuel: nat) -> Self
        decreases fuel,
    {
        let blended = self.blend_spec(F::from_i32_spec(1).sub_spec(t), other, t);
        if other.is_zero_spec() && self.is_zero_spec() {
            Self::identity_spec()
        } else if !blended.is_zero_spec() {
            blended.normalize_spec()
        } else if fuel == 0 {
            Self::identity_spec()
        } else {
            self.lerp_fuel_spec(other, Self::nudge_spec(t), (fuel - 1) as nat)
        }
    }

    pub open spec fn lerp_spec(self, other: Self, t: F) -> Self {
        self.lerp_fuel_spec(other, t, LERP_RETRIES as nat)
    }

    /// Linear interpolation from `self` (at `t = 0`) to `other` (at `t = 1`),
    /// brought back to unit length.
    pub fn lerp(&self, other: &Self, t: F) -> (r: Self)
        ensures
            r == self.lerp_spec(*other, t),
    {
        if other.is_zero() && self.is_zero() {
            return Self::identity();
        }
        let mut s = t;
        let mut fuel: usize = LERP_RETRIES;
        loop
            invariant
                !(other.is_zero_spec() && self.is_zero_spec()),
                self.lerp_fuel_spec(*other, s, fuel as nat) == self.lerp_spec(*other, t),
            decreases fuel,
        {
            let blended = self.blend(F::from_i32(1).sub(s), other, s);
            if !blended.is_zero() {
                return blended.normalize();
            }
            if fuel == 0 {
                return Self::identity();
            }
            let sign = if s.eq(F::from_i32(1)) {
                F::from_i32(1).neg()
            } else {
                F::from_i32(1)
            };
            s = s.add(sign.mul(F::from_i32(10)).mul(F::epsilon()));
            fuel -= 1;
        }
    }

    /// The spherical blend of `self` and `other` at `t`, from the sines that
    /// the arc between them gave: `sin_omega` of the whole arc, `sin_near` of
    /// the part beyond `t` and `sin_far` of the part up to `t`. Where the sine
    /// of the arc is at most ten machine epsilons the arc is too short to
    /// divide by, and the linear blend stands in.
    pub open spec fn slerp_from_spec(
        self,
        other: Self,
        t: F,
        sin_omega: F,
        sin_near: F,
        sin_far: F,
    ) -> Self {
        if Self::arc_is_short_spec(sin_omega) {
            self.lerp_spec(other, t)
        } else {
            self.blend_spec(sin_near, other, sin_far).unscale_spec(sin_omega).normalize_spec()
        }
    }

    /// Whether an arc with this sine is too short for the spherical formula.
    pub open spec fn arc_is_short_spec(sin_omega: F) -> bool {
        le_spec(sin_omega.abs_spec(), F::from_i32_spec(10).mul_spec(F::epsilon_spec()))
    }

    pub fn arc_is_short(sin_omega: F) -> (r: bool)
        ensures
            r == Self::arc_is_short_spec(sin_omega),
    {
        le(sin_omega.abs(), F::from_i32(10).mul(F::epsilon()))
    }

    pub fn slerp_from(&self, other: &Self, t: F, sin_omega: F, sin_near: F, sin_far: F) -> (r:
        Self)
        ensures
            r == self.slerp_from_spec(*other, t, sin_omega, sin_near, sin_far),
    {
        if Self::arc_is_short(sin_omega) {
            self.lerp(other, t)
        } else {
            self.blend(sin_near, other, sin_far).unscale(sin_omega).normalize()
        }
    }

    /// The cosine of the arc from `self` to `other`: their dot product,
    /// brought into `[-1, 1]`.
    pub open spec fn arc_cos_spec(self, other: Self) -> F {
        clamp_spec(dot4_spec(self.0, other.0), F::from_i32_spec(1).neg_spec(), F::from_i32_spec(1))
    }

    /// The end of the short arc from `self`: `other`, or its negative (the same
    /// rotation) where `other` lies more than a quarter turn away.
    pub open spec fn near_end_spec(self, other: Self) -> Self {
        if self.arc_cos_spec(other).lt_spec(F::from_i32_spec(0)) {
            other.neg_spec()
        } else {
            other
        }
    }

    /// The cosine of the short arc from `self` to `near_end_spec(other)`.
    pub open spec fn short_arc_cos_spec(self, other: Self) -> F {
        let c = self.arc_cos_spec(other);
        if c.lt_spec(F::from_i32_spec(0)) {
            c.neg_spec()
        } else {
            c
        }
    }

    /// Whether `r` is a spherical interpolation of `self` and `other` at `t`:
    /// the blend along the short arc, for some values of the arc and of the
    /// three sines that the scalar type may return.
    pub open spec fn is_slerp(self, other: Self, t: F, r: Self) -> bool {
        exists|omega: F, sin_omega: F, sin_near: F, sin_far: F|
            {
                &&& #[trigger] self.short_arc_cos_spec(other).acos_rel(omega)
                &&& #[trigger] omega.sin_rel(sin_omega)
                &&& #[trigger] F::from_i32_spec(1).sub_spec(t).mul_spec(omega).sin_rel(sin_near)
                &&& #[trigger] t.mul_spec(omega).sin_rel(sin_far)
                &&& r == self.slerp_from_spec(
                    self.near_end_spec(other),
                    t,
                    sin_omega,
                    sin_near,
                    sin_far,
                )
            }
    }

    /// Spherical interpolation from `self` (at `t = 0`) to `other` (at
    /// `t = 1`) along the shorter of the two arcs between them.
    pub fn slerp(&self, other: &Self, t: F) -> (r: Self)
        ensures
            self.is_slerp(*other, t, r),
    {
        let dot = clamp(dot4(&self.0, &other.0), F::from_i32(1).neg(), F::from_i32(1));
        let flip = dot.lt(F::from_i32(0));
        let near = if flip {
            other.neg()
        } else {
            *other
        };
        let cos_omega = if flip {
            dot.neg()
        } else {
            dot
        };
        let omega = cos_omega.acos();
        let sin_omega = omega.sin();
        let sin_near = F::from_i32(1).sub(t).mul(omega).sin();
        let sin_far = t.mul(omega).sin();
        let r = self.slerp_from(&near, t, sin_omega, sin_near, sin_far);
        proof {
            assert(cos_omega == self.short_arc_cos_spec(*other));
            assert(near == self.near_end_spec(*other));
            assert(self.short_arc_cos_spec(*other).acos_rel(omega));
            assert(omega.sin_rel(sin_omega));
            assert(F::from_i32_spec(1).sub_spec(t).mul_spec(omega).sin_rel(sin_near));
            assert(t.mul_spec(omega).sin_rel(sin_far));
        }
        r
    }

    /// The rotation matrix of a unit quaternion.
    pub open spec fn to_rotation_matrix_spec(self) -> Matrix3<F> {
        let (w, i, j, k) = (self.0[0], self.0[1], self.0[2], self.0[3]);
        let two = F::from_i32_spec(2);
        let ww = w.mul_spec(w);
        let ii = i.mul_spec(i);
        let jj = j.mul_spec(j);
        let kk = k.mul_spec(k);
        let ij = i.mul_spec(j).mul_spec(two);
        let wk = w.mul_spec(k).mul_spec(two);
        let wj = w.mul_spec(j).mul_spec(two);
        let ik = i.mul_spec(k).mul_spec(two);
        let jk = j.mul_spec(k).mul_spec(two);
        let wi = w.mul_spec(i).mul_spec(two);
        Matrix3(
            [
                [ww.add_spec(ii).sub_spec(jj).sub_spec(kk), ij.sub_spec(wk), wj.add_spec(ik)],
                [wk.add_spec(ij), ww.sub_spec(ii).add_spec(jj).sub_spec(kk), jk.sub_spec(wi)],
                [ik.sub_spec(wj), wi.add_spec(jk), ww.sub_spec(ii).sub_spec(jj).add_spec(kk)],
            ],
        )
    }

    pub fn to_rotation_matrix(&self) -> (r: Matrix3<F>)
        ensures
            r == self.to_rotation_matrix_spec(),
    {
        let (w, i, j, k) = (self.0[0], self.0[1], self.0[2], self.0[3]);
        let two = F::from_i32(2);
        let ww = w.mul(w);
        let ii = i.mul(i);
        let jj = j.mul(j);
        let kk = k.mul(k);
        let ij = i.mul(j).mul(two);
        let wk = w.mul(k).mul(two);
        let wj = w.mul(j).mul(two);
        let ik = i.mul(k).mul(two);
        let jk = j.mul(k).mul(two);
        let wi = w.mul(i).mul(two);
        Matrix3(
            [
                [ww.add(ii).sub(jj).sub(kk), ij.sub(wk), wj.add(ik)],
                [wk.add(ij), ww.sub(ii).add(jj).sub(kk), jk.sub(wi)],
                [ik.sub(wj), wi.add(jk), ww.sub(ii).sub(jj).add(kk)],
            ],
        )
    }

    /// The image of `v` under the rotation of a unit quaternion:
    /// `t * w + u x t + v` with `u` the imaginary part and `t = 2 (u x v)`.
    pub open spec fn rotate_vector_spec(self, v: Vector3<F>) -> Vector3<F> {
        let u = self.vector_spec();
        let t = u.cross_spec(v).scale_spec(F::from_i32_spec(2));
        t.scale_spec(self.0[0]).add_spec(u.cross_spec(t)).add_spec(v)
    }

    pub fn rotate_vector(&self, v: &Vector3<F>) -> (r: Vector3<F>)
        ensures
            r == self.rotate_vector_spec(*v),
    {
        let u = self.vector();
        let t = u.cross(v).scale(F::from_i32(2));
        t.scale(self.0[0]).add(&u.cross(&t)).add(v)
    }

    /// The homogeneous matrix whose columns are the images `q e q*` of the
    /// three unit vectors `e`.
    pub open spec fn to_homogeneous_spec(self) -> Matrix4<F> {
        let o = F::from_i32_spec(1);
        let z = F::from_i32_spec(0);
        let c = self.conjugate_spec();
        let x = self.mul_spec(Quaternion([z, o, z, z])).mul_spec(c).0;
        let y = self.mul_spec(Quaternion([z, z, o, z])).mul_spec(c).0;
        let w = self.mul_spec(Quaternion([z, z, z, o])).mul_spec(c).0;
        Matrix4([[x[1], y[1], w[1], z], [x[2], y[2], w[2], z], [x[3], y[3], w[3], z], [z, z, z, o]])
    }

    pub fn to_homogeneous(&self) -> (r: Matrix4<F>)
        ensures
            r == self.to_homogeneous_spec(),
    {
        let o = F::from_i32(1);
        let z = F::from_i32(0);
        let c = self.conjugate();
        let x = self.mul(&Quaternion([z, o, z, z])).mul(&c).0;
        let y = self.mul(&Quaternion([z, z, o, z])).mul(&c).0;
        let w = self.mul(&Quaternion([z, z, z, o])).mul(&c).0;
        Matrix4([[x[1], y[1], w[1], z], [x[2], y[2], w[2], z], [x[3], y[3], w[3], z], [z, z, z, o]])
    }

    /// The two operands that the arc tangent takes for the angle about the x axis.
    pub open spec fn roll_tangent_spec(self) -> (F, F) {
        let (w, x, y, z) = (self.0[0], self.0[1], self.0[2], self.0[3]);
        let one = F::from_i32_spec(1);
        let two = F::from_i32_spec(2);
        (
            two.mul_spec(w.mul_spec(x).add_spec(y.mul_spec(z))),
            one.sub_spec(two.mul_spec(x.mul_spec(x).add_spec(y.mul_spec(y)))),
        )
    }

    /// The two operands that the arc tangent takes for the angle about the y axis.
    pub open spec fn pitch_tangent_spec(self) -> (F, F) {
        let (w, x, y, z) = (self.0[0], self.0[1], self.0[2], self.0[3]);
        let zero = F::from_i32_spec(0);
        let one = F::from_i32_spec(1);
        let two = F::from_i32_spec(2);
        let s = two.mul_spec(w.mul_spec(y).sub_spec(x.mul_spec(z)));
        (max_spec(one.add_spec(s), zero).sqrt_spec(), max_spec(one.sub_spec(s), zero).sqrt_spec())
    }

    /// The two operands that the arc tangent takes for the angle about the z axis.
    pub open spec fn yaw_tangent_spec(self) -> (F, F) {
        let (w, x, y, z) = (self.0[0], self.0[1], self.0[2], self.0[3]);
        let one = F::from_i32_spec(1);
        let two = F::from_i32_spec(2);
        (
            two.mul_spec(w.mul_spec(z).add_spec(x.mul_spec(y))),
            one.sub_spec(two.mul_spec(y.mul_spec(y).add_spec(z.mul_spec(z)))),
        )
    }

    pub fn roll_tangent(&self) -> (r: (F, F))
        ensures
            r == self.roll_tangent_spec(),
    {
        let (w, x, y, z) = (self.0[0], self.0[1], self.0[2], self.0[3]);
        let one = F::from_i32(1);
        let two = F::from_i32(2);
        (two.mul(w.mul(x).add(y.mul(z))), one.sub(two.mul(x.mul(x).add(y.mul(y)))))
    }

    pub fn pitch_tangent(&self) -> (r: (F, F))
        ensures
            r == self.pitch_tangent_spec(),
    {
        let (w, x, y, z) = (self.0[0], self.0[1], self.0[2], self.0[3]);
        let zero = F::from_i32(0);
        let one = F::from_i32(1);
        let two = F::from_i32(2);
        let s = two.mul(w.mul(y).sub(x.mul(z)));
        (max(one.add(s), zero).sqrt(), max(one.sub(s), zero).sqrt())
    }

    pub fn yaw_tangent(&self) -> (r: (F, F))
        ensures
            r == self.yaw_tangent_spec(),
    {
        let (w, x, y, z) = (self.0[0], self.0[1], self.0[2], self.0[3]);
        let one = F::from_i32(1);
        let two = F::from_i32(2);
        (two.mul(w.mul(z).add(x.mul(y))), one.sub(two.mul(y.mul(y).add(z.mul(z)))))
    }

    /// Whether `r` holds Euler angles of `self`: for some values that the arc
    /// tangent may return on the three pairs of operands.
    pub open spec fn is_euler(self, r: EulerAngles<F>) -> bool {
        exists|roll: F, pitch: F, yaw: F|
            {
                &&& #[trigger] self.roll_tangent_spec().0.atan2_rel(self.roll_tangent_spec().1, roll)
                &&& #[trigger] self.pitch_tangent_spec().0.atan2_rel(
                    self.pitch_tangent_spec().1,
                    pitch,
                )
                &&& #[trigger] self.yaw_tangent_spec().0.atan2_rel(self.yaw_tangent_spec().1, yaw)
                &&& r == EulerAngles::from_arcs_spec(roll, pitch, yaw)
            }
    }

    /// The Euler angles of the rotation, in degrees within `[0, 360)`: the
    /// rotation about x is applied first, then the one about y, then the one
    /// about z.
    pub fn to_euler(&self) -> (r: EulerAngles<F>)
        ensures
            self.is_euler(r),
    {
        let roll_operands = self.roll_tangent();
        let pitch_operands = self.pitch_tangent();
        let yaw_operands = self.yaw_tangent();
        let roll = roll_operands.0.atan2(roll_operands.1);
        let pitch = pitch_operands.0.atan2(pitch_operands.1);
        let yaw = yaw_operands.0.atan2(yaw_operands.1);
        EulerAngles::from_arcs(roll, pitch, yaw)
    }
}

/// Three rotation angles in degrees, about the x, the y and the z axis. The
/// rotation about x is applied first and the one about z last.
#[derive(Clone, Copy, Debug)]
pub struct EulerAngles<F>(pub Vector3<F>);

/// Linear interpolation between two angles in degrees that goes the short way
/// round: where they lie more than half a turn apart the larger is taken a
/// full turn lower first.
pub open spec fn lerp_degrees_spec<F: Float>(from: F, to: F, t: F) -> F {
    let half_turn = F::from_i32_spec(180);
    let turn = F::from_i32_spec(360);
    let apart = half_turn.lt_spec(to.sub_spec(from).abs_spec());
    let a = if apart && !from.lt_spec(to) {
        from.sub_spec(turn)
    } else {
        from
    };
    let b = if apart && from.lt_spec(to) {
        to.sub_spec(turn)
    } else {
        to
    };
    a.mul_spec(F::from_i32_spec(1).sub_spec(t)).add_spec(b.mul_spec(t))
}

pub fn lerp_degrees<F: Float>(from: F, to: F, t: F) -> (r: F)
    ensures
        r == lerp_degrees_spec(from, to, t),
{
    let mut a = from;
    let mut b = to;
    if F::from_i32(180).lt(to.sub(from).abs()) {
        if from.lt(to) {
            b = to.sub(F::from_i32(360));
        } else {
            a = from.sub(F::from_i32(360));
        }
    }
    a.mul(F::from_i32(1).sub(t)).add(b.mul(t))
}

impl<F: Float> EulerAngles<F> {
    /// The angles in degrees, each in `[0, 360)`, from the three arcs in
    /// radians that the arc tangent gave. The arc for the y axis is half the
    /// angle, counted from a quarter turn below.
    pub open spec fn from_arcs_spec(roll: F, pitch: F, yaw: F) -> Self {
        let quarter_turn = F::pi_spec().div_spec(F::from_i32_spec(2));
        EulerAngles(
            Vector3 {
                x: to_degrees_spec(roll),
                y: to_degrees_spec(
                    quarter_turn.neg_spec().add_spec(F::from_i32_spec(2).mul_spec(pitch)),
                ),
                z: to_degrees_spec(yaw),
            },
        ).normalize_spec()
    }

    pub fn from_arcs(roll: F, pitch: F, yaw: F) -> (r: Self)
        ensures
            r == Self::from_arcs_spec(roll, pitch, yaw),
    {
        let quarter_turn = F::pi().div(F::from_i32(2));
        EulerAngles(
            Vector3 {
                x: to_degrees(roll),
                y: to_degrees(quarter_turn.neg().add(F::from_i32(2).mul(pitch))),
                z: to_degrees(yaw),
            },
        ).normalize()
    }

    /// Half of each angle, in radians.
    pub open spec fn half_angles_spec(self) -> Vector3<F> {
        let half = ratio_spec::<F>(1, 2);
        Vector3 {
            x: to_radians_spec(self.0.x).mul_spec(half),
            y: to_radians_spec(self.0.y).mul_spec(half),
            z: to_radians_spec(self.0.z).mul_spec(half),
        }
    }

    pub fn half_angles(&self) -> (r: Vector3<F>)
        ensures
            r == self.half_angles_spec(),
    {
        let half: F = ratio(1, 2);
        Vector3 {
            x: to_radians(self.0.x).mul(half),
            y: to_radians(self.0.y).mul(half),
            z: to_radians(self.0.z).mul(half),
        }
    }

    /// The quaternion `q_z * q_y * q_x` of the three rotations, from the
    /// cosines and sines of the half angles.
    pub open spec fn quaternion_from_spec(cos: Vector3<F>, sin: Vector3<F>) -> Quaternion<F> {
        let z = F::from_i32_spec(0);
        Quaternion([cos.z, z, z, sin.z]).mul_spec(Quaternion([cos.y, z, sin.y, z])).mul_spec(
            Quaternion([cos.x, sin.x, z, z]),
        )
    }

    pub fn quaternion_from(cos: &Vector3<F>, sin: &Vector3<F>) -> (r: Quaternion<F>)
        ensures
            r == Self::quaternion_from_spec(*cos, *sin),
    {
        let z = F::from_i32(0);
        Quaternion([cos.z, z, z, sin.z]).mul(&Quaternion([cos.y, z, sin.y, z])).mul(
            &Quaternion([cos.x, sin.x, z, z]),
        )
    }

    /// Whether `cos` and `sin` hold values that the cosine and the sine may
    /// return on the three entries of `angles`.
    pub open spec fn trig_rel(angles: Vector3<F>, cos: Vector3<F>, sin: Vector3<F>) -> bool {
        &&& angles.x.cos_rel(cos.x)
        &&& angles.x.sin_rel(sin.x)
        &&& angles.y.cos_rel(cos.y)
        &&& angles.y.sin_rel(sin.y)
        &&& angles.z.cos_rel(cos.z)
        &&& angles.z.sin_rel(sin.z)
    }

    /// The cosines and the sines of three angles in radians.
    pub fn trig(angles: &Vector3<F>) -> (r: (Vector3<F>, Vector3<F>))
        ensures
            Self::trig_rel(*angles, r.0, r.1),
    {
        (
            Vector3 { x: angles.x.cos(), y: angles.y.cos(), z: angles.z.cos() },
            Vector3 { x: angles.x.sin(), y: angles.y.sin(), z: angles.z.sin() },
        )
    }

    /// Whether `r` is a quaternion of these angles: for some cosines and sines
    /// of the half angles that the scalar type may return.
    pub open spec fn is_quaternion(self, r: Quaternion<F>) -> bool {
        exists|cos: Vector3<F>, sin: Vector3<F>|
            #[trigger] Self::trig_rel(self.half_angles_spec(), cos, sin) && r
                == Self::quaternion_from_spec(cos, sin)
    }

    pub fn to_quaternion(&self) -> (r: Quaternion<F>)
        ensures
            self.is_quaternion(r),
    {
        let (cos, sin) = Self::trig(&self.half_angles());
        Self::quaternion_from(&cos, &sin)
    }

    /// Interpolation angle by angle, each going the short way round.
    pub open spec fn lerp_spec(self, other: Self, t: F) -> Self {
        EulerAngles(
            Vector3 {
                x: lerp_degrees_spec(self.0.x, other.0.x, t),
                y: lerp_degrees_spec(self.0.y, other.0.y, t),
                z: lerp_degrees_spec(self.0.z, other.0.z, t),
            },
        )
    }

    pub fn lerp(&self, other: &EulerAngles<F>, t: F) -> (r: EulerAngles<F>)
        ensures
            r == self.lerp_spec(*other, t),
    {
        EulerAngles(
            Vector3 {
                x: lerp_degrees(self.0.x, other.0.x, t),
                y: lerp_degrees(self.0.y, other.0.y, t),
                z: lerp_degrees(self.0.z, other.0.z, t),
            },
        )
    }

    /// The angles in radians.
    pub open spec fn radians_spec(self) -> Vector3<F> {
        Vector3 {
            x: to_radians_spec(self.0.x),
            y: to_radians_spec(self.0.y),
            z: to_radians_spec(self.0.z),
        }
    }

    /// The matrix `R_z * R_y * R_x` of the three rotations, from the cosines
    /// and sines of the angles.
    pub open spec fn homogeneous_from_spec(cos: Vector3<F>, sin: Vector3<F>) -> Matrix4<F> {
        rotate_z_from_spec(cos.z, sin.z).mul_spec(rotate_y_from_spec(cos.y, sin.y)).mul_spec(
            rotate_x_from_spec(cos.x, sin.x),
        )
    }

    pub fn homogeneous_from(cos: &Vector3<F>, sin: &Vector3<F>) -> (r: Matrix4<F>)
        ensures
            r == Self::homogeneous_from_spec(*cos, *sin),
    {
        rotate_z_from(cos.z, sin.z).mul(&rotate_y_from(cos.y, sin.y)).mul(
            &rotate_x_from(cos.x, sin.x),
        )
    }

    /// Whether `r` is a homogeneous matrix of these angles: for some cosines
    /// and sines of the angles that the scalar type may return.
    pub open spec fn is_homogeneous(self, r: Matrix4<F>) -> bool {
        exists|cos: Vector3<F>, sin: Vector3<F>|
            #[trigger] Self::trig_rel(self.radians_spec(), cos, sin) && r
                == Self::homogeneous_from_spec(cos, sin)
    }

    pub fn to_homogeneous(&self) -> (r: Matrix4<F>)
        ensures
            self.is_homogeneous(r),
    {
        let radians = Vector3 {
            x: to_radians(self.0.x),
            y: to_radians(self.0.y),
            z: to_radians(self.0.z),
        };
        let (cos, sin) = Self::trig(&radians);
        assert(radians == self.radians_spec());
        Self::homogeneous_from(&cos, &sin)
    }

    /// Each angle brought into `[0, 360)`.
    pub open spec fn normalize_spec(self) -> Self {
        let turn = F::from_i32_spec(360);
        EulerAngles(
            Vector3 {
                x: rem_euclid_spec(self.0.x, turn),
                y: rem_euclid_spec(self.0.y, turn),
                z: rem_euclid_spec(self.0.z, turn),
            },
        )
    }

    pub fn normalize(&self) -> (r: EulerAngles<F>)
        ensures
            r == self.normalize_spec(),
    {
        let turn = F::from_i32(360);
        EulerAngles(
            Vector3 {
                x: rem_euclid(self.0.x, turn),
                y: rem_euclid(self.0.y, turn),
                z: rem_euclid(self.0.z, turn),
            },
        )
    }
}

/// An orientation as its author wrote it: a quaternion or three Euler angles.
#[derive(Clone, Copy, Debug)]
pub enum Rotation<F> {
    Quaternion(Quaternion<F>),
    EulerAngles(EulerAngles<F>),
}

impl<F: Float> Rotation<F> {
    /// The quaternion itself, or a quaternion of the angles.
    pub fn to_quaternion(&self) -> (r: Quaternion<F>)
        ensures
            match *self {
                Rotation::Quaternion(q) => r == q,
                Rotation::EulerAngles(e) => e.is_quaternion(r),
            },
    {
        match self {
            Rotation::Quaternion(q) => *q,
            Rotation::EulerAngles(e) => e.to_quaternion(),
        }
    }

    /// The angles themselves, or Euler angles of the quaternion.
    pub fn to_euler_angles(&self) -> (r: EulerAngles<F>)
        ensures
            match *self {
                Rotation::Quaternion(q) => q.is_euler(r),
                Rotation::EulerAngles(e) => r == e,
            },
    {
        match self {
            Rotation::Quaternion(q) => q.to_euler(),
            Rotation::EulerAngles(e) => *e,
        }
    }

    /// The same kind of value in canonical form: a quaternion of unit length,
    /// or angles within `[0, 360)`.
    pub open spec fn normalize_spec(self) -> Self {
        match self {
            Rotation::Quaternion(q) => Rotation::Quaternion(q.normalize_spec()),
            Rotation::EulerAngles(e) => Rotation::EulerAngles(e.normalize_spec()),
        }
    }

    pub fn normalize(&self) -> (r: Self)
        ensures
            r == self.normalize_spec(),
    {
        match self {
            Rotation::Quaternion(quaternion) => Rotation::Quaternion(quaternion.normalize()),
            Rotation::EulerAngles(euler) => Rotation::EulerAngles(euler.normalize()),
        }
    }
}

impl<F: Float> Default for Rotation<F> {
    fn default() -> (r: Self)
        ensures
            r == Rotation::Quaternion(Quaternion::<F>::identity_spec()),
    {
        Rotation::Quaternion(Quaternion::identity())
    }
}

/// The rotation about the x axis by an angle with cosine `c` and sine `s`.
pub open spec fn rotate_x_from_spec<F: Float>(c: F, s: F) -> Matrix4<F> {
    let o = F::from_i32_spec(1);
    let z = F::from_i32_spec(0);
    Matrix4([[o, z, z, z], [z, c, s.neg_spec(), z], [z, s, c, z], [z, z, z, o]])
}

pub fn rotate_x_from<F: Float>(c: F, s: F) -> (r: Matrix4<F>)
    ensures
        r == rotate_x_from_spec(c, s),
{
    let o = F::from_i32(1);
    let z = F::from_i32(0);
    Matrix4([[o, z, z, z], [z, c, s.neg(), z], [z, s, c, z], [z, z, z, o]])
}

/// The rotation about the y axis by an angle with cosine `c` and sine `s`.
pub open spec fn rotate_y_from_spec<F: Float>(c: F, s: F) -> Matrix4<F> {
    let o = F::from_i32_spec(1);
    let z = F::from_i32_spec(0);
    Matrix4([[c, z, s, z], [z, o, z, z], [s.neg_spec(), z, c, z], [z, z, z, o]])
}

pub fn rotate_y_from<F: Float>(c: F, s: F) -> (r: Matrix4<F>)
    ensures
        r == rotate_y_from_spec(c, s),
{
    let o = F::from_i32(1);
    let z = F::from_i32(0);
    Matrix4([[c, z, s, z], [z, o, z, z], [s.neg(), z, c, z], [z, z, z, o]])
}

/// The rotation about the z axis by an angle with cosine `c` and sine `s`.
pub open spec fn rotate_z_from_spec<F: Float>(c: F, s: F) -> Matrix4<F> {
    let o = F::from_i32_spec(1);
    let z = F::from_i32_spec(0);
    Matrix4([[c, s.neg_spec(), z, z], [s, c, z, z], [z, z, o, z], [z, z, z, o]])
}

pub fn rotate_z_from<F: Float>(c: F, s: F) -> (r: Matrix4<F>)
    ensures
        r == rotate_z_from_spec(c, s),
{
    let o = F::from_i32(1);
    let z = F::from_i32(0);
    Matrix4([[c, s.neg(), z, z], [s, c, z, z], [z, z, o, z], [z, z, z, o]])
}

/// Whether `m` is a rotation about the x axis by `angle` radians: for some
/// cosine and sine of the angle that the scalar type may return.
pub open spec fn is_rotate_x<F: Float>(angle: F, m: Matrix4<F>) -> bool {
    exists|c: F, s: F|
        #[trigger] angle.cos_rel(c) && #[trigger] angle.sin_rel(s) && m == rotate_x_from_spec(c, s)
}

/// Whether `m` is a rotation about the y axis by `angle` radians.
pub open spec fn is_rotate_y<F: Float>(angle: F, m: Matrix4<F>) -> bool {
    exists|c: F, s: F|
        #[trigger] angle.cos_rel(c) && #[trigger] angle.sin_rel(s) && m == rotate_y_from_spec(c, s)
}

/// Whether `m` is a rotation about the z axis by `angle` radians.
pub open spec fn is_rotate_z<F: Float>(angle: F, m: Matrix4<F>) -> bool {
    exists|c: F, s: F|
        #[trigger] angle.cos_rel(c) && #[trigger] angle.sin_rel(s) && m == rotate_z_from_spec(c, s)
}

/// The rotation about the x axis by `angle` radians.
pub fn rotate_x<F: Float>(angle: F) -> (r: Matrix4<F>)
    ensures
        is_rotate_x(angle, r),
{
    rotate_x_from(angle.cos(), angle.sin())
}

/// The rotation about the y axis by `angle` radians.
pub fn rotate_y<F: Float>(angle: F) -> (r: Matrix4<F>)
    ensures
        is_rotate_y(angle, r),
{
    rotate_y_from(angle.cos(), angle.sin())
}

/// The rotation about the z axis by `angle` radians.
pub fn rotate_z<F: Float>(angle: F) -> (r: Matrix4<F>)
    ensures
        is_rotate_z(angle, r),
{
    rotate_z_from(angle.cos(), angle.sin())
}

} // verus!
