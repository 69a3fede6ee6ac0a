use vstd::prelude::*;

use crate::numerics::Float;

verus! {

/// A point or a vector of the plane.
#[derive(Clone, Copy, Debug, PartialEq)]
pub struct Vector2<F> {
    pub x: F,
    pub y: F,
}

impl<F: Float> Vector2<F> {
    pub fn new(x: F, y: F) -> (r: Self)
        ensures
            r == (Vector2 { x, y }),
    {
        Vector2 { x, y }
    }

    pub open spec fn add_spec(self, rhs: Self) -> Self {
        Vector2 { x: self.x.add_spec(rhs.x), y: self.y.add_spec(rhs.y) }
    }

    pub fn add(&self, rhs: &Self) -> (r: Self)
        ensures
            r == self.add_spec(*rhs),
    {
        Vector2 { x: self.x.add(rhs.x), y: self.y.add(rhs.y) }
    }

    pub open spec fn sub_spec(self, rhs: Self) -> Self {
        Vector2 { x: self.x.sub_spec(rhs.x), y: self.y.sub_spec(rhs.y) }
    }

    pub fn sub(&self, rhs: &Self) -> (r: Self)
        ensures
            r == self.sub_spec(*rhs),
    {
        Vector2 { x: self.x.sub(rhs.x), y: self.y.sub(rhs.y) }
    }
}

/// A vector of three scalars.
#[derive(Clone, Copy, Debug, PartialEq)]
pub struct Vector3<F> {
    pub x: F,
    pub y: F,
    pub z: F,
}

impl<F: Float> Vector3<F> {
    pub open spec fn zeros_spec() -> Self {
        Vector3 { x: F::from_i32_spec(0), y: F::from_i32_spec(0), z: F::from_i32_spec(0) }
    }

    pub fn zeros() -> (r: Self)
        ensures
            r == Self::zeros_spec(),
    {
        Vector3 { x: F::from_i32(0), y: F::from_i32(0), z: F::from_i32(0) }
    }

    pub fn new(x: F, y: F, z: F) -> (r: Self)
        ensures
            r == (Vector3 { x, y, z }),
    {
        Vector3 { x, y, z }
    }

    pub open spec fn add_spec(self, rhs: Self) -> Self {
        Vector3 {
            x: self.x.add_spec(rhs.x),
            y: self.y.add_spec(rhs.y),
            z: self.z.add_spec(rhs.z),
        }
    }

    pub fn add(&self, rhs: &Self) -> (r: Self)
        ensures
            r == self.add_spec(*rhs),
    {
        Vector3 { x: self.x.add(rhs.x), y: self.y.add(rhs.y), z: self.z.add(rhs.z) }
    }

    pub open spec fn sub_spec(self, rhs: Self) -> Self {
        Vector3 {
            x: self.x.sub_spec(rhs.x),
            y: self.y.sub_spec(rhs.y),
            z: self.z.sub_spec(rhs.z),
        }
    }

    pub fn sub(&self, rhs: &Self) -> (r: Self)
        ensures
            r == self.sub_spec(*rhs),
    {
        Vector3 { x: self.x.sub(rhs.x), y: self.y.sub(rhs.y), z: self.z.sub(rhs.z) }
    }

    pub open spec fn neg_spec(self) -> Self {
        Vector3 { x: self.x.neg_spec(), y: self.y.neg_spec(), z: self.z.neg_spec() }
    }

    pub fn neg(&self) -> (r: Self)
        ensures
            r == self.neg_spec(),
    {
        Vector3 { x: self.x.neg(), y: self.y.neg(), z: self.z.neg() }
    }

    /// Every component times `s`.
    pub open spec fn scale_spec(self, s: F) -> Self {
        Vector3 { x: self.x.mul_spec(s), y: self.y.mul_spec(s), z: self.z.mul_spec(s) }
    }

    pub fn scale(&self, s: F) -> (r: Self)
        ensures
            r == self.scale_spec(s),
    {
        Vector3 { x: self.x.mul(s), y: self.y.mul(s), z: self.z.mul(s) }
    }

    /// Every component divided by `s`.
    pub open spec fn unscale_spec(self, s: F) -> Self {
        Vector3 { x: self.x.div_spec(s), y: self.y.div_spec(s), z: self.z.div_spec(s) }
    }

    pub fn unscale(&self, s: F) -> (r: Self)
        ensures
            r == self.unscale_spec(s),
    {
        Vector3 { x: self.x.div(s), y: self.y.div(s), z: self.z.div(s) }
    }

    pub open spec fn dot_spec(self, rhs: Self) -> F {
        self.x.mul_spec(rhs.x).add_spec(self.y.mul_spec(rhs.y)).add_spec(self.z.mul_spec(rhs.z))
    }

    pub fn dot(&self, rhs: &Self) -> (r: F)
        ensures
            r == self.dot_spec(*rhs),
    {
        self.x.mul(rhs.x).add(self.y.mul(rhs.y)).add(self.z.mul(rhs.z))
    }

    pub open spec fn cross_spec(self, rhs: Self) -> Self {
        Vector3 {
            x: self.y.mul_spec(rhs.z).sub_spec(self.z.mul_spec(rhs.y)),
            y: self.z.mul_spec(rhs.x).sub_spec(self.x.mul_spec(rhs.z)),
            z: self.x.mul_spec(rhs.y).sub_spec(self.y.mul_spec(rhs.x)),
        }
    }

    pub fn cross(&self, rhs: &Self) -> (r: Self)
        ensures
            r == self.cross_spec(*rhs),
    {
        Vector3 {
            x: self.y.mul(rhs.z).sub(self.z.mul(rhs.y)),
            y: self.z.mul(rhs.x).sub(self.x.mul(rhs.z)),
            z: self.x.mul(rhs.y).sub(self.y.mul(rhs.x)),
        }
    }

    /// The point at `t` on the straight way from `self` to `rhs`:
    /// `self * (1 - t) + rhs * t`.
    pub open spec fn lerp_spec(self, rhs: Self, t: F) -> Self {
        self.scale_spec(F::from_i32_spec(1).sub_spec(t)).add_spec(rhs.scale_spec(t))
    }

    pub fn lerp(&self, rhs: &Self, t: F) -> (r: Self)
        ensures
            r == self.lerp_spec(*rhs, t),
    {
        self.scale(F::from_i32(1).sub(t)).add(&rhs.scale(t))
    }

    /// The vector divided by its length.
    pub open spec fn normalize_spec(self) -> Self {
        self.unscale_spec(self.norm_spec())
    }

    pub fn normalize(&self) -> (r: Self)
        ensures
            r == self.normalize_spec(),
    {
        self.unscale(self.norm())
    }

    /// The Euclidean length: the root of the sum of the squares, added in order.
    pub open spec fn norm_spec(self) -> F {
        self.dot_spec(self).sqrt_spec()
    }

    pub fn norm(&self) -> (r: F)
        ensures
            r == self.norm_spec(),
    {
        self.dot(self).sqrt()
    }
}

/// The sum of two sequences of one length, entry by entry.
pub open spec fn seq_add<F: Float>(a: Seq<F>, b: Seq<F>) -> Seq<F> {
    Seq::new(a.len(), |i: int| a[i].add_spec(b[i]))
}

pub fn vec_add<F: Float>(a: &Vec<F>, b: &Vec<F>) -> (r: Vec<F>)
    requires
        a@.len() == b@.len(),
    ensures
        r@ == seq_add(a@, b@),
{
    let n = a.len();
    let mut r: Vec<F> = Vec::with_capacity(n);
    let mut i: usize = 0;
    while i < n
        invariant
            i <= n,
            n == a@.len(),
            n == b@.len(),
            r@.len() == i,
            forall|j: int| 0 <= j < i ==> r@[j] == a@[j].add_spec(b@[j]),
        decreases n - i,
    {
        r.push(a[i].add(b[i]));
        i += 1;
    }
    assert(r@ =~= seq_add(a@, b@));
    r
}

/// Every entry of a sequence times `s`.
pub open spec fn seq_scale<F: Float>(a: Seq<F>, s: F) -> Seq<F> {
    Seq::new(a.len(), |i: int| a[i].mul_spec(s))
}

pub fn vec_scale<F: Float>(a: &Vec<F>, s: F) -> (r: Vec<F>)
    ensures
        r@ == seq_scale(a@, s),
{
    let n = a.len();
    let mut r: Vec<F> = Vec::with_capacity(n);
    let mut i: usize = 0;
    while i < n
        invariant
            i <= n,
            n == a@.len(),
            r@.len() == i,
            forall|j: int| 0 <= j < i ==> r@[j] == a@[j].mul_spec(s),
        decreases n - i,
    {
        r.push(a[i].mul(s));
        i += 1;
    }
    assert(r@ =~= seq_scale(a@, s));
    r
}

/// Every entry of a sequence divided by `s`.
pub open spec fn seq_unscale<F: Float>(a: Seq<F>, s: F) -> Seq<F> {
    Seq::new(a.len(), |i: int| a[i].div_spec(s))
}

pub fn vec_unscale<F: Float>(a: &Vec<F>, s: F) -> (r: Vec<F>)
    ensures
        r@ == seq_unscale(a@, s),
{
    let n = a.len();
    let mut r: Vec<F> = Vec::with_capacity(n);
    let mut i: usize = 0;
    while i < n
        invariant
            i <= n,
            n == a@.len(),
            r@.len() == i,
            forall|j: int| 0 <= j < i ==> r@[j] == a@[j].div_spec(s),
        decreases n - i,
    {
        r.push(a[i].div(s));
        i += 1;
    }
    assert(r@ =~= seq_unscale(a@, s));
    r
}

/// A square matrix of three rows, stored row by row.
#[derive(Clone, Copy, Debug, PartialEq)]
pub struct Matrix3<F>(pub [[F; 3]; 3]);

impl<F: Float> Matrix3<F> {
    pub open spec fn row(self, i: int) -> Vector3<F> {
        Vector3 { x: self.0[i][0], y: self.0[i][1], z: self.0[i][2] }
    }

    pub open spec fn from_rows_spec(r0: Vector3<F>, r1: Vector3<F>, r2: Vector3<F>) -> Self {
        Matrix3([[r0.x, r0.y, r0.z], [r1.x, r1.y, r1.z], [r2.x, r2.y, r2.z]])
    }

    pub fn from_rows(r0: Vector3<F>, r1: Vector3<F>, r2: Vector3<F>) -> (r: Self)
        ensures
            r == Self::from_rows_spec(r0, r1, r2),
            r.row(0) == r0,
            r.row(1) == r1,
            r.row(2) == r2,
    {
        Matrix3([[r0.x, r0.y, r0.z], [r1.x, r1.y, r1.z], [r2.x, r2.y, r2.z]])
    }

    pub open spec fn identity_spec() -> Self {
        let o = F::from_i32_spec(1);
        let z = F::from_i32_spec(0);
        Matrix3([[o, z, z], [z, o, z], [z, z, o]])
    }

    pub fn identity() -> (r: Self)
        ensures
            r == Self::identity_spec(),
    {
        let o = F::from_i32(1);
        let z = F::from_i32(0);
        Matrix3([[o, z, z], [z, o, z], [z, z, o]])
    }

    /// The rotation about the unit vector `axis` by an angle with the sine
    /// `sin` and the cosine `cos`.
    pub open spec fn from_axis_angle_spec(axis: Vector3<F>, sin: F, cos: F) -> Self {
        let (ux, uy, uz) = (axis.x, axis.y, axis.z);
        let one = F::from_i32_spec(1);
        let sqx = ux.mul_spec(ux);
        let sqy = uy.mul_spec(uy);
        let sqz = uz.mul_spec(uz);
        let one_m_cos = one.sub_spec(cos);
        Matrix3(
            [
                [
                    sqx.add_spec(one.sub_spec(sqx).mul_spec(cos)),
                    ux.mul_spec(uy).mul_spec(one_m_cos).sub_spec(uz.mul_spec(sin)),
                    ux.mul_spec(uz).mul_spec(one_m_cos).add_spec(uy.mul_spec(sin)),
                ],
                [
                    ux.mul_spec(uy).mul_spec(one_m_cos).add_spec(uz.mul_spec(sin)),
                    sqy.add_spec(one.sub_spec(sqy).mul_spec(cos)),
                    uy.mul_spec(uz).mul_spec(one_m_cos).sub_spec(ux.mul_spec(sin)),
                ],
                [
                    ux.mul_spec(uz).mul_spec(one_m_cos).sub_spec(uy.mul_spec(sin)),
                    uy.mul_spec(uz).mul_spec(one_m_cos).add_spec(ux.mul_spec(sin)),
                    sqz.add_spec(one.sub_spec(sqz).mul_spec(cos)),
                ],
            ],
        )
    }

    pub fn from_axis_angle_from(axis: &Vector3<F>, sin: F, cos: F) -> (r: Self)
        ensures
            r == Self::from_axis_angle_spec(*axis, sin, cos),
    {
        let (ux, uy, uz) = (axis.x, axis.y, axis.z);
        let one = F::from_i32(1);
        let sqx = ux.mul(ux);
        let sqy = uy.mul(uy);
        let sqz = uz.mul(uz);
        let one_m_cos = one.sub(cos);
        Matrix3(
            [
                [
                    sqx.add(one.sub(sqx).mul(cos)),
                    ux.mul(uy).mul(one_m_cos).sub(uz.mul(sin)),
                    ux.mul(uz).mul(one_m_cos).add(uy.mul(sin)),
                ],
                [
                    ux.mul(uy).mul(one_m_cos).add(uz.mul(sin)),
                    sqy.add(one.sub(sqy).mul(cos)),
                    uy.mul(uz).mul(one_m_cos).sub(ux.mul(sin)),
                ],
                [
                    ux.mul(uz).mul(one_m_cos).sub(uy.mul(sin)),
                    uy.mul(uz).mul(one_m_cos).add(ux.mul(sin)),
                    sqz.add(one.sub(sqz).mul(cos)),
                ],
            ],
        )
    }

    /// The product with a column vector: each row's dot product with `v`.
    pub open spec fn mul_vec_spec(self, v: Vector3<F>) -> Vector3<F> {
        Vector3 {
            x: self.row(0).dot_spec(v),
            y: self.row(1).dot_spec(v),
            z: self.row(2).dot_spec(v),
        }
    }

    pub fn mul_vec(&self, v: &Vector3<F>) -> (r: Vector3<F>)
        ensures
            r == self.mul_vec_spec(*v),
    {
        let r0 = Vector3 { x: self.0[0][0], y: self.0[0][1], z: self.0[0][2] };
        let r1 = Vector3 { x: self.0[1][0], y: self.0[1][1], z: self.0[1][2] };
        let r2 = Vector3 { x: self.0[2][0], y: self.0[2][1], z: self.0[2][2] };
        Vector3 { x: r0.dot(v), y: r1.dot(v), z: r2.dot(v) }
    }

    /// Every entry times `s`.
    pub open spec fn scale_spec(self, s: F) -> Self {
        Self::from_rows_spec(
            self.row(0).scale_spec(s),
            self.row(1).scale_spec(s),
            self.row(2).scale_spec(s),
        )
    }

    pub fn scale(&self, s: F) -> (r: Self)
        ensures
            r == self.scale_spec(s),
    {
        let r0 = Vector3 { x: self.0[0][0], y: self.0[0][1], z: self.0[0][2] };
        let r1 = Vector3 { x: self.0[1][0], y: self.0[1][1], z: self.0[1][2] };
        let r2 = Vector3 { x: self.0[2][0], y: self.0[2][1], z: self.0[2][2] };
        Self::from_rows(r0.scale(s), r1.scale(s), r2.scale(s))
    }

    /// The determinant, expanded along the first row.
    pub open spec fn determinant_spec(self) -> F {
        let m = self.0;
        let minor_0 = m[1][1].mul_spec(m[2][2]).sub_spec(m[2][1].mul_spec(m[1][2]));
        let minor_1 = m[1][0].mul_spec(m[2][2]).sub_spec(m[2][0].mul_spec(m[1][2]));
        let minor_2 = m[1][0].mul_spec(m[2][1]).sub_spec(m[2][0].mul_spec(m[1][1]));
        m[0][0].mul_spec(minor_0).sub_spec(m[0][1].mul_spec(minor_1)).add_spec(
            m[0][2].mul_spec(minor_2),
        )
    }

    pub fn determinant(&self) -> (r: F)
        ensures
            r == self.determinant_spec(),
    {
        let m = &self.0;
        let minor_0 = m[1][1].mul(m[2][2]).sub(m[2][1].mul(m[1][2]));
        let minor_1 = m[1][0].mul(m[2][2]).sub(m[2][0].mul(m[1][2]));
        let minor_2 = m[1][0].mul(m[2][1]).sub(m[2][0].mul(m[1][1]));
        m[0][0].mul(minor_0).sub(m[0][1].mul(minor_1)).add(m[0][2].mul(minor_2))
    }

    /// Whether the determinant is other than zero.
    pub open spec fn invertible_spec(self) -> bool {
        !self.determinant_spec().eq_spec(F::from_i32_spec(0))
    }

    pub fn invertible(&self) -> (r: bool)
        ensures
            r == self.invertible_spec(),
    {
        !self.determinant().eq(F::from_i32(0))
    }

    /// The adjugate divided by the determinant, entry by entry.
    pub open spec fn inverse_spec(self) -> Self {
        let m = self.0;
        let d = self.determinant_spec();
        Matrix3(
            [
                [
                    m[1][1].mul_spec(m[2][2]).sub_spec(m[2][1].mul_spec(m[1][2])).div_spec(d),
                    m[0][2].mul_spec(m[2][1]).sub_spec(m[2][2].mul_spec(m[0][1])).div_spec(d),
                    m[0][1].mul_spec(m[1][2]).sub_spec(m[1][1].mul_spec(m[0][2])).div_spec(d),
                ],
                [
                    m[1][0].mul_spec(m[2][2]).sub_spec(
                        m[2][0].mul_spec(m[1][2]),
                    ).neg_spec().div_spec(d),
                    m[0][0].mul_spec(m[2][2]).sub_spec(m[2][0].mul_spec(m[0][2])).div_spec(d),
                    m[0][2].mul_spec(m[1][0]).sub_spec(m[1][2].mul_spec(m[0][0])).div_spec(d),
                ],
                [
                    m[1][0].mul_spec(m[2][1]).sub_spec(m[2][0].mul_spec(m[1][1])).div_spec(d),
                    m[0][1].mul_spec(m[2][0]).sub_spec(m[2][1].mul_spec(m[0][0])).div_spec(d),
                    m[0][0].mul_spec(m[1][1]).sub_spec(m[1][0].mul_spec(m[0][1])).div_spec(d),
                ],
            ],
        )
    }

    /// The inverse, or `None` exactly when the determinant equals zero.
    pub fn try_inverse(&self) -> (r: Option<Self>)
        ensures
            r.is_some() == self.invertible_spec(),
            r.is_some() ==> r.unwrap() == self.inverse_spec(),
    {
        let m = &self.0;
        let d = self.determinant();
        if d.eq(F::from_i32(0)) {
            None
        } else {
            Some(
                Matrix3(
                    [
                        [
                            m[1][1].mul(m[2][2]).sub(m[2][1].mul(m[1][2])).div(d),
                            m[0][2].mul(m[2][1]).sub(m[2][2].mul(m[0][1])).div(d),
                            m[0][1].mul(m[1][2]).sub(m[1][1].mul(m[0][2])).div(d),
                        ],
                        [
                            m[1][0].mul(m[2][2]).sub(m[2][0].mul(m[1][2])).neg().div(d),
                            m[0][0].mul(m[2][2]).sub(m[2][0].mul(m[0][2])).div(d),
                            m[0][2].mul(m[1][0]).sub(m[1][2].mul(m[0][0])).div(d),
                        ],
                        [
                            m[1][0].mul(m[2][1]).sub(m[2][0].mul(m[1][1])).div(d),
                            m[0][1].mul(m[2][0]).sub(m[2][1].mul(m[0][0])).div(d),
                            m[0][0].mul(m[1][1]).sub(m[1][0].mul(m[0][1])).div(d),
                        ],
                    ],
                ),
            )
        }
    }
}

/// A square matrix of four rows, stored row by row: a transform of
/// homogeneous coordinates.
#[derive(Clone, Copy, Debug, PartialEq)]
pub struct Matrix4<F>(pub [[F; 4]; 4]);

/// The dot product of two vectors of four scalars, added in order.
pub open spec fn dot4_spec<F: Float>(a: [F; 4], b: [F; 4]) -> F {
    a[0].mul_spec(b[0]).add_spec(a[1].mul_spec(b[1])).add_spec(a[2].mul_spec(b[2])).add_spec(
        a[3].mul_spec(b[3]),
    )
}

pub fn dot4<F: Float>(a: &[F; 4], b: &[F; 4]) -> (r: F)
    ensures
        r == dot4_spec(*a, *b),
{
    a[0].mul(b[0]).add(a[1].mul(b[1])).add(a[2].mul(b[2])).add(a[3].mul(b[3]))
}

/// The vector of four scalars divided by its length: the root of the sum of
/// the four squares, added in order.
pub open spec fn normalize4_spec<F: Float>(v: [F; 4]) -> [F; 4] {
    let n = dot4_spec(v, v).sqrt_spec();
    [v[0].div_spec(n), v[1].div_spec(n), v[2].div_spec(n), v[3].div_spec(n)]
}

pub fn normalize4<F: Float>(v: &[F; 4]) -> (r: [F; 4])
    ensures
        r == normalize4_spec(*v),
{
    let n = dot4(v, v).sqrt();
    [v[0].div(n), v[1].div(n), v[2].div(n), v[3].div(n)]
}

impl<F: Float> Matrix4<F> {
    pub open spec fn zeros_spec() -> Self {
        let z = F::from_i32_spec(0);
        Matrix4([[z, z, z, z], [z, z, z, z], [z, z, z, z], [z, z, z, z]])
    }

    pub fn zeros() -> (r: Self)
        ensures
            r == Self::zeros_spec(),
    {
        let z = F::from_i32(0);
        Matrix4([[z, z, z, z], [z, z, z, z], [z, z, z, z], [z, z, z, z]])
    }

    pub open spec fn identity_spec() -> Self {
        let o = F::from_i32_spec(1);
        let z = F::from_i32_spec(0);
        Matrix4([[o, z, z, z], [z, o, z, z], [z, z, o, z], [z, z, z, o]])
    }

    pub fn identity() -> (r: Self)
        ensures
            r == Self::identity_spec(),
    {
        let o = F::from_i32(1);
        let z = F::from_i32(0);
        Matrix4([[o, z, z, z], [z, o, z, z], [z, z, o, z], [z, z, z, o]])
    }

    /// The transform that moves every point by `v`.
    pub open spec fn translation_spec(v: Vector3<F>) -> Self {
        let o = F::from_i32_spec(1);
        let z = F::from_i32_spec(0);
        Matrix4([[o, z, z, v.x], [z, o, z, v.y], [z, z, o, v.z], [z, z, z, o]])
    }

    pub fn translation(v: &Vector3<F>) -> (r: Self)
        ensures
            r == Self::translation_spec(*v),
    {
        let o = F::from_i32(1);
        let z = F::from_i32(0);
        Matrix4([[o, z, z, v.x], [z, o, z, v.y], [z, z, o, v.z], [z, z, z, o]])
    }

    /// The transform that stretches space by `x`, `y` and `z` along the axes.
    pub open spec fn scaling_spec(x: F, y: F, z: F) -> Self {
        let o = F::from_i32_spec(1);
        let n = F::from_i32_spec(0);
        Matrix4([[x, n, n, n], [n, y, n, n], [n, n, z, n], [n, n, n, o]])
    }

    pub fn scaling(x: F, y: F, z: F) -> (r: Self)
        ensures
            r == Self::scaling_spec(x, y, z),
    {
        let o = F::from_i32(1);
        let n = F::from_i32(0);
        Matrix4([[x, n, n, n], [n, y, n, n], [n, n, z, n], [n, n, n, o]])
    }

    /// The linear map `m` as a transform of homogeneous coordinates.
    pub open spec fn from_linear_spec(m: Matrix3<F>) -> Self {
        let o = F::from_i32_spec(1);
        let z = F::from_i32_spec(0);
        Matrix4(
            [
                [m.0[0][0], m.0[0][1], m.0[0][2], z],
                [m.0[1][0], m.0[1][1], m.0[1][2], z],
                [m.0[2][0], m.0[2][1], m.0[2][2], z],
                [z, z, z, o],
            ],
        )
    }

    pub fn from_linear(m: &Matrix3<F>) -> (r: Self)
        ensures
            r == Self::from_linear_spec(*m),
    {
        let o = F::from_i32(1);
        let z = F::from_i32(0);
        Matrix4(
            [
                [m.0[0][0], m.0[0][1], m.0[0][2], z],
                [m.0[1][0], m.0[1][1], m.0[1][2], z],
                [m.0[2][0], m.0[2][1], m.0[2][2], z],
                [z, z, z, o],
            ],
        )
    }

    pub open spec fn column(self, j: int) -> [F; 4] {
        [self.0[0][j], self.0[1][j], self.0[2][j], self.0[3][j]]
    }

    /// The entry of the product `self * rhs` in row `i` and column `j`.
    pub open spec fn mul_entry_spec(self, rhs: Self, i: int, j: int) -> F {
        dot4_spec(self.0[i], rhs.column(j))
    }

    fn mul_entry(&self, rhs: &Self, i: usize, j: usize) -> (r: F)
        requires
            i < 4,
            j < 4,
        ensures
            r == self.mul_entry_spec(*rhs, i as int, j as int),
    {
        let column = [rhs.0[0][j], rhs.0[1][j], rhs.0[2][j], rhs.0[3][j]];
        dot4(&self.0[i], &column)
    }

    fn mul_row(&self, rhs: &Self, i: usize) -> (r: [F; 4])
        requires
            i < 4,
        ensures
            r == self.mul_row_spec(*rhs, i as int),
    {
        [
            self.mul_entry(rhs, i, 0),
            self.mul_entry(rhs, i, 1),
            self.mul_entry(rhs, i, 2),
            self.mul_entry(rhs, i, 3),
        ]
    }

    /// Row `i` of the product `self * rhs`.
    pub open spec fn mul_row_spec(self, rhs: Self, i: int) -> [F; 4] {
        [
            self.mul_entry_spec(rhs, i, 0),
            self.mul_entry_spec(rhs, i, 1),
            self.mul_entry_spec(rhs, i, 2),
            self.mul_entry_spec(rhs, i, 3),
        ]
    }

    /// The matrix product: entry `(i, j)` is row `i` of `self` times column `j` of `rhs`.
    pub open spec fn mul_spec(self, rhs: Self) -> Self {
        Matrix4(
            [
                self.mul_row_spec(rhs, 0),
                self.mul_row_spec(rhs, 1),
                self.mul_row_spec(rhs, 2),
                self.mul_row_spec(rhs, 3),
            ],
        )
    }

    pub fn mul(&self, rhs: &Self) -> (r: Self)
        ensures
            r == self.mul_spec(*rhs),
    {
        Matrix4(
            [
                self.mul_row(rhs, 0),
                self.mul_row(rhs, 1),
                self.mul_row(rhs, 2),
                self.mul_row(rhs, 3),
            ],
        )
    }

    /// The product with a column of four homogeneous coordinates.
    pub open spec fn mul_vec_spec(self, v: [F; 4]) -> [F; 4] {
        [
            dot4_spec(self.0[0], v),
            dot4_spec(self.0[1], v),
            dot4_spec(self.0[2], v),
            dot4_spec(self.0[3], v),
        ]
    }

    pub fn mul_vec(&self, v: &[F; 4]) -> (r: [F; 4])
        ensures
            r == self.mul_vec_spec(*v),
    {
        [dot4(&self.0[0], v), dot4(&self.0[1], v), dot4(&self.0[2], v), dot4(&self.0[3], v)]
    }

    /// The image of the point `p`: the transform applied to `(p, 1)`, then
    /// divided by the fourth coordinate, or the origin where that is zero.
    pub open spec fn transform_point_spec(self, p: Vector3<F>) -> Vector3<F> {
        let h = self.mul_vec_spec([p.x, p.y, p.z, F::from_i32_spec(1)]);
        if h[3].eq_spec(F::from_i32_spec(0)) {
            Vector3::zeros_spec()
        } else {
            (Vector3 { x: h[0], y: h[1], z: h[2] }).unscale_spec(h[3])
        }
    }

    pub fn transform_point(&self, p: &Vector3<F>) -> (r: Vector3<F>)
        ensures
            r == self.transform_point_spec(*p),
    {
        let h = self.mul_vec(&[p.x, p.y, p.z, F::from_i32(1)]);
        if h[3].eq(F::from_i32(0)) {
            Vector3::zeros()
        } else {
            Vector3 { x: h[0], y: h[1], z: h[2] }.unscale(h[3])
        }
    }
}

} // verus!
