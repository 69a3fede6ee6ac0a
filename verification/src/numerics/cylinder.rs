use vstd::prelude::*;

use crate::numerics::linalg::Vector3;
use crate::numerics::parametric::ParametricForm;
use crate::numerics::{clamp, clamp_spec, ratio, ratio_spec, Float};
use crate::render::gridable::Triangable;
use crate::render::mesh::{ClassicVertex, Triangle};

verus! {

/// A cylinder about the z axis, closed at both ends.
#[derive(Copy, Clone, Debug)]
pub struct Cylinder<F> {
    pub radius: F,
    pub length: F,
}

/// The most points round a cylinder that a triangulation can have.
pub const MAX_POINTS: u32 = 1000000000;

/// The angle of point `i` of `points_x` round the cylinder: the points are
/// spread over a full turn, the first and the last at its two ends.
pub open spec fn ring_angle_spec<F: Float>(i: int, points_x: int) -> F {
    F::from_i32_spec(i as i32).div_spec(F::from_i32_spec((points_x - 1) as i32)).mul_spec(
        F::pi_spec(),
    ).mul_spec(F::from_i32_spec(2))
}

/// The parts of a triangulated cylinder: its two lids, each a fan round a
/// centre, and the top and the bottom rim of its wall.
pub enum Ring {
    Top,
    Bottom,
    SideTop,
    SideBottom,
}

/// The height of a part of the cylinder: one for the top, minus one for the bottom.
pub open spec fn ring_height_spec<F: Float>(ring: Ring) -> F {
    match ring {
        Ring::Top | Ring::SideTop => F::from_i32_spec(1),
        Ring::Bottom | Ring::SideBottom => F::from_i32_spec(1).neg_spec(),
    }
}

/// The vertex of a part of the cylinder at an angle with the cosine `cos`
/// and the sine `sin`: on the unit circle at the part's height; its normal
/// points along the axis on a lid and outwards on the wall.
pub open spec fn ring_vertex_spec<F: Float>(ring: Ring, cos: F, sin: F) -> ClassicVertex<F> {
    let zero = F::from_i32_spec(0);
    let height = ring_height_spec::<F>(ring);
    ClassicVertex {
        position: Vector3 { x: cos, y: sin, z: height },
        normal: match ring {
            Ring::Top | Ring::Bottom => Vector3 { x: zero, y: zero, z: height },
            Ring::SideTop | Ring::SideBottom => Vector3 { x: cos, y: sin, z: zero },
        },
    }
}

/// Whether `v` is a vertex of a part of the cylinder at the angle `t`.
pub open spec fn is_ring_vertex<F: Float>(ring: Ring, t: F, v: ClassicVertex<F>) -> bool {
    exists|cos: F, sin: F|
        #[trigger] t.cos_rel(cos) && #[trigger] t.sin_rel(sin) && v == ring_vertex_spec(
            ring,
            cos,
            sin,
        )
}

/// The centre of a lid.
pub open spec fn centre_vertex_spec<F: Float>(ring: Ring) -> ClassicVertex<F> {
    let zero = F::from_i32_spec(0);
    let height = ring_height_spec::<F>(ring);
    ClassicVertex {
        position: Vector3 { x: zero, y: zero, z: height },
        normal: Vector3 { x: zero, y: zero, z: height },
    }
}

/// Triangle `k` of a cylinder with `n` points round: the first `2 n` close
/// the lids, in turn one of the top and one of the bottom; the other `2 n`
/// make the wall, two for each of its faces.
pub open spec fn cylinder_triangle_spec(n: int, k: int) -> Seq<u32> {
    let top_centre = 0int;
    let bottom_centre = n + 1;
    let sides_top = 2 * n + 2;
    let sides_bottom = 3 * n + 2;
    let i = if k < 2 * n {
        k / 2
    } else {
        (k - 2 * n) / 2
    };
    let j = (i + 1) % n;
    if k < 2 * n {
        if k % 2 == 0 {
            seq![(i + top_centre + 1) as u32, (j + top_centre + 1) as u32, top_centre as u32]
        } else {
            seq![(j + bottom_centre + 1) as u32, (i + bottom_centre + 1) as u32, bottom_centre as u32]
        }
    } else {
        if k % 2 == 0 {
            seq![(j + sides_top) as u32, (i + sides_top) as u32, (i + sides_bottom) as u32]
        } else {
            seq![(i + sides_bottom) as u32, (j + sides_bottom) as u32, (j + sides_top) as u32]
        }
    }
}

/// Whether `vertices` are the vertices of a cylinder with `n` points round:
/// the centre of the top and its ring, the centre of the bottom and its
/// ring, the top rim of the wall and its bottom rim.
pub open spec fn is_cylinder_vertex<F: Float>(n: int, i: int, v: ClassicVertex<F>) -> bool {
    if i == 0 {
        v == centre_vertex_spec::<F>(Ring::Top)
    } else if i <= n {
        is_ring_vertex(Ring::Top, ring_angle_spec::<F>(i - 1, n), v)
    } else if i == n + 1 {
        v == centre_vertex_spec::<F>(Ring::Bottom)
    } else if i <= 2 * n + 1 {
        is_ring_vertex(Ring::Bottom, ring_angle_spec::<F>(i - n - 2, n), v)
    } else if i <= 3 * n + 1 {
        is_ring_vertex(Ring::SideTop, ring_angle_spec::<F>(i - 2 * n - 2, n), v)
    } else {
        is_ring_vertex(Ring::SideBottom, ring_angle_spec::<F>(i - 3 * n - 2, n), v)
    }
}

impl<F: Float> Cylinder<F> {
    pub fn new(radius: F, length: F) -> (r: Self)
        ensures
            r.radius == radius,
            r.length == length,
    {
        Self { radius, length }
    }

    /// The radius at the height parameter `y`: the full radius along the
    /// wall, from zero to one; beyond the wall it shrinks to nothing within
    /// a tenth, which closes the ends.
    pub open spec fn r_at_spec(&self, y: F) -> F {
        let zero = F::from_i32_spec(0);
        let one = F::from_i32_spec(1);
        let ten = F::from_i32_spec(10);
        self.radius.mul_spec(
            if y.lt_spec(zero) {
                ten.mul_spec(y.add_spec(ratio_spec::<F>(1, 10)))
            } else if one.lt_spec(y) {
                ten.mul_spec(ratio_spec::<F>(11, 10).sub_spec(y))
            } else {
                one
            },
        )
    }

    fn r_at(&self, vec: &[F; 2]) -> (r: F)
        ensures
            r == self.r_at_spec(vec[1]),
    {
        let zero = F::from_i32(0);
        let one = F::from_i32(1);
        let ten = F::from_i32(10);
        self.radius.mul(
            if vec[1].lt(zero) {
                ten.mul(vec[1].add(ratio(1, 10)))
            } else if one.lt(vec[1]) {
                ten.mul(ratio::<F>(11, 10).sub(vec[1]))
            } else {
                one
            },
        )
    }

    /// The direction of the normal at the parameters `vec`, for an angle
    /// with the cosine `cos` and the sine `sin`: along the axis beyond the
    /// wall, outwards on it.
    pub open spec fn normal_from_spec(vec: [F; 2], cos: F, sin: F) -> Vector3<F> {
        let zero = F::from_i32_spec(0);
        let one = F::from_i32_spec(1);
        (if vec[1].lt_spec(zero) {
            Vector3 { x: zero, y: zero, z: one.neg_spec() }
        } else if one.lt_spec(vec[1]) {
            Vector3 { x: zero, y: zero, z: one }
        } else {
            Vector3 { x: cos, y: sin, z: zero }
        }).normalize_spec()
    }

    fn ring_vertex(ring: Ring, t: F) -> (r: ClassicVertex<F>)
        ensures
            is_ring_vertex(ring, t, r),
    {
        let cos = t.cos();
        let sin = t.sin();
        let zero = F::from_i32(0);
        let height = match ring {
            Ring::Top | Ring::SideTop => F::from_i32(1),
            Ring::Bottom | Ring::SideBottom => F::from_i32(1).neg(),
        };
        let normal = match ring {
            Ring::Top | Ring::Bottom => Vector3 { x: zero, y: zero, z: height },
            Ring::SideTop | Ring::SideBottom => Vector3 { x: cos, y: sin, z: zero },
        };
        let r = ClassicVertex::new(Vector3 { x: cos, y: sin, z: height }, normal);
        assert(t.cos_rel(cos) && t.sin_rel(sin) && r == ring_vertex_spec(ring, cos, sin));
        r
    }

    fn centre_vertex(ring: Ring) -> (r: ClassicVertex<F>)
        ensures
            r == centre_vertex_spec::<F>(ring),
    {
        let zero = F::from_i32(0);
        let height = match ring {
            Ring::Top | Ring::SideTop => F::from_i32(1),
            Ring::Bottom | Ring::SideBottom => F::from_i32(1).neg(),
        };
        ClassicVertex::new(
            Vector3 { x: zero, y: zero, z: height },
            Vector3 { x: zero, y: zero, z: height },
        )
    }

    fn ring_angle(i: u32, points_x: u32) -> (r: F)
        requires
            i < points_x <= MAX_POINTS,
        ensures
            r == ring_angle_spec::<F>(i as int, points_x as int),
    {
        let this: i32 = i as i32;
        let last: i32 = (points_x - 1) as i32;
        F::from_i32(this).div(F::from_i32(last)).mul(F::pi()).mul(F::from_i32(2))
    }
}

impl<F: Float> ParametricForm<F, 2, 3> for Cylinder<F> {
    /// A full turn for the angle; for the height the wall from zero to one,
    /// and a tenth beyond it at either end for the lids.
    open spec fn bounds_spec(&self) -> [(F, F); 2] {
        [
            (F::from_i32_spec(0), F::from_i32_spec(2).mul_spec(F::pi_spec())),
            (ratio_spec::<F>(1, 10).neg_spec(), ratio_spec::<F>(11, 10)),
        ]
    }

    fn bounds(&self) -> (r: [(F, F); 2]) {
        [
            (F::from_i32(0), F::from_i32(2).mul(F::pi())),
            (ratio::<F>(1, 10).neg(), ratio::<F>(11, 10)),
        ]
    }

    /// The cylinder closes on itself round its angle, not along its height.
    open spec fn wrapped_spec(&self, dim: usize) -> bool {
        dim == 0
    }

    fn wrapped(&self, dim: usize) -> (r: bool) {
        dim == 0
    }

    open spec fn value_rel(&self, vec: [F; 2], r: [F; 3]) -> bool {
        exists|cos: F, sin: F|
            #[trigger] vec[0].cos_rel(cos) && #[trigger] vec[0].sin_rel(sin) && r == [
                self.r_at_spec(vec[1]).mul_spec(cos),
                self.r_at_spec(vec[1]).mul_spec(sin),
                self.length.mul_spec(
                    clamp_spec(vec[1], F::from_i32_spec(0), F::from_i32_spec(1)),
                ),
            ]
    }

    fn value(&self, vec: &[F; 2]) -> (r: [F; 3]) {
        let radius = self.r_at(vec);
        let cos = vec[0].cos();
        let sin = vec[0].sin();
        let r = [
            radius.mul(cos),
            radius.mul(sin),
            self.length.mul(clamp(vec[1], F::from_i32(0), F::from_i32(1))),
        ];
        assert(vec[0].cos_rel(cos) && vec[0].sin_rel(sin));
        r
    }

    open spec fn normal_rel(&self, vec: [F; 2], r: [F; 3]) -> bool {
        exists|cos: F, sin: F|
            {
                let n = Self::normal_from_spec(vec, cos, sin);
                #[trigger] vec[0].cos_rel(cos) && #[trigger] vec[0].sin_rel(sin) && r == [
                    n.x,
                    n.y,
                    n.z,
                ]
            }
    }

    fn normal(&self, vec: &[F; 2]) -> (r: [F; 3]) {
        let zero = F::from_i32(0);
        let one = F::from_i32(1);
        let cos = vec[0].cos();
        let sin = vec[0].sin();
        let n = (if vec[1].lt(zero) {
            Vector3 { x: zero, y: zero, z: one.neg() }
        } else if one.lt(vec[1]) {
            Vector3 { x: zero, y: zero, z: one }
        } else {
            Vector3 { x: cos, y: sin, z: zero }
        }).normalize();
        assert(vec[0].cos_rel(cos) && vec[0].sin_rel(sin) && n == Self::normal_from_spec(
            *vec,
            cos,
            sin,
        ));
        [n.x, n.y, n.z]
    }
}

impl<F: Float> Triangable<F> for Cylinder<F> {
    /// A cylinder of radius and half length one, with `points_x` points
    /// round; `points_y` plays no part.
    open spec fn is_triangulation(
        &self,
        points_x: u32,
        points_y: u32,
        vertices: Seq<ClassicVertex<F>>,
        triangles: Seq<Triangle>,
    ) -> bool {
        let n = points_x as int;
        &&& vertices.len() == 4 * n + 2
        &&& triangles.len() == 4 * n
        &&& forall|i: int| 0 <= i < vertices.len() ==> is_cylinder_vertex(n, i, #[trigger] vertices[i])
        &&& forall|k: int|
            0 <= k < triangles.len() ==> (#[trigger] triangles[k]).0@ == cylinder_triangle_spec(n, k)
    }

    open spec fn limit_spec(&self) -> u32 {
        MAX_POINTS
    }

    fn triangulation(&self, points_x: u32, points_y: u32) -> (r: (
        Vec<ClassicVertex<F>>,
        Vec<Triangle>,
    )) {
        let n = points_x;
        let mut vertices: Vec<ClassicVertex<F>> = Vec::new();

        // Top
        let top_center_idx: u32 = 0;
        vertices.push(Self::centre_vertex(Ring::Top));
        let mut i: u32 = 0;
        while i < n
            invariant
                i <= n <= MAX_POINTS,
                vertices@.len() == i + 1,
                forall|j: int| 0 <= j < vertices@.len() ==> is_cylinder_vertex(n as int, j, #[trigger] vertices@[j]),
            decreases n - i,
        {
            vertices.push(Self::ring_vertex(Ring::Top, Self::ring_angle(i, n)));
            i += 1;
        }

        // Bottom
        let bottom_center_idx: u32 = n + 1;
        vertices.push(Self::centre_vertex(Ring::Bottom));
        let mut i: u32 = 0;
        while i < n
            invariant
                i <= n <= MAX_POINTS,
                vertices@.len() == n + 2 + i,
                forall|j: int| 0 <= j < vertices@.len() ==> is_cylinder_vertex(n as int, j, #[trigger] vertices@[j]),
            decreases n - i,
        {
            vertices.push(Self::ring_vertex(Ring::Bottom, Self::ring_angle(i, n)));
            i += 1;
        }

        // Side top
        let sides_top_idx: u32 = 2 * n + 2;
        let mut i: u32 = 0;
        while i < n
            invariant
                i <= n <= MAX_POINTS,
                vertices@.len() == 2 * n + 2 + i,
                forall|j: int| 0 <= j < vertices@.len() ==> is_cylinder_vertex(n as int, j, #[trigger] vertices@[j]),
            decreases n - i,
        {
            vertices.push(Self::ring_vertex(Ring::SideTop, Self::ring_angle(i, n)));
            i += 1;
        }

        // Side bottom
        let sides_bottom_idx: u32 = 3 * n + 2;
        let mut i: u32 = 0;
        while i < n
            invariant
                i <= n <= MAX_POINTS,
                vertices@.len() == 3 * n + 2 + i,
                forall|j: int| 0 <= j < vertices@.len() ==> is_cylinder_vertex(n as int, j, #[trigger] vertices@[j]),
            decreases n - i,
        {
            vertices.push(Self::ring_vertex(Ring::SideBottom, Self::ring_angle(i, n)));
            i += 1;
        }

        let mut triangles: Vec<Triangle> = Vec::new();

        let mut i: u32 = 0;
        while i < n
            invariant
                i <= n <= MAX_POINTS,
                top_center_idx == 0,
                bottom_center_idx == n + 1,
                triangles@.len() == 2 * i,
                forall|k: int|
                    0 <= k < triangles@.len() ==> (#[trigger] triangles@[k]).0@
                        == cylinder_triangle_spec(n as int, k),
            decreases n - i,
        {
            let j = (i + 1) % n;
            let top = Triangle([i + top_center_idx + 1, j + top_center_idx + 1, top_center_idx]);
            let bottom = Triangle(
                [j + bottom_center_idx + 1, i + bottom_center_idx + 1, bottom_center_idx],
            );
            assert(top.0@ =~= cylinder_triangle_spec(n as int, 2 * i));
            assert(bottom.0@ =~= cylinder_triangle_spec(n as int, 2 * i + 1));
            triangles.push(top);
            triangles.push(bottom);
            i += 1;
        }

        let mut i: u32 = 0;
        while i < n
            invariant
                i <= n <= MAX_POINTS,
                sides_top_idx == 2 * n + 2,
                sides_bottom_idx == 3 * n + 2,
                triangles@.len() == 2 * n + 2 * i,
                forall|k: int|
                    0 <= k < triangles@.len() ==> (#[trigger] triangles@[k]).0@
                        == cylinder_triangle_spec(n as int, k),
            decreases n - i,
        {
            let j = (i + 1) % n;
            let upper = Triangle([j + sides_top_idx, i + sides_top_idx, i + sides_bottom_idx]);
            let lower = Triangle([i + sides_bottom_idx, j + sides_bottom_idx, j + sides_top_idx]);
            assert(upper.0@ =~= cylinder_triangle_spec(n as int, 2 * n + 2 * i));
            assert(lower.0@ =~= cylinder_triangle_spec(n as int, 2 * n + 2 * i + 1));
            triangles.push(upper);
            triangles.push(lower);
            i += 1;
        }

        (vertices, triangles)
    }
}

/// Every triangle of a triangulated cylinder names vertices that it has.
pub proof fn lemma_cylinder_is_closed(n: int, k: int, c: int)
    requires
        0 <= k < 4 * n,
        0 <= c < 3,
    ensures
        0 <= cylinder_triangle_spec(n, k)[c] < 4 * n + 2 || 4 * n + 2 > u32::MAX,
{
    let i = if k < 2 * n {
        k / 2
    } else {
        (k - 2 * n) / 2
    };
    let j = (i + 1) % n;
    assert(0 <= j < n) by (nonlinear_arith)
        requires
            0 < n,
            j == (i + 1) % n,
    ;
}

} // verus!
