use vstd::prelude::*;

use crate::numerics::linalg::Vector3;
use crate::numerics::Float;

verus! {

/// The 64 control points of a cube of Bezier patches, by their three lattice
/// coordinates.
pub struct Cube<F>(pub [[[Vector3<F>; 4]; 4]; 4]);

/// The lattice coordinates of the point with the number `i`.
pub open spec fn flat_idx_spec(i: int) -> (int, int, int) {
    ((i / 4) / 4, (i / 4) % 4, i % 4)
}

/// The coordinate at rest for the lattice coordinate `i`: the four values
/// are spread evenly over `[-1, 1]`.
pub open spec fn rest_coordinate_spec<F: Float>(i: int) -> F {
    F::from_i32_spec(2).mul_spec(F::from_i32_spec(i as i32).div_spec(F::from_i32_spec(3))).sub_spec(
        F::from_i32_spec(1),
    )
}

/// The point at rest with the lattice coordinates `(u, v, w)`.
pub open spec fn rest_point_spec<F: Float>(u: int, v: int, w: int) -> Vector3<F> {
    Vector3 {
        x: rest_coordinate_spec::<F>(u),
        y: rest_coordinate_spec::<F>(v),
        z: rest_coordinate_spec::<F>(w),
    }
}

fn rest_coordinate<F: Float>(i: usize) -> (r: F)
    requires
        i < 4,
    ensures
        r == rest_coordinate_spec::<F>(i as int),
{
    let n: i32 = i as i32;
    F::from_i32(2).mul(F::from_i32(n).div(F::from_i32(3))).sub(F::from_i32(1))
}

fn rest_point<F: Float>(u: usize, v: usize, w: usize) -> (r: Vector3<F>)
    requires
        u < 4,
        v < 4,
        w < 4,
    ensures
        r == rest_point_spec::<F>(u as int, v as int, w as int),
{
    Vector3 { x: rest_coordinate(u), y: rest_coordinate(v), z: rest_coordinate(w) }
}

fn rest_row<F: Float>(u: usize, v: usize) -> (r: [Vector3<F>; 4])
    requires
        u < 4,
        v < 4,
    ensures
        forall|w: int| 0 <= w < 4 ==> #[trigger] r[w] == rest_point_spec::<F>(u as int, v as int, w),
{
    [rest_point(u, v, 0), rest_point(u, v, 1), rest_point(u, v, 2), rest_point(u, v, 3)]
}

fn rest_plane<F: Float>(u: usize) -> (r: [[Vector3<F>; 4]; 4])
    requires
        u < 4,
    ensures
        forall|v: int, w: int|
            0 <= v < 4 && 0 <= w < 4 ==> #[trigger] r[v][w] == rest_point_spec::<F>(
                u as int,
                v,
                w,
            ),
{
    [rest_row(u, 0), rest_row(u, 1), rest_row(u, 2), rest_row(u, 3)]
}

impl<F: Float> Cube<F> {
    /// The cube at rest: its points spread evenly over `[-1, 1]` along each axis.
    pub fn new() -> (r: Self)
        ensures
            forall|u: int, v: int, w: int|
                0 <= u < 4 && 0 <= v < 4 && 0 <= w < 4 ==> #[trigger] r.0[u][v][w]
                    == rest_point_spec::<F>(u, v, w),
    {
        Cube([rest_plane(0), rest_plane(1), rest_plane(2), rest_plane(3)])
    }

    /// Coordinate `i` of the row of all coordinates: the three of the first
    /// point, then the three of the second, and so on in the order of the
    /// points' numbers.
    pub open spec fn flat_entry_spec(&self, i: int) -> F {
        let p = self.0[i / 3 / 4 / 4][(i / 3 / 4) % 4][(i / 3) % 4];
        if i % 3 == 0 {
            p.x
        } else if i % 3 == 1 {
            p.y
        } else {
            p.z
        }
    }

    /// All 192 coordinates in a row.
    pub fn as_flat(&self) -> (r: Vec<F>)
        ensures
            r@.len() == 192,
            forall|i: int| 0 <= i < 192 ==> #[trigger] r@[i] == self.flat_entry_spec(i),
    {
        let mut r: Vec<F> = Vec::with_capacity(192);
        let mut i: usize = 0;
        while i < 192
            invariant
                i <= 192,
                r@.len() == i,
                forall|j: int| 0 <= j < i ==> #[trigger] r@[j] == self.flat_entry_spec(j),
            decreases 192 - i,
        {
            let u = i / 3 / 4 / 4;
            let v = (i / 3 / 4) % 4;
            let w = (i / 3) % 4;
            let c = i % 3;
            let p = &self.0[u][v][w];
            r.push(
                if c == 0 {
                    p.x
                } else if c == 1 {
                    p.y
                } else {
                    p.z
                },
            );
            i += 1;
        }
        r
    }

    fn flat_idx(i: usize) -> (r: (usize, usize, usize))
        requires
            i < 64,
        ensures
            (r.0 as int, r.1 as int, r.2 as int) == flat_idx_spec(i as int),
            r.0 < 4,
            r.1 < 4,
            r.2 < 4,
    {
        let u = (i / 4) / 4;
        let v = (i / 4) % 4;
        let w = i % 4;
        (u, v, w)
    }

    /// The point with the number `i`.
    pub open spec fn flat_spec(&self, i: int) -> Vector3<F> {
        let c = flat_idx_spec(i);
        self.0[c.0][c.1][c.2]
    }

    pub fn flat(&self, i: usize) -> (r: &Vector3<F>)
        requires
            i < 64,
        ensures
            *r == self.flat_spec(i as int),
    {
        let indices = Self::flat_idx(i);
        &self.0[indices.0][indices.1][indices.2]
    }

    /// All 64 points in the order of their numbers.
    pub fn as_array(&self) -> (r: Vec<Vector3<F>>)
        ensures
            r@.len() == 64,
            forall|i: int| 0 <= i < 64 ==> #[trigger] r@[i] == self.flat_spec(i),
    {
        let mut r: Vec<Vector3<F>> = Vec::with_capacity(64);
        let mut i: usize = 0;
        while i < 64
            invariant
                i <= 64,
                r@.len() == i,
                forall|j: int| 0 <= j < i ==> #[trigger] r@[j] == self.flat_spec(j),
            decreases 64 - i,
        {
            r.push(*self.flat(i));
            i += 1;
        }
        r
    }

    /// The six patches that are drawn for the faces of the cube: the layer
    /// of the highest first coordinate for all but the fourth, which is the
    /// layer of the lowest.
    pub fn patches(&self) -> (r: [[[Vector3<F>; 4]; 4]; 6])
        ensures
            r == [self.0[3], self.0[3], self.0[3], self.0[0], self.0[3], self.0[3]],
    {
        [self.0[3], self.0[3], self.0[3], self.0[0], self.0[3], self.0[3]]
    }

    /// Puts `point` in the place of the point with the number `i`.
    pub fn set_flat(&mut self, i: usize, point: Vector3<F>)
        requires
            i < 64,
        ensures
            forall|j: int|
                0 <= j < 64 ==> #[trigger] final(self).flat_spec(j) == if j == i {
                    point
                } else {
                    old(self).flat_spec(j)
                },
    {
        let indices = Self::flat_idx(i);
        let mut plane = self.0[indices.0];
        let mut row = plane[indices.1];
        row.set(indices.2, point);
        plane.set(indices.1, row);
        self.0.set(indices.0, plane);
    }
}

} // verus!
