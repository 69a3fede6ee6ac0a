use vstd::prelude::*;

use crate::numerics::linalg::Vector3;
use crate::numerics::{ratio, ratio_spec, Float};
use crate::render::mesh::{ClassicVertex, Mesh, Triangle};

verus! {

/// The vertices of a cube with corners at plus and minus one, face by face:
/// the three coordinates of the place, then the three of the normal.
pub const CUBE_VERTICES: [[i32; 6]; 24] = [
    // Front
    [1, 1, 1, 0, 0, 1],
    [-1, 1, 1, 0, 0, 1],
    [-1, -1, 1, 0, 0, 1],
    [1, -1, 1, 0, 0, 1],
    // Back
    [1, 1, -1, 0, 0, -1],
    [-1, 1, -1, 0, 0, -1],
    [-1, -1, -1, 0, 0, -1],
    [1, -1, -1, 0, 0, -1],
    // Top
    [1, 1, 1, 0, 1, 0],
    [-1, 1, 1, 0, 1, 0],
    [-1, 1, -1, 0, 1, 0],
    [1, 1, -1, 0, 1, 0],
    // Bottom
    [1, -1, 1, 0, -1, 0],
    [-1, -1, 1, 0, -1, 0],
    [-1, -1, -1, 0, -1, 0],
    [1, -1, -1, 0, -1, 0],
    // Right
    [1, 1, 1, 1, 0, 0],
    [1, -1, 1, 1, 0, 0],
    [1, -1, -1, 1, 0, 0],
    [1, 1, -1, 1, 0, 0],
    // Left
    [-1, 1, 1, -1, 0, 0],
    [-1, -1, 1, -1, 0, 0],
    [-1, -1, -1, -1, 0, 0],
    [-1, 1, -1, -1, 0, 0],
];

/// The triangles of the cube, two for every face, seen from outside.
pub const CUBE_TRIANGLES: [[u32; 3]; 12] = [
    // Front
    [0, 1, 2],
    [3, 0, 2],
    // Back
    [5, 4, 6],
    [4, 7, 6],
    // Top
    [9, 8, 10],
    [8, 11, 10],
    // Bottom
    [12, 13, 14],
    [15, 12, 14],
    // Right
    [16, 17, 18],
    [19, 16, 18],
    // Left
    [21, 20, 22],
    [20, 23, 22],
];

/// The corners of a cube in the order in which one line runs along its
/// edges: round the front, round the back, and along the sides.
pub const WIRE_CUBE: [[i32; 3]; 16] = [
    // Front
    [1, 1, 1],
    [-1, 1, 1],
    [-1, -1, 1],
    [1, -1, 1],
    [1, 1, 1],
    // Back
    [1, 1, -1],
    [-1, 1, -1],
    [-1, -1, -1],
    [1, -1, -1],
    [1, 1, -1],
    // Sides
    [-1, 1, -1],
    [-1, 1, 1],
    [-1, -1, 1],
    [-1, -1, -1],
    [1, -1, -1],
    [1, -1, 1],
];

/// The vertices of a square in the plane of x and z, once seen from above
/// and once from below.
pub const PLANE_VERTICES: [[i32; 6]; 8] = [
    // Top
    [-1, 0, -1, 0, 1, 0],
    [1, 0, -1, 0, 1, 0],
    [1, 0, 1, 0, 1, 0],
    [-1, 0, 1, 0, 1, 0],
    // Bottom
    [-1, 0, -1, 0, -1, 0],
    [1, 0, -1, 0, -1, 0],
    [1, 0, 1, 0, -1, 0],
    [-1, 0, 1, 0, -1, 0],
];

/// The triangles of the square, two for each side.
pub const PLANE_TRIANGLES: [[u32; 3]; 4] = [
    // Top
    [2, 1, 0],
    [3, 2, 0],
    // Bottom
    [4, 5, 6],
    [4, 6, 7],
];

/// The corners of a square in the plane of x and y, in quarters.
pub const RECT_VERTICES: [[i32; 3]; 4] = [[-1, 1, 0], [1, 1, 0], [1, -1, 0], [-1, -1, 0]];

/// The two triangles of the square.
pub const RECT_TRIANGLES: [[u32; 3]; 2] = [[2, 1, 0], [3, 2, 0]];

/// The vector with the whole numbers `x`, `y` and `z` as coordinates.
pub open spec fn whole_spec<F: Float>(x: i32, y: i32, z: i32) -> Vector3<F> {
    Vector3 { x: F::from_i32_spec(x), y: F::from_i32_spec(y), z: F::from_i32_spec(z) }
}

fn whole<F: Float>(x: i32, y: i32, z: i32) -> (r: Vector3<F>)
    ensures
        r == whole_spec::<F>(x, y, z),
{
    Vector3 { x: F::from_i32(x), y: F::from_i32(y), z: F::from_i32(z) }
}

/// The vertex that a row of a table stands for.
pub open spec fn vertex_spec<F: Float>(row: [i32; 6]) -> ClassicVertex<F> {
    ClassicVertex {
        position: whole_spec::<F>(row[0], row[1], row[2]),
        normal: whole_spec::<F>(row[3], row[4], row[5]),
    }
}

fn vertices_of<F: Float, const N: usize>(table: &[[i32; 6]; N]) -> (r: Vec<ClassicVertex<F>>)
    ensures
        r@.len() == N,
        forall|i: int| 0 <= i < N ==> #[trigger] r@[i] == vertex_spec::<F>(table[i]),
{
    let mut r: Vec<ClassicVertex<F>> = Vec::with_capacity(N);
    let mut i: usize = 0;
    while i < N
        invariant
            i <= N,
            r@.len() == i,
            forall|j: int| 0 <= j < i ==> #[trigger] r@[j] == vertex_spec::<F>(table[j]),
        decreases N - i,
    {
        let row = &table[i];
        r.push(ClassicVertex::new(whole(row[0], row[1], row[2]), whole(row[3], row[4], row[5])));
        i += 1;
    }
    r
}

fn triangles_of<const N: usize>(table: &[[u32; 3]; N]) -> (r: Vec<Triangle>)
    ensures
        r@.len() == N,
        forall|i: int| 0 <= i < N ==> (#[trigger] r@[i]).0 == table[i],
{
    let mut r: Vec<Triangle> = Vec::with_capacity(N);
    let mut i: usize = 0;
    while i < N
        invariant
            i <= N,
            r@.len() == i,
            forall|j: int| 0 <= j < i ==> (#[trigger] r@[j]).0 == table[j],
        decreases N - i,
    {
        r.push(Triangle(table[i]));
        i += 1;
    }
    r
}

/// A cube with corners at plus and minus one, seen from outside.
pub fn cube<F: Float>() -> (r: Mesh<ClassicVertex<F>>)
    ensures
        r.vertices@.len() == 24,
        r.triangles@.len() == 12,
        forall|i: int| 0 <= i < 24 ==> #[trigger] r.vertices@[i] == vertex_spec::<F>(CUBE_VERTICES[i]),
        forall|i: int| 0 <= i < 12 ==> (#[trigger] r.triangles@[i]).0 == CUBE_TRIANGLES[i],
{
    Mesh { vertices: vertices_of(&CUBE_VERTICES), triangles: triangles_of(&CUBE_TRIANGLES) }
}

/// The cube seen from inside: every normal points the other way, and every
/// triangle runs the other way round.
pub fn inverse_cube<F: Float>() -> (r: Mesh<ClassicVertex<F>>)
    ensures
        r.vertices@.len() == 24,
        r.triangles@.len() == 12,
        forall|i: int|
            0 <= i < 24 ==> #[trigger] r.vertices@[i] == (ClassicVertex {
                position: vertex_spec::<F>(CUBE_VERTICES[i]).position,
                normal: vertex_spec::<F>(CUBE_VERTICES[i]).normal.neg_spec(),
            }),
        forall|i: int|
            0 <= i < 12 ==> (#[trigger] r.triangles@[i]).0@ == seq![
                CUBE_TRIANGLES[i][1],
                CUBE_TRIANGLES[i][0],
                CUBE_TRIANGLES[i][2],
            ],
{
    let cube = cube::<F>();
    let mut vertices: Vec<ClassicVertex<F>> = Vec::with_capacity(24);
    let mut i: usize = 0;
    while i < 24
        invariant
            i <= 24,
            cube.vertices@.len() == 24,
            vertices@.len() == i,
            forall|j: int| 0 <= j < 24 ==> #[trigger] cube.vertices@[j] == vertex_spec::<F>(CUBE_VERTICES[j]),
            forall|j: int|
                0 <= j < i ==> #[trigger] vertices@[j] == (ClassicVertex {
                    position: vertex_spec::<F>(CUBE_VERTICES[j]).position,
                    normal: vertex_spec::<F>(CUBE_VERTICES[j]).normal.neg_spec(),
                }),
        decreases 24 - i,
    {
        let vertex = &cube.vertices[i];
        vertices.push(ClassicVertex::new(vertex.position, vertex.normal.neg()));
        i += 1;
    }
    let mut triangles: Vec<Triangle> = Vec::with_capacity(12);
    let mut i: usize = 0;
    while i < 12
        invariant
            i <= 12,
            cube.triangles@.len() == 12,
            triangles@.len() == i,
            forall|j: int| 0 <= j < 12 ==> (#[trigger] cube.triangles@[j]).0 == CUBE_TRIANGLES[j],
            forall|j: int|
                0 <= j < i ==> (#[trigger] triangles@[j]).0@ == seq![
                    CUBE_TRIANGLES[j][1],
                    CUBE_TRIANGLES[j][0],
                    CUBE_TRIANGLES[j][2],
                ],
        decreases 12 - i,
    {
        let t = &cube.triangles[i].0;
        let swapped = Triangle([t[1], t[0], t[2]]);
        assert(swapped.0@ =~= seq![CUBE_TRIANGLES[i as int][1], CUBE_TRIANGLES[i as int][0], CUBE_TRIANGLES[i as int][2]]);
        triangles.push(swapped);
        i += 1;
    }
    Mesh { vertices, triangles }
}

/// The corners of the cube along one line that runs over its edges.
pub fn wire_cube<F: Float>() -> (r: Vec<Vector3<F>>)
    ensures
        r@.len() == 16,
        forall|i: int|
            0 <= i < 16 ==> #[trigger] r@[i] == whole_spec::<F>(
                WIRE_CUBE[i][0],
                WIRE_CUBE[i][1],
                WIRE_CUBE[i][2],
            ),
{
    let mut r: Vec<Vector3<F>> = Vec::with_capacity(16);
    let mut i: usize = 0;
    while i < 16
        invariant
            i <= 16,
            r@.len() == i,
            forall|j: int|
                0 <= j < i ==> #[trigger] r@[j] == whole_spec::<F>(
                    WIRE_CUBE[j][0],
                    WIRE_CUBE[j][1],
                    WIRE_CUBE[j][2],
                ),
        decreases 16 - i,
    {
        let row = &WIRE_CUBE[i];
        r.push(whole(row[0], row[1], row[2]));
        i += 1;
    }
    r
}

/// A square with corners at plus and minus one in the plane of x and z,
/// with a side that looks up and one that looks down.
pub fn double_plane<F: Float>() -> (r: Mesh<ClassicVertex<F>>)
    ensures
        r.vertices@.len() == 8,
        r.triangles@.len() == 4,
        forall|i: int| 0 <= i < 8 ==> #[trigger] r.vertices@[i] == vertex_spec::<F>(PLANE_VERTICES[i]),
        forall|i: int| 0 <= i < 4 ==> (#[trigger] r.triangles@[i]).0 == PLANE_TRIANGLES[i],
{
    Mesh { vertices: vertices_of(&PLANE_VERTICES), triangles: triangles_of(&PLANE_TRIANGLES) }
}

/// A square with corners at plus and minus a quarter in the plane of x and y.
pub fn rect<F: Float>() -> (r: Mesh<Vector3<F>>)
    ensures
        r.vertices@.len() == 4,
        r.triangles@.len() == 2,
        forall|i: int|
            0 <= i < 4 ==> #[trigger] r.vertices@[i] == whole_spec::<F>(
                RECT_VERTICES[i][0],
                RECT_VERTICES[i][1],
                RECT_VERTICES[i][2],
            ).scale_spec(ratio_spec::<F>(1, 4)),
        forall|i: int| 0 <= i < 2 ==> (#[trigger] r.triangles@[i]).0 == RECT_TRIANGLES[i],
{
    let quarter: F = ratio(1, 4);
    let mut vertices: Vec<Vector3<F>> = Vec::with_capacity(4);
    let mut i: usize = 0;
    while i < 4
        invariant
            i <= 4,
            quarter == ratio_spec::<F>(1, 4),
            vertices@.len() == i,
            forall|j: int|
                0 <= j < i ==> #[trigger] vertices@[j] == whole_spec::<F>(
                    RECT_VERTICES[j][0],
                    RECT_VERTICES[j][1],
                    RECT_VERTICES[j][2],
                ).scale_spec(ratio_spec::<F>(1, 4)),
        decreases 4 - i,
    {
        let row = &RECT_VERTICES[i];
        vertices.push(whole::<F>(row[0], row[1], row[2]).scale(quarter));
        i += 1;
    }
    Mesh::new(vertices, triangles_of(&RECT_TRIANGLES))
}

/// The two ends of line `s` of the 144 lines of a lattice of four points
/// along each axis, as lattice coordinates: first the 48 lines along the
/// first axis, then those along the second, then those along the third.
pub open spec fn grid_line_spec(s: int) -> ((int, int, int), (int, int, int)) {
    let r = s % 48;
    if s < 48 {
        ((r / 16, (r / 4) % 4, r % 4), (r / 16 + 1, (r / 4) % 4, r % 4))
    } else if s < 96 {
        ((r / 12, (r / 4) % 3, r % 4), (r / 12, (r / 4) % 3 + 1, r % 4))
    } else {
        ((r / 12, (r / 3) % 4, r % 3), (r / 12, (r / 3) % 4, r % 3 + 1))
    }
}

/// The point `p` of the unit cube brought into the cube from minus one to
/// one: `p * 2 - (1, 1, 1)`.
pub open spec fn spread_spec<F: Float>(p: Vector3<F>) -> Vector3<F> {
    p.scale_spec(F::from_i32_spec(2)).sub_spec(whole_spec::<F>(1, 1, 1))
}

/// Whether `r` is the end of a line at the lattice point `c`, for a place
/// that `f` may give for that point.
pub open spec fn is_grid_end<F: Float, G: Fn(usize, usize, usize) -> Vector3<F>>(
    f: G,
    c: (int, int, int),
    r: Vector3<F>,
) -> bool {
    exists|p: Vector3<F>| #[trigger]
        call_ensures(f, (c.0 as usize, c.1 as usize, c.2 as usize), p) && r == spread_spec(p)
}

/// Whether entries `2 s` and `2 s + 1` of `lines` are the ends of line `s`
/// of the lattice whose points `f` places.
pub open spec fn is_grid_line<F: Float, G: Fn(usize, usize, usize) -> Vector3<F>>(
    f: G,
    lines: Seq<Vector3<F>>,
    s: int,
) -> bool {
    is_grid_end(f, grid_line_spec(s).0, lines[2 * s]) && is_grid_end(
        f,
        grid_line_spec(s).1,
        lines[2 * s + 1],
    )
}

/// The lines of a lattice of four points along each axis, as pairs of
/// their ends: `f` gives the place of each lattice point in the unit cube.
pub fn wire_grid_from_fn<F: Float, G: Fn(usize, usize, usize) -> Vector3<F>>(f: G) -> (r: Vec<
    Vector3<F>,
>)
    requires
        forall|u: usize, v: usize, w: usize|
            u < 4 && v < 4 && w < 4 ==> call_requires(f, (u, v, w)),
    ensures
        r@.len() == 288,
        forall|s: int| 0 <= s < 144 ==> #[trigger] is_grid_line(f, r@, s),
{
    let two = F::from_i32(2);
    let ones = whole::<F>(1, 1, 1);
    let mut r: Vec<Vector3<F>> = Vec::with_capacity(288);
    let mut s: usize = 0;
    while s < 144
        invariant
            s <= 144,
            two == F::from_i32_spec(2),
            ones == whole_spec::<F>(1, 1, 1),
            r@.len() == 2 * s,
            forall|u: usize, v: usize, w: usize|
                u < 4 && v < 4 && w < 4 ==> call_requires(f, (u, v, w)),
            forall|j: int| 0 <= j < s ==> #[trigger] is_grid_line(f, r@, j),
        decreases 144 - s,
    {
        let part = s % 48;
        let (from, to) = if s < 48 {
            ((part / 16, (part / 4) % 4, part % 4), (part / 16 + 1, (part / 4) % 4, part % 4))
        } else if s < 96 {
            ((part / 12, (part / 4) % 3, part % 4), (part / 12, (part / 4) % 3 + 1, part % 4))
        } else {
            ((part / 12, (part / 3) % 4, part % 3), (part / 12, (part / 3) % 4, part % 3 + 1))
        };
        let p = f(from.0, from.1, from.2);
        let q = f(to.0, to.1, to.2);
        let ghost before = r@;
        let first = p.scale(two).sub(&ones);
        let second = q.scale(two).sub(&ones);
        r.push(first);
        r.push(second);
        proof {
            assert(grid_line_spec(s as int) == (
                (from.0 as int, from.1 as int, from.2 as int),
                (to.0 as int, to.1 as int, to.2 as int),
            ));
            assert(call_ensures(f, (from.0, from.1, from.2), p) && first == spread_spec(p));
            assert(call_ensures(f, (to.0, to.1, to.2), q) && second == spread_spec(q));
            assert(is_grid_end(f, grid_line_spec(s as int).0, r@[2 * s]));
            assert(is_grid_end(f, grid_line_spec(s as int).1, r@[2 * s + 1]));
            assert forall|j: int| 0 <= j < s + 1 implies #[trigger] is_grid_line(f, r@, j) by {
                if j < s {
                    assert(is_grid_line(f, before, j));
                    assert(r@[2 * j] == before[2 * j]);
                    assert(r@[2 * j + 1] == before[2 * j + 1]);
                }
            }
        }
        s += 1;
    }
    r
}

/// The place of the lattice point `(u, v, w)` in the unit cube: a third of
/// each coordinate.
pub open spec fn third_spec<F: Float>(c: (int, int, int)) -> Vector3<F> {
    Vector3 {
        x: F::from_i32_spec(c.0 as i32).div_spec(F::from_i32_spec(3)),
        y: F::from_i32_spec(c.1 as i32).div_spec(F::from_i32_spec(3)),
        z: F::from_i32_spec(c.2 as i32).div_spec(F::from_i32_spec(3)),
    }
}

/// Whether entries `2 s` and `2 s + 1` of `lines` are the ends of line `s`
/// of a lattice at rest that fills the cube from minus one to one.
pub open spec fn is_rest_line<F: Float>(lines: Seq<Vector3<F>>, s: int) -> bool {
    lines[2 * s] == spread_spec(third_spec::<F>(grid_line_spec(s).0)) && lines[2 * s + 1]
        == spread_spec(third_spec::<F>(grid_line_spec(s).1))
}

/// The lines of a lattice at rest that fills the cube from minus one to one.
pub fn wire_grid<F: Float>() -> (r: Vec<Vector3<F>>)
    ensures
        r@.len() == 288,
        forall|s: int| 0 <= s < 144 ==> #[trigger] is_rest_line(r@, s),
{
    let place = |u: usize, v: usize, w: usize| -> (p: Vector3<F>)
        requires
            u < 4,
            v < 4,
            w < 4,
        ensures
            p == third_spec::<F>((u as int, v as int, w as int)),
        {
            let three = F::from_i32(3);
            Vector3 {
                x: F::from_i32(u as i32).div(three),
                y: F::from_i32(v as i32).div(three),
                z: F::from_i32(w as i32).div(three),
            }
        };
    let r = wire_grid_from_fn(place);
    proof {
        assert forall|s: int| 0 <= s < 144 implies #[trigger] is_rest_line(r@, s) by {
            assert(is_grid_line(place, r@, s));
        }
    }
    r
}

} // verus!
