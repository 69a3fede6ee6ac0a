use vstd::prelude::*;

use crate::numerics::linalg::Vector3;
use crate::numerics::parametric::ParametricForm;
use crate::numerics::Float;
use crate::render::mesh::{ClassicVertex, Triangle};

verus! {

/// The most points along each parameter that a grid can have.
pub const MAX_GRID: u32 = 10000;

/// A surface that can be covered with triangles.
pub trait Triangable<F: Float> {
    /// Whether `vertices` and `triangles` cover the surface with `points_x`
    /// by `points_y` points.
    spec fn is_triangulation(
        &self,
        points_x: u32,
        points_y: u32,
        vertices: Seq<ClassicVertex<F>>,
        triangles: Seq<Triangle>,
    ) -> bool;

    /// The most points along a parameter that can be asked for.
    spec fn limit_spec(&self) -> u32;

    fn triangulation(&self, points_x: u32, points_y: u32) -> (r: (
        Vec<ClassicVertex<F>>,
        Vec<Triangle>,
    ))
        requires
            points_x <= self.limit_spec(),
            points_y <= self.limit_spec(),
        ensures
            self.is_triangulation(points_x, points_y, r.0@, r.1@),
    ;
}

/// The value of a parameter at point `idx` of `points`, spread evenly from
/// `bounds.0` to `bounds.1`.
pub open spec fn parameter_spec<F: Float>(bounds: (F, F), idx: int, points: int) -> F {
    F::from_i32_spec(idx as i32).div_spec(F::from_i32_spec(points as i32)).mul_spec(
        bounds.1.sub_spec(bounds.0),
    ).add_spec(bounds.0)
}

fn parameter<F: Float>(bounds: (F, F), idx: u32, points: u32) -> (r: F)
    requires
        idx <= MAX_GRID,
        points <= MAX_GRID,
    ensures
        r == parameter_spec(bounds, idx as int, points as int),
{
    let this: i32 = idx as i32;
    let all: i32 = points as i32;
    F::from_i32(this).div(F::from_i32(all)).mul(bounds.1.sub(bounds.0)).add(bounds.0)
}

/// The four indices that point `k` of a grid adds to the lines: the point
/// and the next one along the second parameter, then the point and the next
/// one along the first. Both come round at the end.
pub open spec fn grid_indices_spec(points_x: int, points_y: int, k: int) -> Seq<u32> {
    let x_idx = k / (points_y + 1);
    let y_idx = k % (points_y + 1);
    let point_count = (points_x + 1) * (points_y + 1);
    seq![
        k as u32,
        ((y_idx + 1) % (points_y + 1) + x_idx * (points_y + 1)) as u32,
        k as u32,
        ((k + points_y + 1) % point_count) as u32,
    ]
}

/// Whether `v` is a vertex of the form at point `k` of a grid: its place
/// and its normal are ones that the form may give at the parameters of the
/// point.
pub open spec fn is_grid_vertex<F: Float, T: ParametricForm<F, 2, 3>>(
    form: &T,
    points_x: int,
    points_y: int,
    k: int,
    v: ClassicVertex<F>,
) -> bool {
    let at = [
        parameter_spec(form.bounds_spec()[0], k / (points_y + 1), points_x),
        parameter_spec(form.bounds_spec()[1], k % (points_y + 1), points_y),
    ];
    form.value_rel(at, [v.position.x, v.position.y, v.position.z]) && form.normal_rel(
        at,
        [v.normal.x, v.normal.y, v.normal.z],
    )
}

/// The points of a grid over the form, with `points_x + 1` by
/// `points_y + 1` points, and the indices of the lines between them: four
/// for every point, as `grid_indices_spec` says.
pub fn grid<F: Float, T: ParametricForm<F, 2, 3>>(form: &T, points_x: u32, points_y: u32) -> (r: (
    Vec<ClassicVertex<F>>,
    Vec<u32>,
))
    requires
        points_x <= MAX_GRID,
        points_y <= MAX_GRID,
    ensures
        r.0@.len() == (points_x + 1) * (points_y + 1),
        r.1@.len() == 4 * r.0@.len(),
        forall|k: int|
            0 <= k < r.0@.len() ==> is_grid_vertex(
                form,
                points_x as int,
                points_y as int,
                k,
                #[trigger] r.0@[k],
            ),
        forall|k: int|
            0 <= k < r.0@.len() ==> #[trigger] r.1@.subrange(4 * k, 4 * k + 4) == grid_indices_spec(
                points_x as int,
                points_y as int,
                k,
            ),
        forall|i: int| 0 <= i < r.1@.len() ==> (#[trigger] r.1@[i]) < r.0@.len(),
{
    assert((points_x + 1) * (points_y + 1) <= 10001 * 10001) by (nonlinear_arith)
        requires
            points_x <= 10000,
            points_y <= 10000,
    ;
    let point_count = (points_x + 1) * (points_y + 1);
    let mut points: Vec<ClassicVertex<F>> = Vec::new();
    let mut indices: Vec<u32> = Vec::new();

    let mut x_idx: u32 = 0;
    while x_idx < points_x + 1
        invariant
            x_idx <= points_x + 1,
            points_x <= MAX_GRID,
            points_y <= MAX_GRID,
            point_count == (points_x + 1) * (points_y + 1),
            point_count <= 100020001,
            points@.len() == x_idx * (points_y + 1),
            indices@.len() == 4 * points@.len(),
            forall|k: int|
                0 <= k < points@.len() ==> is_grid_vertex(
                    form,
                    points_x as int,
                    points_y as int,
                    k,
                    #[trigger] points@[k],
                ),
            forall|k: int|
                0 <= k < points@.len() ==> #[trigger] indices@.subrange(4 * k, 4 * k + 4)
                    == grid_indices_spec(points_x as int, points_y as int, k),
            forall|i: int| 0 <= i < indices@.len() ==> (#[trigger] indices@[i]) < point_count,
        decreases points_x + 1 - x_idx,
    {
        let mut y_idx: u32 = 0;
        while y_idx < points_y + 1
            invariant
                x_idx < points_x + 1,
                y_idx <= points_y + 1,
                points_x <= MAX_GRID,
                points_y <= MAX_GRID,
                point_count == (points_x + 1) * (points_y + 1),
                point_count <= 100020001,
                points@.len() == x_idx * (points_y + 1) + y_idx,
                indices@.len() == 4 * points@.len(),
                forall|k: int|
                    0 <= k < points@.len() ==> is_grid_vertex(
                        form,
                        points_x as int,
                        points_y as int,
                        k,
                        #[trigger] points@[k],
                    ),
                forall|k: int|
                    0 <= k < points@.len() ==> #[trigger] indices@.subrange(4 * k, 4 * k + 4)
                        == grid_indices_spec(points_x as int, points_y as int, k),
                forall|i: int| 0 <= i < indices@.len() ==> (#[trigger] indices@[i]) < point_count,
            decreases points_y + 1 - y_idx,
        {
            let bounds = form.bounds();
            let x = parameter(bounds[0], x_idx, points_x);
            let y = parameter(bounds[1], y_idx, points_y);
            let at = [x, y];

            let position = form.value(&at);
            let normal = form.normal(&at);
            proof {
                assert(x_idx * (points_y + 1) + y_idx < (points_x + 1) * (points_y + 1))
                    by (nonlinear_arith)
                    requires
                        0 <= y_idx < points_y + 1,
                        0 <= x_idx < points_x + 1,
                ;
            }
            let point_idx = points.len() as u32;
            let ghost k = point_idx as int;
            proof {
                assert(k == x_idx * (points_y + 1) + y_idx);
                assert(k / (points_y + 1) == x_idx && k % (points_y + 1) == y_idx) by (nonlinear_arith)
                    requires
                        k == x_idx * (points_y + 1) + y_idx,
                        0 <= y_idx < points_y + 1,
                        0 <= x_idx,
                ;
                assert(k < point_count) by (nonlinear_arith)
                    requires
                        k == x_idx * (points_y + 1) + y_idx,
                        0 <= y_idx < points_y + 1,
                        0 <= x_idx < points_x + 1,
                        point_count == (points_x + 1) * (points_y + 1),
                ;
            }
            let vertex = ClassicVertex {
                position: Vector3 { x: position[0], y: position[1], z: position[2] },
                normal: Vector3 { x: normal[0], y: normal[1], z: normal[2] },
            };
            let ghost points_0 = points@;
            let ghost indices_0 = indices@;
            points.push(vertex);

            proof {
                assert(x_idx * (points_y + 1) + points_y + 1 <= (points_x + 1) * (points_y + 1))
                    by (nonlinear_arith)
                    requires
                        0 <= x_idx < points_x + 1,
                        0 <= points_y,
                ;
            }
            let along_y = (y_idx + 1) % (points_y + 1) + x_idx * (points_y + 1);
            let along_x = (point_idx + points_y + 1) % point_count;
            proof {
                assert(along_y < point_count) by (nonlinear_arith)
                    requires
                        along_y == (y_idx + 1) % (points_y + 1) + x_idx * (points_y + 1),
                        0 <= (y_idx + 1) % (points_y + 1) < points_y + 1,
                        0 <= x_idx < points_x + 1,
                        point_count == (points_x + 1) * (points_y + 1),
                ;
            }
            indices.push(point_idx);
            indices.push(along_y);
            indices.push(point_idx);
            indices.push(along_x);
            proof {
                assert(position =~= [vertex.position.x, vertex.position.y, vertex.position.z]);
                assert(normal =~= [vertex.normal.x, vertex.normal.y, vertex.normal.z]);
                assert(at =~= [
                    parameter_spec(form.bounds_spec()[0], k / (points_y + 1), points_x as int),
                    parameter_spec(form.bounds_spec()[1], k % (points_y + 1), points_y as int),
                ]);
                assert(is_grid_vertex(form, points_x as int, points_y as int, k, vertex));
                assert(indices@.subrange(4 * k, 4 * k + 4) =~= grid_indices_spec(
                    points_x as int,
                    points_y as int,
                    k,
                ));
                assert forall|j: int| 0 <= j < points@.len() implies #[trigger] indices@.subrange(
                    4 * j,
                    4 * j + 4,
                ) == grid_indices_spec(points_x as int, points_y as int, j) by {
                    if j < k {
                        assert(indices@.subrange(4 * j, 4 * j + 4) =~= indices_0.subrange(
                            4 * j,
                            4 * j + 4,
                        ));
                    }
                }
                assert forall|j: int| 0 <= j < points@.len() implies is_grid_vertex(
                    form,
                    points_x as int,
                    points_y as int,
                    j,
                    #[trigger] points@[j],
                ) by {
                    if j < k {
                        assert(points@[j] == points_0[j]);
                    }
                }
            }
            y_idx += 1;
        }
        proof {
            assert(x_idx * (points_y + 1) + (points_y + 1) == (x_idx + 1) * (points_y + 1))
                by (nonlinear_arith);
        }
        x_idx += 1;
    }

    (points, indices)
}

} // verus!
