use std::collections::VecDeque;
use vstd::prelude::*;
use vstd::set_lib::{lemma_int_range, set_int_range};

use crate::numerics::kinematics::flat_chain::{State, System};
use crate::numerics::linalg::Vector2;
use crate::numerics::rect::Rect;
use crate::numerics::segment::{segment_hits_rect_spec, Segment};
use crate::numerics::Float;
use crate::render::texture::{colour_spec, Texture};

verus! {

/// The configuration space of the arm is cut into this many cells of one
/// degree along each of its two angles.
pub const CONFIG_SIZE: usize = 360;

/// The number of cells of the configuration space.
pub const CELL_COUNT: usize = 129600;

/// What a search has found out about one cell: from which cell it was
/// reached and in how many moves.
#[derive(Clone, Copy, Debug)]
pub struct BFSTrove {
    pub previous: Option<(usize, usize)>,
    pub distance: usize,
}

#[derive(Clone, Copy)]
struct IndexedBFSTrove {
    trove: BFSTrove,
    alpha_1: usize,
    alpha_2: usize,
}

/// For every cell of the configuration space, what a search from one cell
/// has found out about it, or nothing where the search did not reach it.
pub struct BFSMap(Vec<Option<BFSTrove>>);

/// Which cells of the configuration space the obstacles take up, for an arm
/// fixed at `origin`.
pub struct ConfigObstuction<F> {
    obstructed: Vec<bool>,
    system: System<F>,
    origin: Vector2<F>,
}

/// Whether `c` is a cell of the configuration space.
pub open spec fn in_grid_spec(c: (int, int)) -> bool {
    0 <= c.0 < CONFIG_SIZE && 0 <= c.1 < CONFIG_SIZE
}

/// A cell as a pair of integers.
pub open spec fn cell_spec(c: (usize, usize)) -> (int, int) {
    (c.0 as int, c.1 as int)
}

/// The place of the cell `c` in a row of all cells.
pub open spec fn flat_spec(c: (int, int)) -> int {
    c.0 * 360 + c.1
}

/// The cell next to `c` in the direction `k`: the second angle one up, the
/// first one up, the first one down, the second one down. Each angle comes
/// round after a full turn.
pub open spec fn neighbour_spec(c: (int, int), k: int) -> (int, int) {
    if k == 0 {
        (c.0, (c.1 + 1) % 360)
    } else if k == 1 {
        ((c.0 + 1) % 360, c.1)
    } else if k == 2 {
        ((c.0 + 359) % 360, c.1)
    } else {
        (c.0, (c.1 + 359) % 360)
    }
}

/// Whether one move leads from `a` to `b`.
pub open spec fn adjacent_spec(a: (int, int), b: (int, int)) -> bool {
    exists|k: int| 0 <= k < 4 && #[trigger] neighbour_spec(a, k) == b
}

spec fn trove_at(troves: Seq<Option<BFSTrove>>, c: (int, int)) -> Option<BFSTrove> {
    troves[flat_spec(c)]
}

spec fn parent_ok(troves: Seq<Option<BFSTrove>>, c: (int, int)) -> bool {
    match trove_at(troves, c) {
        None => true,
        Some(t) => match t.previous {
            None => t.distance == 0,
            Some(p) => {
                &&& in_grid_spec(cell_spec(p))
                &&& adjacent_spec(cell_spec(p), c)
                &&& match trove_at(troves, cell_spec(p)) {
                    None => false,
                    Some(tp) => tp.distance + 1 == t.distance,
                }
            },
        },
    }
}

spec fn rooted(troves: Seq<Option<BFSTrove>>, obstructed: Seq<bool>, s: (int, int), c: (int, int))
    -> bool {
    match trove_at(troves, c) {
        None => true,
        Some(t) => match t.previous {
            None => c == s,
            Some(p) => !obstructed[flat_spec(c)],
        },
    }
}

spec fn entry_cell(e: IndexedBFSTrove) -> (int, int) {
    (e.alpha_1 as int, e.alpha_2 as int)
}

spec fn entry_ok(
    troves: Seq<Option<BFSTrove>>,
    obstructed: Seq<bool>,
    s: (int, int),
    e: IndexedBFSTrove,
) -> bool {
    let c = entry_cell(e);
    &&& in_grid_spec(c)
    &&& match e.trove.previous {
        None => e.trove.distance == 0 && c == s,
        Some(p) => {
            &&& in_grid_spec(cell_spec(p))
            &&& adjacent_spec(cell_spec(p), c)
            &&& !obstructed[flat_spec(c)]
            &&& match trove_at(troves, cell_spec(p)) {
                None => false,
                Some(tp) => tp.distance + 1 == e.trove.distance,
            }
        },
    }
}

spec fn queued(queue: Seq<IndexedBFSTrove>, q: int, b: (int, int), bound: int) -> bool {
    0 <= q < queue.len() && entry_cell(queue[q]) == b && queue[q].trove.distance <= bound
}

spec fn covered(
    troves: Seq<Option<BFSTrove>>,
    queue: Seq<IndexedBFSTrove>,
    b: (int, int),
    bound: int,
) -> bool {
    ||| match trove_at(troves, b) {
        None => false,
        Some(tb) => tb.distance <= bound,
    }
    ||| exists|q: int| #[trigger] queued(queue, q, b, bound)
}

spec fn closed_at(
    troves: Seq<Option<BFSTrove>>,
    obstructed: Seq<bool>,
    queue: Seq<IndexedBFSTrove>,
    a: (int, int),
    k: int,
) -> bool {
    let b = neighbour_spec(a, k);
    match trove_at(troves, a) {
        None => true,
        Some(ta) => obstructed[flat_spec(b)] || covered(troves, queue, b, ta.distance + 1),
    }
}

spec fn sorted(queue: Seq<IndexedBFSTrove>) -> bool {
    &&& forall|i: int, j: int|
        0 <= i <= j < queue.len() ==> (#[trigger] queue[i]).trove.distance <= (
        #[trigger] queue[j]).trove.distance
    &&& forall|j: int|
        0 <= j < queue.len() ==> (#[trigger] queue[j]).trove.distance <= queue[0].trove.distance
            + 1
}

spec fn below_front(troves: Seq<Option<BFSTrove>>, queue: Seq<IndexedBFSTrove>, c: (int, int))
    -> bool {
    match trove_at(troves, c) {
        None => true,
        Some(t) => queue.len() > 0 ==> t.distance <= queue[0].trove.distance,
    }
}

spec fn counted(troves: Seq<Option<BFSTrove>>, unset: Set<int>, c: (int, int)) -> bool {
    match trove_at(troves, c) {
        None => unset.contains(flat_spec(c)),
        Some(t) => t.distance + unset.len() <= CELL_COUNT,
    }
}

/// Everything that holds of the map while the search runs, but for the
/// neighbours of the cell that is being worked on.
spec fn search_inv(
    troves: Seq<Option<BFSTrove>>,
    obstructed: Seq<bool>,
    queue: Seq<IndexedBFSTrove>,
    unset: Set<int>,
    s: (int, int),
) -> bool {
    &&& troves.len() == CELL_COUNT
    &&& obstructed.len() == CELL_COUNT
    &&& in_grid_spec(s)
    &&& unset.finite()
    &&& unset.len() <= CELL_COUNT
    &&& sorted(queue)
    &&& covered(troves, queue, s, 0)
    &&& forall|c: (int, int)| in_grid_spec(c) ==> #[trigger] parent_ok(troves, c)
    &&& forall|c: (int, int)| in_grid_spec(c) ==> #[trigger] rooted(troves, obstructed, s, c)
    &&& forall|c: (int, int)| in_grid_spec(c) ==> #[trigger] below_front(troves, queue, c)
    &&& forall|c: (int, int)| in_grid_spec(c) ==> #[trigger] counted(troves, unset, c)
    &&& forall|q: int|
        0 <= q < queue.len() ==> entry_ok(troves, obstructed, s, #[trigger] queue[q])
    &&& forall|q: int|
        0 <= q < queue.len() ==> (#[trigger] queue[q]).trove.distance + unset.len() <= CELL_COUNT
}

/// Every reached cell has each free neighbour reached or waiting, no more
/// than one move further away; but for the directions from `from` on of the
/// cell `at`.
spec fn closure(
    troves: Seq<Option<BFSTrove>>,
    obstructed: Seq<bool>,
    queue: Seq<IndexedBFSTrove>,
    at: (int, int),
    from: int,
) -> bool {
    forall|a: (int, int), k: int|
        in_grid_spec(a) && 0 <= k < 4 && !(a == at && k >= from) ==> #[trigger] closed_at(
            troves,
            obstructed,
            queue,
            a,
            k,
        )
}

spec fn bounded(troves: Seq<Option<BFSTrove>>, c: (int, int), bound: int) -> bool {
    match trove_at(troves, c) {
        None => true,
        Some(t) => t.distance <= bound,
    }
}

proof fn lemma_neighbour_in_grid(c: (int, int), k: int)
    requires
        in_grid_spec(c),
    ensures
        in_grid_spec(neighbour_spec(c, k)),
{
}

impl<F: Float> ConfigObstuction<F> {
    /// Whether the obstacles take up the cell `c`.
    pub closed spec fn obstructed_spec(&self, c: (int, int)) -> bool {
        self.obstructed@[flat_spec(c)]
    }

    pub closed spec fn system_spec(&self) -> System<F> {
        self.system
    }

    pub closed spec fn origin_spec(&self) -> Vector2<F> {
        self.origin
    }

    /// There is one entry for every cell.
    pub closed spec fn wf(&self) -> bool {
        self.obstructed@.len() == CELL_COUNT
    }

    /// The space of the arm `system` fixed at `origin`, free of obstacles.
    pub fn new(system: System<F>, origin: Vector2<F>) -> (r: Self)
        ensures
            r.wf(),
            r.system_spec() == system,
            r.origin_spec() == origin,
            forall|c: (int, int)| in_grid_spec(c) ==> !#[trigger] r.obstructed_spec(c),
    {
        let mut obstructed: Vec<bool> = Vec::with_capacity(CELL_COUNT);
        let mut i: usize = 0;
        while i < CELL_COUNT
            invariant
                i <= CELL_COUNT,
                obstructed@.len() == i,
                forall|j: int| 0 <= j < i ==> !obstructed@[j],
            decreases CELL_COUNT - i,
        {
            obstructed.push(false);
            i += 1;
        }
        Self { system, origin, obstructed }
    }

    /// Whether a path leads along `p`: every cell lies in the space, each
    /// is one move from the one before, and none but the first is taken up.
    pub open spec fn is_path_spec(&self, p: Seq<(int, int)>) -> bool {
        &&& p.len() >= 1
        &&& forall|i: int| 0 <= i < p.len() ==> in_grid_spec(#[trigger] p[i])
        &&& forall|i: int|
            1 <= i < p.len() ==> adjacent_spec(p[i - 1], #[trigger] p[i]) && !self.obstructed_spec(
                p[i],
            )
    }

    /// Marks the cell `(alpha_1, alpha_2)` as taken up, or as free.
    pub fn set_obstructed(&mut self, alpha_1: usize, alpha_2: usize, value: bool)
        requires
            old(self).wf(),
            alpha_1 < CONFIG_SIZE,
            alpha_2 < CONFIG_SIZE,
        ensures
            final(self).wf(),
            final(self).system_spec() == old(self).system_spec(),
            final(self).origin_spec() == old(self).origin_spec(),
            forall|c: (int, int)|
                in_grid_spec(c) ==> #[trigger] final(self).obstructed_spec(c) == if c == (
                    alpha_1 as int,
                    alpha_2 as int,
                ) {
                    value
                } else {
                    old(self).obstructed_spec(c)
                },
    {
        self.obstructed.set(alpha_1 * CONFIG_SIZE + alpha_2, value);
    }

    /// Whether the obstacles take up the cell `(alpha_1, alpha_2)`.
    pub fn is_obstructed(&self, alpha_1: usize, alpha_2: usize) -> (r: bool)
        requires
            self.wf(),
            alpha_1 < CONFIG_SIZE,
            alpha_2 < CONFIG_SIZE,
        ensures
            r == self.obstructed_spec((alpha_1 as int, alpha_2 as int)),
    {
        self.obstructed[alpha_1 * CONFIG_SIZE + alpha_2]
    }
}

/// The angles in radians at the corner of the cell `c`: its whole degrees.
pub open spec fn cell_angles_spec<F: Float>(c: (int, int)) -> Vector2<F> {
    Vector2 {
        x: crate::numerics::to_radians_spec(degree_spec::<F>(c.0)),
        y: crate::numerics::to_radians_spec(degree_spec::<F>(c.1)),
    }
}

/// Whether an arm fixed at `origin` with its joints at `state` touches `rect`
/// with one of its two links.
pub open spec fn arm_hits_spec<F: Float>(origin: Vector2<F>, state: State<F>, rect: Rect<F>)
    -> bool {
    let elbow = state.p_1.add_spec(origin);
    let hand = state.p_2.add_spec(origin);
    segment_hits_rect_spec(origin, elbow, rect) || segment_hits_rect_spec(elbow, hand, rect)
}

pub fn arm_hits<F: Float>(origin: &Vector2<F>, state: &State<F>, rect: &Rect<F>) -> (r: bool)
    ensures
        r == arm_hits_spec(*origin, *state, *rect),
{
    let elbow = state.p_1.add(origin);
    let hand = state.p_2.add(origin);
    let segment_1_collision = Segment::new(*origin, elbow).collides_with_rect(rect);
    let segment_2_collision = Segment::new(elbow, hand).collides_with_rect(rect);
    segment_1_collision || segment_2_collision
}

impl<F: Float> ConfigObstuction<F> {
    /// Whether the cell `c` of `self` is what adding `rect` to `before`
    /// makes of it: taken up where it was before, or where the arm at the
    /// angles of the cell, in one of the placements that the scalar type may
    /// give it, touches `rect`.
    pub open spec fn marked_spec(&self, before: &Self, rect: Rect<F>, c: (int, int)) -> bool {
        exists|state: State<F>|
            {
                &&& #[trigger] before.system_spec().is_forward_kinematics(
                    cell_angles_spec::<F>(c),
                    state,
                )
                &&& self.obstructed_spec(c) == (before.obstructed_spec(c) || arm_hits_spec(
                    before.origin_spec(),
                    state,
                    rect,
                ))
            }
    }

    /// Adds the obstacle `rect`: every cell at whose angles the arm touches
    /// it is taken up from now on.
    pub fn add_rect(&mut self, rect: &Rect<F>)
        requires
            old(self).wf(),
        ensures
            final(self).wf(),
            final(self).system_spec() == old(self).system_spec(),
            final(self).origin_spec() == old(self).origin_spec(),
            forall|c: (int, int)|
                in_grid_spec(c) ==> #[trigger] final(self).marked_spec(old(self), *rect, c),
    {
        let ghost before = *self;
        let mut idx: usize = 0;
        while idx < CELL_COUNT
            invariant
                idx <= CELL_COUNT,
                self.wf(),
                before.wf(),
                self.system == before.system,
                self.origin == before.origin,
                forall|c: (int, int)|
                    in_grid_spec(c) && flat_spec(c) < idx ==> #[trigger] self.marked_spec(
                        &before,
                        *rect,
                        c,
                    ),
                forall|j: int| idx <= j < CELL_COUNT ==> self.obstructed@[j] == before.obstructed@[j],
            decreases CELL_COUNT - idx,
        {
            let alpha_1: i32 = (idx / CONFIG_SIZE) as i32;
            let alpha_2: i32 = (idx % CONFIG_SIZE) as i32;
            let ghost cell = (alpha_1 as int, alpha_2 as int);
            let state = self.system.forward_kinematics(
                &Vector2 {
                    x: crate::numerics::to_radians(F::from_i32(alpha_1)),
                    y: crate::numerics::to_radians(F::from_i32(alpha_2)),
                },
            );
            let hit = arm_hits(&self.origin, &state, rect);
            let ghost mid = *self;
            let was = self.obstructed[idx];
            self.obstructed.set(idx, was || hit);
            proof {
                assert(flat_spec(cell) == idx);
                assert forall|c: (int, int)|
                    in_grid_spec(c) && flat_spec(c) < idx + 1 implies #[trigger] self.marked_spec(
                    &before,
                    *rect,
                    c,
                ) by {
                    if flat_spec(c) == idx {
                        assert(c == cell);
                        assert(before.system_spec().is_forward_kinematics(
                            cell_angles_spec::<F>(c),
                            state,
                        ));
                    } else {
                        assert(mid.marked_spec(&before, *rect, c));
                        let st = choose|st: State<F>|
                            {
                                &&& #[trigger] before.system_spec().is_forward_kinematics(
                                    cell_angles_spec::<F>(c),
                                    st,
                                )
                                &&& mid.obstructed_spec(c) == (before.obstructed_spec(c)
                                    || arm_hits_spec(before.origin_spec(), st, *rect))
                            };
                        assert(self.obstructed_spec(c) == mid.obstructed_spec(c));
                    }
                }
            }
            idx += 1;
        }
    }

    /// The colour of the cell `c` in a picture of the space, as red, green,
    /// blue and opacity: green where the cell is taken up; the nearer the
    /// search of `access_map` has found the cell, the more blue, and none
    /// where it has not reached the cell or found it 255 moves away or more.
    pub open spec fn pixel_spec(&self, access_map: &BFSMap, c: (int, int)) -> (u8, u8, u8, u8) {
        (
            0u8,
            if self.obstructed_spec(c) {
                255u8
            } else {
                0u8
            },
            match access_map.trove_spec(c) {
                Some(t) => if t.distance < 255 {
                    (255 - t.distance) as u8
                } else {
                    0u8
                },
                None => 0u8,
            },
            255u8,
        )
    }

    pub fn pixel(&self, access_map: &BFSMap, alpha_1: usize, alpha_2: usize) -> (r: (u8, u8, u8, u8))
        requires
            self.wf(),
            access_map.wf(),
            alpha_1 < CONFIG_SIZE,
            alpha_2 < CONFIG_SIZE,
        ensures
            r == self.pixel_spec(access_map, (alpha_1 as int, alpha_2 as int)),
    {
        let green: u8 = if self.is_obstructed(alpha_1, alpha_2) {
            255
        } else {
            0
        };
        let blue: u8 = match access_map.get(alpha_1, alpha_2) {
            Some(t) => if t.distance < 255 {
                255 - (t.distance as u8)
            } else {
                0
            },
            None => 0,
        };
        (0, green, blue, 255)
    }

    /// The picture of the space: one place for every cell, in the colour of
    /// the cell.
    pub fn texture(&self, access_map: &BFSMap) -> (r: Texture)
        requires
            self.wf(),
            access_map.wf(),
        ensures
            r.size() == (CONFIG_SIZE as u32, CONFIG_SIZE as u32),
            forall|c: (int, int)|
                in_grid_spec(c) ==> #[trigger] colour_spec(r, c) == self.pixel_spec(access_map, c),
    {
        let mut texture = Texture::new_rgb(CONFIG_SIZE as u32, CONFIG_SIZE as u32);
        let mut alpha_1: usize = 0;
        while alpha_1 < CONFIG_SIZE
            invariant
                alpha_1 <= CONFIG_SIZE,
                self.wf(),
                access_map.wf(),
                texture.size() == (CONFIG_SIZE as u32, CONFIG_SIZE as u32),
                forall|c: (int, int)|
                    in_grid_spec(c) && c.0 < alpha_1 ==> #[trigger] colour_spec(texture, c)
                        == self.pixel_spec(access_map, c),
            decreases CONFIG_SIZE - alpha_1,
        {
            let mut alpha_2: usize = 0;
            while alpha_2 < CONFIG_SIZE
                invariant
                    alpha_1 < CONFIG_SIZE,
                    alpha_2 <= CONFIG_SIZE,
                    self.wf(),
                    access_map.wf(),
                    texture.size() == (CONFIG_SIZE as u32, CONFIG_SIZE as u32),
                    forall|c: (int, int)|
                        in_grid_spec(c) && (c.0 < alpha_1 || (c.0 == alpha_1 && c.1 < alpha_2))
                            ==> #[trigger] colour_spec(texture, c) == self.pixel_spec(
                            access_map,
                            c,
                        ),
                decreases CONFIG_SIZE - alpha_2,
            {
                let colour = self.pixel(access_map, alpha_1, alpha_2);
                texture.put(alpha_1 as u32, alpha_2 as u32, colour);
                alpha_2 += 1;
            }
            alpha_1 += 1;
        }
        texture
    }
}

impl BFSMap {
    /// What the map holds for the cell `c`.
    pub closed spec fn trove_spec(&self, c: (int, int)) -> Option<BFSTrove> {
        trove_at(self.0@, c)
    }

    /// What the map holds of a cell fits what it holds of the cell before:
    /// a cell without one lies at distance zero, any other is one move from
    /// the cell before it and one further away.
    pub open spec fn linked_spec(&self, c: (int, int)) -> bool {
        match self.trove_spec(c) {
            None => true,
            Some(t) => match t.previous {
                None => t.distance == 0,
                Some(p) => {
                    &&& in_grid_spec(cell_spec(p))
                    &&& adjacent_spec(cell_spec(p), c)
                    &&& match self.trove_spec(cell_spec(p)) {
                        None => false,
                        Some(tp) => tp.distance + 1 == t.distance,
                    }
                },
            },
        }
    }

    pub closed spec fn sized(&self) -> bool {
        self.0@.len() == CELL_COUNT
    }

    /// The map has an entry for every cell, and every reached cell is linked
    /// to the one it was reached from.
    pub open spec fn wf(&self) -> bool {
        &&& self.sized()
        &&& forall|c: (int, int)| in_grid_spec(c) ==> #[trigger] self.linked_spec(c)
    }

    /// The map of a search that has reached nothing.
    pub fn empty() -> (r: Self)
        ensures
            r.wf(),
            forall|c: (int, int)| in_grid_spec(c) ==> (#[trigger] r.trove_spec(c)).is_none(),
    {
        let mut troves: Vec<Option<BFSTrove>> = Vec::with_capacity(CELL_COUNT);
        let mut i: usize = 0;
        while i < CELL_COUNT
            invariant
                i <= CELL_COUNT,
                troves@.len() == i,
                forall|j: int| 0 <= j < i ==> troves@[j].is_none(),
            decreases CELL_COUNT - i,
        {
            troves.push(None);
            i += 1;
        }
        BFSMap(troves)
    }

    /// What the search holds for the cell `(alpha_1, alpha_2)`.
    pub fn get(&self, alpha_1: usize, alpha_2: usize) -> (r: Option<BFSTrove>)
        requires
            self.wf(),
            alpha_1 < CONFIG_SIZE,
            alpha_2 < CONFIG_SIZE,
        ensures
            r == self.trove_spec((alpha_1 as int, alpha_2 as int)),
    {
        self.0[alpha_1 * CONFIG_SIZE + alpha_2]
    }
}

fn neighbour(alpha_1: usize, alpha_2: usize, k: usize) -> (r: (usize, usize))
    requires
        alpha_1 < CONFIG_SIZE,
        alpha_2 < CONFIG_SIZE,
        k < 4,
    ensures
        cell_spec(r) == neighbour_spec((alpha_1 as int, alpha_2 as int), k as int),
        r.0 < CONFIG_SIZE,
        r.1 < CONFIG_SIZE,
{
    if k == 0 {
        (alpha_1, (alpha_2 + 1) % CONFIG_SIZE)
    } else if k == 1 {
        ((alpha_1 + 1) % CONFIG_SIZE, alpha_2)
    } else if k == 2 {
        ((alpha_1 + CONFIG_SIZE - 1) % CONFIG_SIZE, alpha_2)
    } else {
        (alpha_1, (alpha_2 + CONFIG_SIZE - 1) % CONFIG_SIZE)
    }
}

/// A cell that the search has reached lies at the end of a path from the
/// start with as many moves as the map says.
proof fn lemma_reached_has_path<F: Float>(
    config: &ConfigObstuction<F>,
    troves: Seq<Option<BFSTrove>>,
    s: (int, int),
    c: (int, int),
)
    requires
        in_grid_spec(s),
        in_grid_spec(c),
        forall|c: (int, int)| in_grid_spec(c) ==> #[trigger] parent_ok(troves, c),
        forall|c: (int, int)| in_grid_spec(c) ==> #[trigger] rooted(troves, config.obstructed@, s, c),
        trove_at(troves, c).is_some(),
    ensures
        exists|p: Seq<(int, int)>|
            {
                &&& #[trigger] config.is_path_spec(p)
                &&& p[0] == s
                &&& p.last() == c
                &&& p.len() == trove_at(troves, c).unwrap().distance + 1
            },
    decreases trove_at(troves, c).unwrap().distance,
{
    let t = trove_at(troves, c).unwrap();
    assert(parent_ok(troves, c));
    assert(rooted(troves, config.obstructed@, s, c));
    match t.previous {
        None => {
            let p = seq![s];
            assert(config.is_path_spec(p));
            assert(p.last() == c);
        },
        Some(b) => {
            lemma_reached_has_path(config, troves, s, cell_spec(b));
            let p_0 = choose|p: Seq<(int, int)>|
                {
                    &&& #[trigger] config.is_path_spec(p)
                    &&& p[0] == s
                    &&& p.last() == cell_spec(b)
                    &&& p.len() == trove_at(troves, cell_spec(b)).unwrap().distance + 1
                };
            let p = p_0.push(c);
            assert forall|i: int| 1 <= i < p.len() implies adjacent_spec(p[i - 1], #[trigger] p[i])
                && !config.obstructed_spec(p[i]) by {
                if i < p_0.len() {
                    assert(p[i] == p_0[i]);
                    assert(p[i - 1] == p_0[i - 1]);
                }
            }
            assert forall|i: int| 0 <= i < p.len() implies in_grid_spec(#[trigger] p[i]) by {
                if i < p_0.len() {
                    assert(p[i] == p_0[i]);
                }
            }
            assert(config.is_path_spec(p));
            assert(p[0] == p_0[0]);
            assert(p.last() == c);
        },
    }
}

/// The end of a path from the start has been reached by a search that has
/// come to its end, in no more moves than the path has.
proof fn lemma_path_is_reached<F: Float>(
    config: &ConfigObstuction<F>,
    troves: Seq<Option<BFSTrove>>,
    s: (int, int),
    p: Seq<(int, int)>,
)
    requires
        bounded(troves, s, 0),
        trove_at(troves, s).is_some(),
        closure(troves, config.obstructed@, Seq::empty(), s, 4),
        config.is_path_spec(p),
        p[0] == s,
    ensures
        trove_at(troves, p.last()).is_some(),
        trove_at(troves, p.last()).unwrap().distance <= p.len() - 1,
    decreases p.len(),
{
    if p.len() > 1 {
        let p_0 = p.drop_last();
        assert forall|i: int| 1 <= i < p_0.len() implies adjacent_spec(
            p_0[i - 1],
            #[trigger] p_0[i],
        ) && !config.obstructed_spec(p_0[i]) by {
            assert(p_0[i] == p[i]);
            assert(p_0[i - 1] == p[i - 1]);
        }
        assert forall|i: int| 0 <= i < p_0.len() implies in_grid_spec(#[trigger] p_0[i]) by {
            assert(p_0[i] == p[i]);
        }
        assert(p_0[0] == p[0]);
        lemma_path_is_reached(config, troves, s, p_0);
        let a = p_0.last();
        let b = p.last();
        assert(a == p[p.len() - 2]);
        assert(in_grid_spec(p[p.len() - 2]));
        assert(adjacent_spec(p[p.len() - 1 - 1], p[p.len() - 1]) && !config.obstructed_spec(
            p[p.len() - 1],
        ));
        let k = choose|k: int| 0 <= k < 4 && #[trigger] neighbour_spec(a, k) == b;
        assert(closed_at(troves, config.obstructed@, Seq::empty(), a, k));
        let bound = trove_at(troves, a).unwrap().distance + 1;
        assert(covered(troves, Seq::empty(), b, bound));
        assert(forall|q: int| !#[trigger] queued(Seq::<IndexedBFSTrove>::empty(), q, b, bound));
    }
}

impl BFSMap {
    /// Whether the map is what a search from `start` over the free cells of
    /// `config` finds. Without a start nothing is reached. With one, the
    /// start lies at distance zero; every reached cell lies at the end of a
    /// path from the start of as many moves as its distance; and the end of
    /// every path from the start is reached, at no more than the path's
    /// moves. So the reached cells are those that a path leads to, and the
    /// distance of each is the length of its shortest path.
    pub open spec fn searched_spec<F: Float>(
        &self,
        start: Option<(usize, usize)>,
        config: &ConfigObstuction<F>,
    ) -> bool {
        match start {
            None => forall|c: (int, int)|
                in_grid_spec(c) ==> (#[trigger] self.trove_spec(c)).is_none(),
            Some(start) => {
                &&& self.trove_spec(cell_spec(start)) == Some(
                    BFSTrove { previous: None, distance: 0 },
                )
                &&& forall|c: (int, int)|
                    in_grid_spec(c) && (#[trigger] self.trove_spec(c)).is_some() ==> exists|
                        p: Seq<(int, int)>,
                    |
                        {
                            &&& #[trigger] config.is_path_spec(p)
                            &&& p[0] == cell_spec(start)
                            &&& p.last() == c
                            &&& p.len() == self.trove_spec(c).unwrap().distance + 1
                        }
                &&& forall|p: Seq<(int, int)>| #[trigger]
                    config.is_path_spec(p) && p[0] == cell_spec(start) ==> {
                        &&& self.trove_spec(p.last()).is_some()
                        &&& self.trove_spec(p.last()).unwrap().distance <= p.len() - 1
                    }
            },
        }
    }

    /// The shortest ways from `start` to every cell that can be reached from
    /// it by moves from a cell to a free neighbour. The start itself need not
    /// be free. Without a start nothing is reached.
    pub fn from_cell<F: Float>(start: Option<(usize, usize)>, config: &ConfigObstuction<F>) -> (r:
        Self)
        requires
            config.wf(),
            start.is_some() ==> in_grid_spec(cell_spec(start.unwrap())),
        ensures
            r.wf(),
            r.searched_spec(start, config),
    {
        let mut me = Self::empty();
        let start = match start {
            Some(start) => start,
            None => {
                return me;
            },
        };
        let ghost s = cell_spec(start);
        let ghost obstructed = config.obstructed@;
        let ghost mut unset: Set<int> = set_int_range(0, CELL_COUNT as int);

        let mut queue: VecDeque<IndexedBFSTrove> = VecDeque::new();
        queue.push_back(
            IndexedBFSTrove {
                alpha_1: start.0,
                alpha_2: start.1,
                trove: BFSTrove { previous: None, distance: 0 },
            },
        );
        proof {
            lemma_int_range(0, CELL_COUNT as int);
            assert(queued(queue@, 0, s, 0));
            assert forall|c: (int, int)| in_grid_spec(c) implies #[trigger] counted(
                me.0@,
                unset,
                c,
            ) by {
                assert(me.trove_spec(c).is_none());
            }
            assert forall|c: (int, int)| in_grid_spec(c) implies #[trigger] parent_ok(me.0@, c) by {
                assert(me.trove_spec(c).is_none());
            }
            assert forall|c: (int, int)| in_grid_spec(c) implies #[trigger] rooted(
                me.0@,
                obstructed,
                s,
                c,
            ) by {
                assert(me.trove_spec(c).is_none());
            }
            assert forall|c: (int, int)| in_grid_spec(c) implies #[trigger] below_front(
                me.0@,
                queue@,
                c,
            ) by {
                assert(me.trove_spec(c).is_none());
            }
            assert forall|a: (int, int), k: int| in_grid_spec(a) && 0 <= k < 4 implies #[trigger] closed_at(
                me.0@, obstructed, queue@, a, k) by {
                assert(me.trove_spec(a).is_none());
            }
        }

        while queue.len() > 0
            invariant
                obstructed == config.obstructed@,
                s == cell_spec(start),
                search_inv(me.0@, obstructed, queue@, unset, s),
                closure(me.0@, obstructed, queue@, s, 4),
            decreases unset.len(), queue@.len(),
        {
            let ghost queue_0 = queue@;
            let ghost troves_0 = me.0@;
            let node = queue.pop_front().unwrap();
            let ghost queue_1 = queue@;
            let ghost cell = entry_cell(node);
            let idx = node.alpha_1 * CONFIG_SIZE + node.alpha_2;
            proof {
                assert(node == queue_0[0]);
                assert(entry_ok(troves_0, obstructed, s, queue_0[0]));
                assert(below_front(troves_0, queue_0, cell));
                assert(forall|q: int|
                    0 <= q < queue_1.len() ==> queue_1[q] == queue_0[q + 1]);
            }
            let skip = match me.0[idx] {
                Some(existing_trove) => existing_trove.distance <= node.trove.distance,
                None => false,
            };
            if skip {
                proof {
                    lemma_popped_covered(troves_0, obstructed, queue_0, unset, s);
                }
                continue;
            }
            assert(trove_at(troves_0, cell).is_none());
            assert(counted(troves_0, unset, cell));

            me.0.set(idx, Some(node.trove));
            proof {
                lemma_set_keeps(troves_0, me.0@, obstructed, queue_0, unset, s);
                unset = unset.remove(idx as int);
            }

            let mut k: usize = 0;
            while k < 4
                invariant
                    k <= 4,
                    config.wf(),
                    obstructed == config.obstructed@,
                    s == cell_spec(start),
                    cell == entry_cell(node),
                    in_grid_spec(cell),
                    trove_at(me.0@, cell) == Some(node.trove),
                    node.trove.distance + unset.len() + 1 <= CELL_COUNT,
                    search_inv(me.0@, obstructed, queue@, unset, s),
                    closure(me.0@, obstructed, queue@, cell, k as int),
                    forall|c: (int, int)|
                        in_grid_spec(c) ==> #[trigger] bounded(me.0@, c, node.trove.distance as int),
                    forall|q: int|
                        0 <= q < queue@.len() ==> node.trove.distance <= (
                        #[trigger] queue@[q]).trove.distance <= node.trove.distance + 1,
                decreases 4 - k,
            {
                let (new_alpha_1, new_alpha_2) = neighbour(node.alpha_1, node.alpha_2, k);
                let new_idx = new_alpha_1 * CONFIG_SIZE + new_alpha_2;
                let ghost b = (new_alpha_1 as int, new_alpha_2 as int);
                let beyond = match me.0[new_idx] {
                    Some(t) => t.distance > node.trove.distance + 1,
                    None => true,
                };
                let ghost queue_2 = queue@;
                if !config.obstructed[new_idx] && beyond {
                    let entry = IndexedBFSTrove {
                        trove: BFSTrove {
                            previous: Some((node.alpha_1, node.alpha_2)),
                            distance: node.trove.distance + 1,
                        },
                        alpha_1: new_alpha_1,
                        alpha_2: new_alpha_2,
                    };
                    queue.push_back(entry);
                    proof {
                        lemma_pushed(me.0@, obstructed, queue_2, unset, s, cell, k as int, entry);
                    }
                } else {
                    proof {
                        assert(closed_at(me.0@, obstructed, queue@, cell, k as int));
                    }
                }
                k += 1;
            }
        }

        proof {
            assert(queue@ =~= Seq::empty());
            assert(forall|q: int| !#[trigger] queued(queue@, q, s, 0));
            assert(parent_ok(me.0@, s));
            assert forall|c: (int, int)| in_grid_spec(c) implies #[trigger] me.linked_spec(c) by {
                assert(parent_ok(me.0@, c));
            }
            assert forall|c: (int, int)|
                in_grid_spec(c) && (#[trigger] me.trove_spec(c)).is_some() implies exists|
                p: Seq<(int, int)>,
            |
                {
                    &&& #[trigger] config.is_path_spec(p)
                    &&& p[0] == s
                    &&& p.last() == c
                    &&& p.len() == me.trove_spec(c).unwrap().distance + 1
                } by {
                lemma_reached_has_path(config, me.0@, s, c);
            }
            assert forall|p: Seq<(int, int)>| #[trigger]
                config.is_path_spec(p) && p[0] == s implies {
                &&& me.trove_spec(p.last()).is_some()
                &&& me.trove_spec(p.last()).unwrap().distance <= p.len() - 1
            } by {
                lemma_path_is_reached(config, me.0@, s, p);
            }
        }
        me
    }
}

/// The scalar of the whole number `k` of degrees, for `k` up to 360.
pub open spec fn degree_spec<F: Float>(k: int) -> F {
    F::from_i32_spec(k as i32)
}

/// Whether the angle of `degrees` falls into the cell `k`: at or above `k`
/// degrees and below `k + 1`.
pub open spec fn in_cell_spec<F: Float>(degrees: F, k: int) -> bool {
    crate::numerics::le_spec(degree_spec::<F>(k), degrees) && degrees.lt_spec(
        degree_spec::<F>(k + 1),
    )
}

/// The first cell from `from` on into which the angle of `degrees` falls.
pub open spec fn first_cell_spec<F: Float>(degrees: F, from: int) -> Option<usize>
    decreases CONFIG_SIZE - from,
{
    if from < 0 || from >= CONFIG_SIZE {
        None
    } else if in_cell_spec(degrees, from) {
        Some(from as usize)
    } else {
        first_cell_spec(degrees, from + 1)
    }
}

/// The cell of an angle in radians: the whole degrees of the angle, taken
/// within one turn. There is none for an angle that is not a number.
pub open spec fn config_cell_spec<F: Float>(angle: F) -> Option<usize> {
    first_cell_spec(
        crate::numerics::rem_euclid_spec(
            crate::numerics::to_degrees_spec(angle),
            F::from_i32_spec(360),
        ),
        0,
    )
}

pub fn config_cell<F: Float>(angle: F) -> (r: Option<usize>)
    ensures
        r == config_cell_spec(angle),
        r.is_some() ==> r.unwrap() < CONFIG_SIZE,
{
    let degrees = crate::numerics::rem_euclid(crate::numerics::to_degrees(angle), F::from_i32(360));
    let mut k: usize = 0;
    while k < CONFIG_SIZE
        invariant
            k <= CONFIG_SIZE,
            first_cell_spec(degrees, k as int) == config_cell_spec(angle),
        decreases CONFIG_SIZE - k,
    {
        let low: i32 = k as i32;
        let inside = crate::numerics::le(F::from_i32(low), degrees) && degrees.lt(
            F::from_i32(low + 1),
        );
        assert(inside == in_cell_spec(degrees, k as int));
        if inside {
            assert(first_cell_spec(degrees, k as int) == Some(k));
            return Some(k);
        }
        assert(first_cell_spec(degrees, k as int) == first_cell_spec(degrees, k + 1));
        k += 1;
    }
    None
}

/// The cell of a point of the configuration space, where both of its angles
/// have one.
pub open spec fn point_cell_spec<F: Float>(point: Vector2<F>) -> Option<(usize, usize)> {
    match (config_cell_spec(point.x), config_cell_spec(point.y)) {
        (Some(alpha_1), Some(alpha_2)) => Some((alpha_1, alpha_2)),
        _ => None,
    }
}

pub fn point_cell<F: Float>(point: &Vector2<F>) -> (r: Option<(usize, usize)>)
    ensures
        r == point_cell_spec(*point),
        r.is_some() ==> in_grid_spec(cell_spec(r.unwrap())),
{
    match (config_cell(point.x), config_cell(point.y)) {
        (Some(alpha_1), Some(alpha_2)) => Some((alpha_1, alpha_2)),
        _ => None,
    }
}

/// The angle in radians at the middle of the cell `k`.
pub open spec fn cell_centre_spec<F: Float>(k: int) -> F {
    crate::numerics::to_radians_spec(
        degree_spec::<F>(k).add_spec(crate::numerics::ratio_spec::<F>(1, 2)),
    )
}

pub fn cell_centre<F: Float>(k: usize) -> (r: F)
    requires
        k < CONFIG_SIZE,
    ensures
        r == cell_centre_spec::<F>(k as int),
{
    let low: i32 = k as i32;
    crate::numerics::to_radians(F::from_i32(low).add(crate::numerics::ratio(1, 2)))
}

/// The point at the middle of the cell `c`.
pub open spec fn centre_point_spec<F: Float>(c: (usize, usize)) -> Vector2<F> {
    Vector2 { x: cell_centre_spec::<F>(c.0 as int), y: cell_centre_spec::<F>(c.1 as int) }
}

impl BFSMap {
    /// Whether cell `i` of `path` is held by the map at distance `i`, with
    /// the cell of the path before it as the one it was reached from; the
    /// first cell has none before it.
    pub open spec fn step_spec(&self, path: Seq<(usize, usize)>, i: int) -> bool {
        &&& in_grid_spec(cell_spec(path[i]))
        &&& self.trove_spec(cell_spec(path[i])) == Some(
            BFSTrove {
                previous: if i == 0 {
                    None
                } else {
                    Some(path[i - 1])
                },
                distance: i as usize,
            },
        )
    }

    /// Whether `path` is the way that the map holds to `target`: it ends at
    /// `target`, each of its cells is the one that the map names as the one
    /// before the next, and its first cell has none before it.
    pub open spec fn leads_to_spec(&self, path: Seq<(usize, usize)>, target: (usize, usize))
        -> bool {
        &&& path.len() >= 1
        &&& path.last() == target
        &&& forall|i: int| 0 <= i < path.len() ==> #[trigger] self.step_spec(path, i)
    }

    /// Whether cell `j` of `back`, a way walked from its end, is held by
    /// the map `j` moves nearer than `distance`, reached from the next cell
    /// of `back`.
    spec fn back_step(&self, back: Seq<(usize, usize)>, distance: int, j: int) -> bool {
        self.trove_spec(cell_spec(back[j])) == Some(
            BFSTrove { previous: Some(back[j + 1]), distance: (distance - j) as usize },
        )
    }

    /// The way from the start of the search to the cell `target`, cell by
    /// cell, or `None` where the search has not reached `target`.
    pub fn cell_path_to(&self, target: (usize, usize)) -> (r: Option<Vec<(usize, usize)>>)
        requires
            self.wf(),
            in_grid_spec(cell_spec(target)),
        ensures
            r.is_none() == self.trove_spec(cell_spec(target)).is_none(),
            r.is_some() ==> self.leads_to_spec(r.unwrap()@, target),
    {
        let found = match self.0[target.0 * CONFIG_SIZE + target.1] {
            Some(found) => found,
            None => {
                return None;
            },
        };
        let mut current = found;
        let mut back: Vec<(usize, usize)> = Vec::new();
        back.push(target);
        while current.previous.is_some()
            invariant
                self.wf(),
                back@.len() >= 1,
                back@[0] == target,
                back@.len() + current.distance == found.distance + 1,
                self.trove_spec(cell_spec(back@.last())) == Some(current),
                forall|j: int|
                    0 <= j < back@.len() ==> in_grid_spec(cell_spec(#[trigger] back@[j])),
                forall|j: int|
                    0 <= j < back@.len() - 1 ==> #[trigger] self.back_step(
                        back@,
                        found.distance as int,
                        j,
                    ),
            decreases current.distance,
        {
            let prev = current.previous.unwrap();
            proof {
                assert(self.linked_spec(cell_spec(back@.last())));
            }
            let ghost back_0 = back@;
            let next = self.0[prev.0 * CONFIG_SIZE + prev.1].unwrap();
            back.push(prev);
            proof {
                assert forall|j: int| 0 <= j < back@.len() - 1 implies #[trigger] self.back_step(
                    back@,
                    found.distance as int,
                    j,
                ) by {
                    if j < back_0.len() - 1 {
                        assert(self.back_step(back_0, found.distance as int, j));
                        assert(back@[j] == back_0[j]);
                        assert(back@[j + 1] == back_0[j + 1]);
                    } else {
                        assert(back@[j] == back_0.last());
                    }
                }
                assert forall|j: int| 0 <= j < back@.len() implies in_grid_spec(
                    cell_spec(#[trigger] back@[j]),
                ) by {
                    if j < back_0.len() {
                        assert(back@[j] == back_0[j]);
                    }
                }
            }
            current = next;
        }
        proof {
            assert(self.linked_spec(cell_spec(back@.last())));
            assert(current.distance == 0);
        }
        let n = back.len();
        let mut path: Vec<(usize, usize)> = Vec::with_capacity(n);
        let mut i: usize = 0;
        while i < n
            invariant
                i <= n,
                n == back@.len(),
                path@.len() == i,
                forall|j: int| 0 <= j < i ==> #[trigger] path@[j] == back@[n - 1 - j],
            decreases n - i,
        {
            path.push(back[n - 1 - i]);
            i += 1;
        }
        proof {
            assert(path@.last() == target);
            assert forall|i: int| 0 <= i < path@.len() implies #[trigger] self.step_spec(
                path@,
                i,
            ) by {
                let j = n - 1 - i;
                assert(path@[i] == back@[j]);
                assert(in_grid_spec(cell_spec(back@[j])));
                if i > 0 {
                    assert(path@[i - 1] == back@[j + 1]);
                    assert(self.back_step(back@, found.distance as int, j));
                }
            }
        }
        Some(path)
    }

    /// The shortest ways from the cell of the point `start`. Without a start,
    /// or where the start has an angle that is not a number, nothing is reached.
    pub fn from_obstructions<F: Float>(start: &Option<Vector2<F>>, config: &ConfigObstuction<F>)
        -> (r: Self)
        requires
            config.wf(),
        ensures
            r.wf(),
            r.searched_spec(
                match *start {
                    Some(point) => point_cell_spec(point),
                    None => None,
                },
                config,
            ),
    {
        let cell = match start {
            Some(point) => point_cell(point),
            None => None,
        };
        Self::from_cell(cell, config)
    }

    /// The points along the cells of `path` but the last, each at the middle
    /// of its cell, and then the point `target` itself.
    pub open spec fn way_points_spec<F: Float>(path: Seq<(usize, usize)>, target: Vector2<F>)
        -> Seq<Vector2<F>> {
        Seq::new(
            path.len(),
            |i: int|
                if i == path.len() - 1 {
                    target
                } else {
                    centre_point_spec::<F>(path[i])
                },
        )
    }

    /// The way from the start of the search to the point `target`: through
    /// the middles of the cells on the way, and at last to `target` itself.
    /// `None` where the search has not reached the cell of `target`, or where
    /// `target` has an angle that is not a number.
    pub fn path_to<F: Float>(&self, target: &Vector2<F>) -> (r: Option<Vec<Vector2<F>>>)
        requires
            self.wf(),
        ensures
            r.is_some() == match point_cell_spec(*target) {
                Some(cell) => self.trove_spec(cell_spec(cell)).is_some(),
                None => false,
            },
            r.is_some() ==> exists|path: Seq<(usize, usize)>| #[trigger]
                self.leads_to_spec(path, point_cell_spec(*target).unwrap()) && r.unwrap()@
                    == Self::way_points_spec(path, *target),
    {
        let cell = match point_cell(target) {
            Some(cell) => cell,
            None => {
                return None;
            },
        };
        let cells = match self.cell_path_to(cell) {
            Some(cells) => cells,
            None => {
                return None;
            },
        };
        let n = cells.len();
        let mut path: Vec<Vector2<F>> = Vec::with_capacity(n);
        let mut i: usize = 0;
        while i + 1 < n
            invariant
                n == cells@.len(),
                n >= 1,
                i + 1 <= n,
                path@.len() == i,
                self.leads_to_spec(cells@, cell),
                forall|j: int| 0 <= j < i ==> #[trigger] path@[j] == centre_point_spec::<F>(cells@[j]),
            decreases n - i,
        {
            let c = cells[i];
            assert(self.step_spec(cells@, i as int));
            path.push(Vector2 { x: cell_centre(c.0), y: cell_centre(c.1) });
            i += 1;
        }
        path.push(*target);
        assert(path@ =~= Self::way_points_spec(cells@, *target));
        Some(path)
    }
}

/// Taking the first entry off the queue breaks nothing where what it stood
/// for holds of the map already.
proof fn lemma_popped_covered(
    troves: Seq<Option<BFSTrove>>,
    obstructed: Seq<bool>,
    queue_0: Seq<IndexedBFSTrove>,
    unset: Set<int>,
    s: (int, int),
)
    requires
        queue_0.len() > 0,
        search_inv(troves, obstructed, queue_0, unset, s),
        closure(troves, obstructed, queue_0, s, 4),
        bounded(troves, entry_cell(queue_0[0]), queue_0[0].trove.distance as int),
        trove_at(troves, entry_cell(queue_0[0])).is_some(),
    ensures
        search_inv(troves, obstructed, queue_0.subrange(1, queue_0.len() as int), unset, s),
        closure(troves, obstructed, queue_0.subrange(1, queue_0.len() as int), s, 4),
{
    let queue_1 = queue_0.subrange(1, queue_0.len() as int);
    let node = queue_0[0];
    assert forall|b: (int, int), bound: int| covered(troves, queue_0, b, bound) implies covered(
        troves,
        queue_1,
        b,
        bound,
    ) by {
        if exists|q: int| #[trigger] queued(queue_0, q, b, bound) {
            let q = choose|q: int| #[trigger] queued(queue_0, q, b, bound);
            if q > 0 {
                assert(queued(queue_1, q - 1, b, bound));
            }
        }
    }
    assert forall|a: (int, int), k: int| in_grid_spec(a) && 0 <= k < 4 implies #[trigger] closed_at(
        troves,
        obstructed,
        queue_1,
        a,
        k,
    ) by {
        assert(closed_at(troves, obstructed, queue_0, a, k));
    }
    assert forall|c: (int, int)| in_grid_spec(c) implies #[trigger] below_front(
        troves,
        queue_1,
        c,
    ) by {
        assert(below_front(troves, queue_0, c));
        if queue_1.len() > 0 {
            assert(queue_1[0] == queue_0[1]);
        }
    }
    assert forall|q: int| 0 <= q < queue_1.len() implies entry_ok(
        troves,
        obstructed,
        s,
        #[trigger] queue_1[q],
    ) by {
        assert(queue_1[q] == queue_0[q + 1]);
    }
    assert forall|q: int| 0 <= q < queue_1.len() implies (#[trigger] queue_1[q]).trove.distance
        + unset.len() <= CELL_COUNT by {
        assert(queue_1[q] == queue_0[q + 1]);
    }
    assert(sorted(queue_1)) by {
        assert forall|i: int, j: int| 0 <= i <= j < queue_1.len() implies (
        #[trigger] queue_1[i]).trove.distance <= (#[trigger] queue_1[j]).trove.distance by {
            assert(queue_1[i] == queue_0[i + 1]);
            assert(queue_1[j] == queue_0[j + 1]);
        }
        assert forall|j: int| 0 <= j < queue_1.len() implies (
        #[trigger] queue_1[j]).trove.distance <= queue_1[0].trove.distance + 1 by {
            assert(queue_1[j] == queue_0[j + 1]);
            assert(queue_1[0] == queue_0[1]);
        }
    }
}

/// Writing the first entry of the queue into the map, for a cell that the
/// map did not hold, keeps what holds of the search; the neighbours of that
/// cell are still to be looked at.
proof fn lemma_set_keeps(
    troves_0: Seq<Option<BFSTrove>>,
    troves: Seq<Option<BFSTrove>>,
    obstructed: Seq<bool>,
    queue_0: Seq<IndexedBFSTrove>,
    unset: Set<int>,
    s: (int, int),
)
    requires
        queue_0.len() > 0,
        search_inv(troves_0, obstructed, queue_0, unset, s),
        closure(troves_0, obstructed, queue_0, s, 4),
        trove_at(troves_0, entry_cell(queue_0[0])).is_none(),
        troves == troves_0.update(flat_spec(entry_cell(queue_0[0])), Some(queue_0[0].trove)),
    ensures
        unset.contains(flat_spec(entry_cell(queue_0[0]))),
        search_inv(
            troves,
            obstructed,
            queue_0.subrange(1, queue_0.len() as int),
            unset.remove(flat_spec(entry_cell(queue_0[0]))),
            s,
        ),
        closure(
            troves,
            obstructed,
            queue_0.subrange(1, queue_0.len() as int),
            entry_cell(queue_0[0]),
            0,
        ),
        queue_0[0].trove.distance + unset.remove(flat_spec(entry_cell(queue_0[0]))).len() + 1
            <= CELL_COUNT,
        forall|c: (int, int)|
            in_grid_spec(c) ==> #[trigger] bounded(troves, c, queue_0[0].trove.distance as int),
        forall|q: int|
            0 <= q < queue_0.len() - 1 ==> queue_0[0].trove.distance <= (#[trigger] queue_0.subrange(
                1,
                queue_0.len() as int,
            )[q]).trove.distance <= queue_0[0].trove.distance + 1,
{
    let queue_1 = queue_0.subrange(1, queue_0.len() as int);
    let node = queue_0[0];
    let cell = entry_cell(node);
    let unset_1 = unset.remove(flat_spec(cell));
    assert(entry_ok(troves_0, obstructed, s, queue_0[0]));
    assert(counted(troves_0, unset, cell));
    assert forall|c: (int, int)| in_grid_spec(c) implies trove_at(troves, c) == if c == cell {
        Some(node.trove)
    } else {
        trove_at(troves_0, c)
    } by {}
    assert forall|c: (int, int)| in_grid_spec(c) implies #[trigger] parent_ok(troves, c) by {
        assert(parent_ok(troves_0, c));
    }
    assert forall|c: (int, int)| in_grid_spec(c) implies #[trigger] rooted(
        troves,
        obstructed,
        s,
        c,
    ) by {
        assert(rooted(troves_0, obstructed, s, c));
    }
    assert forall|c: (int, int)| in_grid_spec(c) implies #[trigger] bounded(
        troves,
        c,
        node.trove.distance as int,
    ) by {
        assert(below_front(troves_0, queue_0, c));
    }
    assert forall|c: (int, int)| in_grid_spec(c) implies #[trigger] below_front(
        troves,
        queue_1,
        c,
    ) by {
        assert(bounded(troves, c, node.trove.distance as int));
        if queue_1.len() > 0 {
            assert(queue_1[0] == queue_0[1]);
        }
    }
    assert forall|c: (int, int)| in_grid_spec(c) implies #[trigger] counted(troves, unset_1, c) by {
        assert(counted(troves_0, unset, c));
    }
    assert forall|q: int| 0 <= q < queue_1.len() implies entry_ok(
        troves,
        obstructed,
        s,
        #[trigger] queue_1[q],
    ) by {
        assert(queue_1[q] == queue_0[q + 1]);
        assert(entry_ok(troves_0, obstructed, s, queue_0[q + 1]));
    }
    assert forall|q: int| 0 <= q < queue_1.len() implies (#[trigger] queue_1[q]).trove.distance
        + unset_1.len() <= CELL_COUNT by {
        assert(queue_1[q] == queue_0[q + 1]);
    }
    assert forall|q: int| 0 <= q < queue_0.len() - 1 implies node.trove.distance <= (
    #[trigger] queue_1[q]).trove.distance <= node.trove.distance + 1 by {
        assert(queue_1[q] == queue_0[q + 1]);
    }
    assert(sorted(queue_1)) by {
        assert forall|i: int, j: int| 0 <= i <= j < queue_1.len() implies (
        #[trigger] queue_1[i]).trove.distance <= (#[trigger] queue_1[j]).trove.distance by {
            assert(queue_1[i] == queue_0[i + 1]);
            assert(queue_1[j] == queue_0[j + 1]);
        }
        assert forall|j: int| 0 <= j < queue_1.len() implies (
        #[trigger] queue_1[j]).trove.distance <= queue_1[0].trove.distance + 1 by {
            assert(queue_1[j] == queue_0[j + 1]);
            assert(queue_1[0] == queue_0[1]);
        }
    }
    assert forall|b: (int, int), bound: int|
        in_grid_spec(b) && covered(troves_0, queue_0, b, bound) implies covered(
        troves,
        queue_1,
        b,
        bound,
    ) by {
        if exists|q: int| #[trigger] queued(queue_0, q, b, bound) {
            let q = choose|q: int| #[trigger] queued(queue_0, q, b, bound);
            if q > 0 {
                assert(queued(queue_1, q - 1, b, bound));
            }
        }
    }
    assert forall|a: (int, int), k: int|
        in_grid_spec(a) && 0 <= k < 4 && !(a == cell && k >= 0) implies #[trigger] closed_at(
        troves,
        obstructed,
        queue_1,
        a,
        k,
    ) by {
        assert(closed_at(troves_0, obstructed, queue_0, a, k));
        lemma_neighbour_in_grid(a, k);
    }
}

/// A new entry at the end of the queue for the neighbour in direction `k`
/// of the cell that is being worked on keeps what holds of the search, and
/// settles that direction.
proof fn lemma_pushed(
    troves: Seq<Option<BFSTrove>>,
    obstructed: Seq<bool>,
    queue: Seq<IndexedBFSTrove>,
    unset: Set<int>,
    s: (int, int),
    cell: (int, int),
    k: int,
    entry: IndexedBFSTrove,
)
    requires
        0 <= k < 4,
        in_grid_spec(cell),
        search_inv(troves, obstructed, queue, unset, s),
        closure(troves, obstructed, queue, cell, k),
        trove_at(troves, cell).is_some(),
        entry.trove.previous.is_some(),
        cell_spec(entry.trove.previous.unwrap()) == cell,
        entry.trove.distance == trove_at(troves, cell).unwrap().distance + 1,
        entry_cell(entry) == neighbour_spec(cell, k),
        !obstructed[flat_spec(entry_cell(entry))],
        entry.trove.distance + unset.len() <= CELL_COUNT,
        forall|c: (int, int)|
            in_grid_spec(c) ==> #[trigger] bounded(troves, c, entry.trove.distance - 1),
        forall|q: int|
            0 <= q < queue.len() ==> entry.trove.distance - 1 <= (
            #[trigger] queue[q]).trove.distance <= entry.trove.distance,
    ensures
        search_inv(troves, obstructed, queue.push(entry), unset, s),
        closure(troves, obstructed, queue.push(entry), cell, k + 1),
        forall|q: int|
            0 <= q < queue.len() + 1 ==> entry.trove.distance - 1 <= (#[trigger] queue.push(
                entry,
            )[q]).trove.distance <= entry.trove.distance,
{
    let queue_2 = queue.push(entry);
    lemma_neighbour_in_grid(cell, k);
    assert(adjacent_spec(cell, entry_cell(entry)));
    assert forall|q: int| 0 <= q < queue_2.len() implies entry_ok(
        troves,
        obstructed,
        s,
        #[trigger] queue_2[q],
    ) by {
        if q < queue.len() {
            assert(queue_2[q] == queue[q]);
        }
    }
    assert forall|q: int| 0 <= q < queue_2.len() implies (#[trigger] queue_2[q]).trove.distance
        + unset.len() <= CELL_COUNT by {
        if q < queue.len() {
            assert(queue_2[q] == queue[q]);
        }
    }
    assert forall|q: int| 0 <= q < queue.len() + 1 implies entry.trove.distance - 1 <= (
    #[trigger] queue_2[q]).trove.distance <= entry.trove.distance by {
        if q < queue.len() {
            assert(queue_2[q] == queue[q]);
        }
    }
    assert(sorted(queue_2)) by {
        assert forall|i: int, j: int| 0 <= i <= j < queue_2.len() implies (
        #[trigger] queue_2[i]).trove.distance <= (#[trigger] queue_2[j]).trove.distance by {
            if j < queue.len() {
                assert(queue_2[i] == queue[i]);
                assert(queue_2[j] == queue[j]);
            } else if i < queue.len() {
                assert(queue_2[i] == queue[i]);
            }
        }
        assert forall|j: int| 0 <= j < queue_2.len() implies (
        #[trigger] queue_2[j]).trove.distance <= queue_2[0].trove.distance + 1 by {
            if j < queue.len() {
                assert(queue_2[j] == queue[j]);
            }
            if 0 < queue.len() {
                assert(queue_2[0] == queue[0]);
            }
        }
    }
    assert forall|c: (int, int)| in_grid_spec(c) implies #[trigger] below_front(
        troves,
        queue_2,
        c,
    ) by {
        assert(below_front(troves, queue, c));
        assert(bounded(troves, c, entry.trove.distance - 1));
        if 0 < queue.len() {
            assert(queue_2[0] == queue[0]);
        }
    }
    assert forall|b: (int, int), bound: int| covered(troves, queue, b, bound) implies covered(
        troves,
        queue_2,
        b,
        bound,
    ) by {
        if exists|q: int| #[trigger] queued(queue, q, b, bound) {
            let q = choose|q: int| #[trigger] queued(queue, q, b, bound);
            assert(queue_2[q] == queue[q]);
            assert(queued(queue_2, q, b, bound));
        }
    }
    assert forall|a: (int, int), j: int|
        in_grid_spec(a) && 0 <= j < 4 && !(a == cell && j >= k + 1) implies #[trigger] closed_at(
        troves,
        obstructed,
        queue_2,
        a,
        j,
    ) by {
        if a == cell && j == k {
            assert(queued(queue_2, queue.len() as int, neighbour_spec(cell, k), entry.trove.distance as int));
        } else {
            assert(closed_at(troves, obstructed, queue, a, j));
        }
    }
}

} // verus!
