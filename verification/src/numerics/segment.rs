use vstd::prelude::*;

use crate::numerics::linalg::Vector2;
use crate::numerics::rect::Rect;
use crate::numerics::{le, le_spec, max, max_spec, min, min_spec, Float};

verus! {

/// The way a path through three points turns.
#[derive(Clone, Copy, Debug, PartialEq, Eq, Structural)]
pub enum Orientation {
    Collinear,
    Clockwise,
    Counterclockwise,
}

/// A segment of the plane between two points.
pub struct Segment<F>(Vector2<F>, Vector2<F>);

/// The cross product that tells the turn of the path `p_1`, `p_2`, `p_3`:
/// positive where it turns clockwise.
pub open spec fn turn_spec<F: Float>(p_1: Vector2<F>, p_2: Vector2<F>, p_3: Vector2<F>) -> F {
    p_2.y.sub_spec(p_1.y).mul_spec(p_3.x.sub_spec(p_2.x)).sub_spec(
        p_2.x.sub_spec(p_1.x).mul_spec(p_3.y.sub_spec(p_2.y)),
    )
}

/// How the path `p_1`, `p_2`, `p_3` turns.
pub open spec fn orientation_spec<F: Float>(p_1: Vector2<F>, p_2: Vector2<F>, p_3: Vector2<F>)
    -> Orientation {
    let turn = turn_spec(p_1, p_2, p_3);
    if F::from_i32_spec(0).lt_spec(turn) {
        Orientation::Clockwise
    } else if turn.lt_spec(F::from_i32_spec(0)) {
        Orientation::Counterclockwise
    } else {
        Orientation::Collinear
    }
}

/// Whether `p` lies in the box that the segment from `a` to `b` spans. For a
/// point on the segment's line this says whether it lies on the segment.
pub open spec fn spans_spec<F: Float>(a: Vector2<F>, b: Vector2<F>, p: Vector2<F>) -> bool {
    &&& le_spec(p.x, max_spec(a.x, b.x))
    &&& le_spec(min_spec(a.x, b.x), p.x)
    &&& le_spec(p.y, max_spec(a.y, b.y))
    &&& le_spec(min_spec(a.y, b.y), p.y)
}

/// Whether the segment from `a_0` to `a_1` and the one from `b_0` to `b_1`
/// have a point in common: either each has its ends on different sides of
/// the other, or an end of one lies on the other.
pub open spec fn segments_meet_spec<F: Float>(
    a_0: Vector2<F>,
    a_1: Vector2<F>,
    b_0: Vector2<F>,
    b_1: Vector2<F>,
) -> bool {
    let o_1 = orientation_spec(a_0, a_1, b_0);
    let o_2 = orientation_spec(a_0, a_1, b_1);
    let o_3 = orientation_spec(b_0, b_1, a_0);
    let o_4 = orientation_spec(b_0, b_1, a_1);
    ||| o_1 != o_2 && o_3 != o_4
    ||| o_1 == Orientation::Collinear && spans_spec(a_0, a_1, b_0)
    ||| o_2 == Orientation::Collinear && spans_spec(a_0, a_1, b_1)
    ||| o_3 == Orientation::Collinear && spans_spec(b_0, b_1, a_0)
    ||| o_4 == Orientation::Collinear && spans_spec(b_0, b_1, a_1)
}

/// Whether the segment from `a` to `b` touches the rectangle: it meets one
/// of the four sides, or one of its ends lies inside.
pub open spec fn segment_hits_rect_spec<F: Float>(a: Vector2<F>, b: Vector2<F>, rect: Rect<F>)
    -> bool {
    let corner_12 = Vector2 { x: rect.p_1.x, y: rect.p_2.y };
    let corner_21 = Vector2 { x: rect.p_2.x, y: rect.p_1.y };
    ||| segments_meet_spec(a, b, rect.p_1, corner_12)
    ||| segments_meet_spec(a, b, rect.p_1, corner_21)
    ||| segments_meet_spec(a, b, rect.p_2, corner_12)
    ||| segments_meet_spec(a, b, rect.p_2, corner_21)
    ||| rect.contains_point_spec(a)
    ||| rect.contains_point_spec(b)
}

impl<F: Float> Segment<F> {
    pub closed spec fn start_spec(&self) -> Vector2<F> {
        self.0
    }

    pub closed spec fn end_spec(&self) -> Vector2<F> {
        self.1
    }

    pub fn new(p_1: Vector2<F>, p_2: Vector2<F>) -> (r: Self)
        ensures
            r.start_spec() == p_1,
            r.end_spec() == p_2,
    {
        Self(p_1, p_2)
    }

    pub fn contains_point_collinear(&self, p: &Vector2<F>) -> (r: bool)
        ensures
            r == spans_spec(self.start_spec(), self.end_spec(), *p),
    {
        le(p.x, max(self.0.x, self.1.x)) && le(min(self.0.x, self.1.x), p.x) && le(
            p.y,
            max(self.0.y, self.1.y),
        ) && le(min(self.0.y, self.1.y), p.y)
    }

    pub fn orientation(p_1: Vector2<F>, p_2: Vector2<F>, p_3: Vector2<F>) -> (r: Orientation)
        ensures
            r == orientation_spec(p_1, p_2, p_3),
    {
        let turn = p_2.y.sub(p_1.y).mul(p_3.x.sub(p_2.x)).sub(
            p_2.x.sub(p_1.x).mul(p_3.y.sub(p_2.y)),
        );
        if F::from_i32(0).lt(turn) {
            Orientation::Clockwise
        } else if turn.lt(F::from_i32(0)) {
            Orientation::Counterclockwise
        } else {
            Orientation::Collinear
        }
    }

    pub fn intersects(&self, other: &Segment<F>) -> (r: bool)
        ensures
            r == segments_meet_spec(
                self.start_spec(),
                self.end_spec(),
                other.start_spec(),
                other.end_spec(),
            ),
    {
        let o_1 = Self::orientation(self.0, self.1, other.0);
        let o_2 = Self::orientation(self.0, self.1, other.1);
        let o_3 = Self::orientation(other.0, other.1, self.0);
        let o_4 = Self::orientation(other.0, other.1, self.1);

        if o_1 != o_2 && o_3 != o_4 {
            return true;
        }
        if o_1 == Orientation::Collinear && self.contains_point_collinear(&other.0) {
            return true;
        }
        if o_2 == Orientation::Collinear && self.contains_point_collinear(&other.1) {
            return true;
        }
        if o_3 == Orientation::Collinear && other.contains_point_collinear(&self.0) {
            return true;
        }
        if o_4 == Orientation::Collinear && other.contains_point_collinear(&self.1) {
            return true;
        }
        false
    }

    pub fn collides_with_rect(&self, rect: &Rect<F>) -> (r: bool)
        ensures
            r == segment_hits_rect_spec(self.start_spec(), self.end_spec(), *rect),
    {
        let rect_side_1 = Segment::new(rect.p_1, Vector2 { x: rect.p_1.x, y: rect.p_2.y });
        let rect_side_2 = Segment::new(rect.p_1, Vector2 { x: rect.p_2.x, y: rect.p_1.y });
        let rect_side_3 = Segment::new(rect.p_2, Vector2 { x: rect.p_1.x, y: rect.p_2.y });
        let rect_side_4 = Segment::new(rect.p_2, Vector2 { x: rect.p_2.x, y: rect.p_1.y });

        let intersects_1 = self.intersects(&rect_side_1);
        let intersects_2 = self.intersects(&rect_side_2);
        let intersects_3 = self.intersects(&rect_side_3);
        let intersects_4 = self.intersects(&rect_side_4);
        let contains_1 = rect.contains_point(&self.0);
        let contains_2 = rect.contains_point(&self.1);

        intersects_1 || intersects_2 || intersects_3 || intersects_4 || contains_1 || contains_2
    }
}

} // verus!
