use vstd::prelude::*;

use crate::numerics::linalg::Vector2;
use crate::numerics::{le, le_spec, Float};

verus! {

/// A rectangle with sides along the axes, given by two opposite corners in
/// any order.
#[derive(Debug, Clone, Copy)]
pub struct Rect<F> {
    pub p_1: Vector2<F>,
    pub p_2: Vector2<F>,
}

/// Whether `c` lies between `a` and `b`, whichever of the two is the larger.
pub open spec fn between_spec<F: Float>(a: F, b: F, c: F) -> bool {
    (le_spec(a, c) && le_spec(c, b)) || (le_spec(b, c) && le_spec(c, a))
}

pub fn between<F: Float>(a: F, b: F, c: F) -> (r: bool)
    ensures
        r == between_spec(a, b, c),
{
    (le(a, c) && le(c, b)) || (le(b, c) && le(c, a))
}

impl<F: Float> Rect<F> {
    /// Whether `p` lies in the rectangle, its border included.
    pub open spec fn contains_point_spec(&self, p: Vector2<F>) -> bool {
        between_spec(self.p_1.x, self.p_2.x, p.x) && between_spec(self.p_1.y, self.p_2.y, p.y)
    }

    pub fn contains_point(&self, p: &Vector2<F>) -> (r: bool)
        ensures
            r == self.contains_point_spec(*p),
    {
        between(self.p_1.x, self.p_2.x, p.x) && between(self.p_1.y, self.p_2.y, p.y)
    }
}

} // verus!
