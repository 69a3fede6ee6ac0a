use vstd::prelude::*;

use crate::numerics::Float;

verus! {

/// A surface or curve given by its parameters: `IN_DIM` of them, for points
/// of `OUT_DIM` coordinates.
pub trait ParametricForm<F: Float, const IN_DIM: usize, const OUT_DIM: usize> {
    /// The lower and the upper bound of every parameter.
    spec fn bounds_spec(&self) -> [(F, F); IN_DIM];

    fn bounds(&self) -> (r: [(F, F); IN_DIM])
        ensures
            r == self.bounds_spec(),
    ;

    /// Whether the form closes on itself along parameter `dim`.
    spec fn wrapped_spec(&self, dim: usize) -> bool;

    fn wrapped(&self, dim: usize) -> (r: bool)
        ensures
            r == self.wrapped_spec(dim),
    ;

    /// Whether `r` is a point that the form may give at the parameters `vec`.
    spec fn value_rel(&self, vec: [F; IN_DIM], r: [F; OUT_DIM]) -> bool;

    fn value(&self, vec: &[F; IN_DIM]) -> (r: [F; OUT_DIM])
        ensures
            self.value_rel(*vec, r),
    ;

    /// Whether `r` is a normal that the form may give at the parameters `vec`.
    spec fn normal_rel(&self, vec: [F; 2], r: [F; OUT_DIM]) -> bool;

    fn normal(&self, vec: &[F; 2]) -> (r: [F; OUT_DIM])
        ensures
            self.normal_rel(*vec, r),
    ;
}

} // verus!
