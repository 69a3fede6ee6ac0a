use vstd::prelude::*;

use crate::numerics::linalg::Matrix3;
use crate::numerics::Float;

verus! {

/// An inertia tensor together with its inverse, computed once.
pub struct Inertia<F> {
    matrix: Matrix3<F>,
    inverse: Matrix3<F>,
}

impl<F: Float> Inertia<F> {
    /// The tensor.
    pub closed spec fn matrix_spec(&self) -> Matrix3<F> {
        self.matrix
    }

    /// The matrix that is held as the tensor's inverse.
    pub closed spec fn inverse_matrix_spec(&self) -> Matrix3<F> {
        self.inverse
    }

    /// The tensor `matrix` with its inverse. A tensor whose determinant is
    /// zero describes no body and is not accepted: test
    /// [`Matrix3::invertible`] first.
    pub fn new(matrix: Matrix3<F>) -> (r: Self)
        requires
            matrix.invertible_spec(),
        ensures
            r.matrix_spec() == matrix,
            r.inverse_matrix_spec() == matrix.inverse_spec(),
    {
        let inverse = match matrix.try_inverse() {
            Some(inverse) => inverse,
            None => matrix,
        };
        Self { inverse, matrix }
    }

    /// The tensor of a body that resists every turn alike: the identity,
    /// which is its own inverse.
    pub fn unit() -> (r: Self)
        ensures
            r.matrix_spec() == Matrix3::<F>::identity_spec(),
            r.inverse_matrix_spec() == Matrix3::<F>::identity_spec(),
    {
        Self { matrix: Matrix3::identity(), inverse: Matrix3::identity() }
    }

    pub fn matrix(&self) -> (r: &Matrix3<F>)
        ensures
            *r == self.matrix_spec(),
    {
        &self.matrix
    }

    pub fn inverse_matrix(&self) -> (r: &Matrix3<F>)
        ensures
            *r == self.inverse_matrix_spec(),
    {
        &self.inverse
    }
}

} // verus!
