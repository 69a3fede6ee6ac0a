//! The numerical core of a set of physics demonstrations: fixed-step
//! integration of ordinary differential equations, a lattice of point masses
//! joined by springs, a rigid cube spinning on one of its corners, rotations
//! and their interpolation, arms of links with the search for a way between
//! obstacles, and the models and pictures that are drawn of them.
//!
//! All arithmetic on scalars goes through [`numerics::Float`], so that the
//! scalar type is supplied by the caller and every routine is specified by
//! the exact tree of scalar operations it performs. What does not depend on
//! scalars, such as the search in the configuration space and the painting
//! of patches, is specified by what it computes.

pub mod numerics;
pub mod physics;
pub mod presenters;
pub mod render;
pub mod simulators;
