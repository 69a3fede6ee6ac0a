//! The state that each presentation keeps between two frames, and how a
//! frame's share of time moves it on. Drawing is left to the caller.

pub mod black_hole;
pub mod hodograph;
pub mod jelly;
pub mod kinematic_chain;
pub mod parametrizable_function;
pub mod quaternions;
pub mod spinning_top;
pub mod spring;
