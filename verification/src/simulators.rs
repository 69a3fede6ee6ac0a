pub mod jelly;
pub mod kinematic_chain;
pub mod puma;
pub mod spinning_top;
pub mod spring;
