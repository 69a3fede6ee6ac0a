use vstd::prelude::*;

verus! {

/// Sets up the view of an arm of two links among obstacles.
#[derive(Debug)]
pub struct KinematicChainBuilder {}

impl KinematicChainBuilder {
    pub fn new() -> (r: Self)
        ensures
            r == (KinematicChainBuilder {  }),
    {
        KinematicChainBuilder {  }
    }

    /// The line that the set-up panel shows: none.
    pub fn label(&self) -> (r: &'static str)
        ensures
            r@ == ""@,
    {
        ""
    }
}

impl Default for KinematicChainBuilder {
    fn default() -> (r: Self)
        ensures
            r == (KinematicChainBuilder {  }),
    {
        KinematicChainBuilder {  }
    }
}

} // verus!
