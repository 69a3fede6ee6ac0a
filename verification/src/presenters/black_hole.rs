use vstd::prelude::*;

verus! {

/// Sets up the view of a black hole in front of a sky.
#[derive(Debug)]
pub struct BlackHoleBuilder {}

impl BlackHoleBuilder {
    pub fn new() -> (r: Self)
        ensures
            r == (BlackHoleBuilder {  }),
    {
        BlackHoleBuilder {  }
    }

    /// The line that the set-up panel shows.
    pub fn label(&self) -> (r: &'static str)
        ensures
            r@ == "Black Hole"@,
    {
        "Black Hole"
    }
}

impl Default for BlackHoleBuilder {
    fn default() -> (r: Self)
        ensures
            r == (BlackHoleBuilder {  }),
    {
        BlackHoleBuilder {  }
    }
}

} // verus!
