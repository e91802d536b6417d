use vstd::prelude::*;

verus! {

/// Enemies knocked out so far.
#[derive(Clone, Copy, Debug, PartialEq, Eq, Structural)]
pub struct Score(pub i32);

impl Default for Score {
    fn default() -> (s: Self)
        ensures
            s == Score(0),
    {
        Score(0)
    }
}

} // verus!
