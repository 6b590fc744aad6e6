use vstd::prelude::*;

verus! {

/// The phase of an election, which gates the operations that are legal.
#[derive(PartialEq, Eq, Structural, Clone, Copy, Debug)]
pub enum ElectionStage {
    Application,
    Voting,
    Closed,
}

} // verus!
