//! Who controls a nation in a running game.

use vstd::prelude::*;

verus! {

/// How the host reports a nation's slot in a running game.
#[derive(PartialEq, Eq, Structural, Clone, Copy, Debug, Hash)]
pub enum NationStatus {
    Human,
    AI,
    Independent,
    Closed,
    DefeatedThisTurn,
    Defeated,
}

impl NationStatus {
    /// Whether a person plays the nation.
    pub open spec fn spec_is_human(self) -> bool {
        self == NationStatus::Human
    }

    /// Whether a person plays the nation.
    #[verifier::when_used_as_spec(spec_is_human)]
    pub fn is_human(self) -> (human: bool)
        ensures
            human == self.spec_is_human(),
    {
        match self {
            NationStatus::Human => true,
            _ => false,
        }
    }
}

} // verus!
