//! The epochs of the game.

use vstd::prelude::*;

verus! {

/// The epoch a game is set in. A nation's id is only meaningful together with its era.
#[derive(PartialEq, Eq, Structural, Clone, Copy, Debug, Hash)]
pub enum Era {
    Early,
    Middle,
    Late,
}

} // verus!
