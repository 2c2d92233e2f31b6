//! A snapshot of a running game.

use crate::model::nation::NationDetails;
use vstd::prelude::*;

verus! {

/// What the host reports of a game at one moment. It is fetched anew for every question
/// and never stored.
///
/// A `turn` of -1 means that the game waits for pretenders and has no turn yet;
/// `turn_timer` is the time left in the turn, in milliseconds.
#[derive(Debug, Clone, PartialEq)]
pub struct GameData {
    pub game_name: String,
    pub nations: Vec<NationDetails>,
    pub turn: i32,
    pub turn_timer: i32,
}

} // verus!
