//! The stored record of a server's lifecycle.

use crate::model::enums::Era;
use serenity::model::id::UserId;
use vstd::prelude::*;

verus! {

/// The turn number that marks a started game which still waits for pretenders.
pub const PRETENDER_PHASE: i32 = -1;

/// A lobby: players sign up until it is started.
#[derive(Debug, Clone, PartialEq)]
pub struct LobbyState {
    pub era: Era,
    pub player_count: i32,
    pub owner: UserId,
    pub description: Option<String>,
}

/// A game that runs on a host.
#[derive(Debug, Clone, PartialEq)]
pub struct StartedState {
    pub address: String,
    pub last_seen_turn: i32,
}

/// The lifecycle of a server. A lobby can be started, and keeps its lobby record when it
/// is; a started game never becomes a lobby again.
#[derive(Debug, Clone, PartialEq)]
pub enum GameServerState {
    Lobby(LobbyState),
    Started(StartedState, Option<LobbyState>),
}

} // verus!
