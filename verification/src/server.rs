//! The connection to the game host.

use crate::model::game_data::GameData;
use vstd::prelude::*;

verus! {

/// A way to ask a game host for the state of its game. The library decides what to do
/// with a snapshot, or with the failure to get one; how the host is reached is the
/// implementor's business.
///
/// An implementor says with `answers` what its host may answer at an address, and its
/// `get_game_data` keeps to that; one that says nothing allows every answer. The
/// library's functions that ask a host say of their results that they were made from
/// such an answer, to the address that was asked.
pub trait ServerConnection {
    /// Whether `fetched` is something that asking the host at `server_address` may come
    /// to.
    open spec fn answers(server_address: Seq<char>, fetched: Result<GameData, String>) -> bool {
        true
    }

    /// Fetches a snapshot of the game that the host at `server_address` runs. The error
    /// is the connection's own account of what went wrong.
    fn get_game_data(server_address: &str) -> (fetched: Result<GameData, String>)
        ensures
            Self::answers(server_address@, fetched),
    ;
}

} // verus!
