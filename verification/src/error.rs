//! Why an operation was refused.

use crate::model::enums::Era;
use crate::model::nation::Nation;
use either::Either;
use vstd::prelude::*;

verus! {

/// `either::Either`, an enum of two variants, `Left` and `Right`, each with one value.
/// The declaration lets Verus read the enum as the crate defines it; nothing is assumed
/// of it. The library asks for a nation by the start of its name (left) or by its id
/// (right), and shows a roster line's holder as a player (left) or a status (right).
#[verifier::external_type_specification]
#[verifier::reject_recursive_types(L)]
#[verifier::reject_recursive_types(R)]
pub struct ExEither<L, R>(Either<L, R>);

/// Where a nation was looked for.
#[derive(PartialEq, Eq, Structural, Clone, Copy, Debug)]
pub enum Scope {
    /// Among the catalog's nations of a lobby's era.
    Lobby(Era),
    /// Among the nations that the host reports of a started game; `pre_game` says that
    /// the game still waits for pretenders.
    Started { pre_game: bool },
}

/// The reasons for which the library refuses an operation. Each carries what a caller
/// needs to tell the user what went wrong.
#[derive(Debug, PartialEq)]
pub enum ServerError {
    /// What was asked for names no nation in the scope.
    NotFound { specifier: Either<String, u32>, scope: Scope },
    /// The start of a name fits more than one nation in the scope.
    Ambiguous { name_prefix: String },
    /// The game was started before.
    AlreadyStarted,
    /// Every slot of the lobby is taken.
    LobbyFull { player_count: i32 },
    /// Another registration holds the nation.
    NationTaken { nation: Nation },
    /// The host reports more nations than the lobby has slots.
    CapacityExceeded { nations: usize, player_count: i32 },
    /// A registration names a nation that the catalog does not list.
    UnknownNation { nation_id: u32 },
    /// The host's snapshot could not be had; the text is the host connection's own.
    RemoteFetchFailed(String),
}

impl ServerError {
    /// That a nation was not found by the start of its name.
    pub open spec fn is_name_not_found(self, typed: Seq<char>, scope: Scope) -> bool {
        self matches ServerError::NotFound { specifier: Either::Left(text), scope: s }
            && text@ == typed && s == scope
    }

    /// That a nation was not found by its id.
    pub open spec fn is_id_not_found(self, id: u32, scope: Scope) -> bool {
        self matches ServerError::NotFound { specifier: Either::Right(i), scope: s }
            && i == id && s == scope
    }

    /// That the start of a name fits several nations.
    pub open spec fn is_ambiguous(self, typed: Seq<char>) -> bool {
        self matches ServerError::Ambiguous { name_prefix } && name_prefix@ == typed
    }
}

} // verus!
