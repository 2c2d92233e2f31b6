//! Players, known by their identity on the chat platform.

use serenity::model::id::UserId;
use vstd::prelude::*;

verus! {

/// `serenity::model::id::UserId`, the chat platform's identifier of a user. The library
/// hands such identifiers on and never looks inside one.
#[verifier::external_type_specification]
#[verifier::external_body]
pub struct ExUserId(UserId);

/// `UserId` is `Copy`, and its `clone` returns the identifier it was given.
pub assume_specification[ <UserId as Clone>::clone ](id: &UserId) -> (copy: UserId)
    ensures
        copy == *id,
;

/// Someone who signed up for a game.
#[derive(Debug, Clone, Copy, PartialEq)]
pub struct Player {
    pub discord_user_id: UserId,
    pub turn_notifications: bool,
}

} // verus!
