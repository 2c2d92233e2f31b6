//! The life of a server: a lobby takes registrations until it is started, and a started
//! game takes them from then on.
//!
//! A lobby is started once, against a host, and keeps its lobby record when it is. No
//! function here makes a lobby of a started game.

use crate::error::{Scope, ServerError};
use crate::model::enums::Nations;
use crate::model::game_data::GameData;
use crate::model::game_server::{GameServerState, LobbyState, StartedState, PRETENDER_PHASE};
use crate::model::nation::Nation;
use crate::model::player::Player;
use crate::resolver::{
    get_nation_for_lobby, get_nation_for_started_server, reports_ambiguous, reports_not_found,
    resolution_in_game, resolution_in_lobby, Resolution,
};
use crate::roster::{find_player, player_of, Registration};
use crate::server::ServerConnection;
use either::Either;
use serenity::model::id::UserId;
use vstd::prelude::*;

verus! {

/// What comes of starting a lobby at `address`, given what came of asking the host there
/// for a snapshot.
///
/// Without a snapshot the lobby is not started. Nor is it where the host reports more
/// nations than the lobby has slots. Otherwise the server becomes a started game at that
/// address, at the turn that the host reports, and keeps its lobby record.
pub open spec fn start_outcome(
    lobby_state: LobbyState,
    address: String,
    fetched: Result<GameData, String>,
) -> Result<GameServerState, ServerError> {
    match fetched {
        Err(message) => Err(ServerError::RemoteFetchFailed(message)),
        Ok(game_data) => if game_data.nations@.len() > lobby_state.player_count {
            Err(
                ServerError::CapacityExceeded {
                    nations: game_data.nations@.len() as usize,
                    player_count: lobby_state.player_count,
                },
            )
        } else {
            Ok(
                GameServerState::Started(
                    StartedState { address, last_seen_turn: game_data.turn },
                    Some(lobby_state),
                ),
            )
        },
    }
}

/// The player that a registration makes of a user: one who is told of new turns.
pub open spec fn new_player(user_id: UserId) -> Player {
    Player { discord_user_id: user_id, turn_notifications: true }
}

/// That `result` is what comes of a user's asking for a nation in a lobby.
///
/// A full lobby takes nobody. In a lobby with a free slot the nation is looked for among
/// the catalog's nations of the lobby's era, and is refused where a registration holds
/// it already.
pub open spec fn registers_in_lobby(
    result: Result<(Player, Nation), ServerError>,
    user_id: UserId,
    nation_specifier: Either<&str, u32>,
    lobby_state: LobbyState,
    registered: Seq<Registration>,
    catalog: Seq<Nation>,
) -> bool {
    if registered.len() >= lobby_state.player_count {
        result == Err::<(Player, Nation), ServerError>(
            ServerError::LobbyFull { player_count: lobby_state.player_count },
        )
    } else {
        match resolution_in_lobby(nation_specifier, lobby_state.era, catalog) {
            Resolution::Found(nation) => if player_of(registered, nation.id) is Some {
                result == Err::<(Player, Nation), ServerError>(ServerError::NationTaken { nation })
            } else {
                result == Ok::<(Player, Nation), ServerError>((new_player(user_id), nation))
            },
            Resolution::NotFound => result matches Err(error) && reports_not_found(
                error,
                nation_specifier,
                Scope::Lobby(lobby_state.era),
            ),
            Resolution::Ambiguous => result matches Err(error) && reports_ambiguous(
                error,
                nation_specifier,
            ),
        }
    }
}

/// That `result` is what comes of a user's asking for a nation in a started game, given
/// what came of asking the host for a snapshot.
///
/// The nation is looked for among the nations that the host reports. Whether the nation
/// is already played, or registered for, does not matter.
pub open spec fn registers_in_game(
    result: Result<(Player, Nation), ServerError>,
    user_id: UserId,
    nation_specifier: Either<&str, u32>,
    fetched: Result<GameData, String>,
) -> bool {
    match fetched {
        Err(message) => result == Err::<(Player, Nation), ServerError>(
            ServerError::RemoteFetchFailed(message),
        ),
        Ok(game_data) => match resolution_in_game(nation_specifier, game_data.nations@) {
            Resolution::Found(details) => result == Ok::<(Player, Nation), ServerError>(
                (new_player(user_id), details.nation),
            ),
            Resolution::NotFound => result matches Err(error) && reports_not_found(
                error,
                nation_specifier,
                Scope::Started { pre_game: game_data.turn == PRETENDER_PHASE },
            ),
            Resolution::Ambiguous => result matches Err(error) && reports_ambiguous(
                error,
                nation_specifier,
            ),
        },
    }
}

/// Whether the host reports more nations than a lobby of `player_count` slots can hold.
fn exceeds_capacity(nations: usize, player_count: i32) -> (exceeds: bool)
    ensures
        exceeds == (nations > player_count),
{
    if player_count < 0 {
        true
    } else {
        nations > player_count as usize
    }
}

/// Starts a lobby at `address`, given what came of asking the host there for a snapshot.
pub fn start_lobby(
    lobby_state: LobbyState,
    address: String,
    fetched: Result<GameData, String>,
) -> (result: Result<GameServerState, ServerError>)
    ensures
        result == start_outcome(lobby_state, address, fetched),
{
    let game_data = match fetched {
        Ok(game_data) => game_data,
        Err(message) => {
            return Err(ServerError::RemoteFetchFailed(message));
        },
    };
    if exceeds_capacity(game_data.nations.len(), lobby_state.player_count) {
        return Err(
            ServerError::CapacityExceeded {
                nations: game_data.nations.len(),
                player_count: lobby_state.player_count,
            },
        );
    }
    let started_state = StartedState { address, last_seen_turn: game_data.turn };
    Ok(GameServerState::Started(started_state, Some(lobby_state)))
}

/// Starts the server in `state` at `address`.
///
/// A started game is not started again, and its host is not asked. For a lobby the host
/// at `address` is asked for a snapshot; what it answers is not known beforehand, and the
/// result is what `start_lobby` makes of an answer of the host at that address.
pub fn start<C: ServerConnection>(state: GameServerState, address: String) -> (result: Result<
    GameServerState,
    ServerError,
>)
    ensures
        match state {
            GameServerState::Started(_, _) => result == Err::<GameServerState, ServerError>(
                ServerError::AlreadyStarted,
            ),
            GameServerState::Lobby(lobby_state) => exists|fetched: Result<GameData, String>|
                C::answers(address@, fetched) && result == #[trigger] start_outcome(
                    lobby_state,
                    address,
                    fetched,
                ),
        },
{
    match state {
        GameServerState::Started(_, _) => Err(ServerError::AlreadyStarted),
        GameServerState::Lobby(lobby_state) => {
            let fetched = C::get_game_data(address.as_str());
            start_lobby(lobby_state, address, fetched)
        },
    }
}

/// Registers a user for a nation in a lobby. The registration that is to be stored is
/// returned: the player, and the nation that the player now holds.
pub fn register_in_lobby(
    user_id: UserId,
    nation_specifier: Either<&str, u32>,
    lobby_state: &LobbyState,
    registered: &[Registration],
    catalog: &Nations,
) -> (result: Result<(Player, Nation), ServerError>)
    ensures
        registers_in_lobby(
            result,
            user_id,
            nation_specifier,
            *lobby_state,
            registered@,
            catalog@,
        ),
{
    if !fills_lobby(registered.len(), lobby_state.player_count) {
        let nation = match get_nation_for_lobby(nation_specifier, lobby_state.era, catalog) {
            Ok(nation) => nation,
            Err(error) => {
                return Err(error);
            },
        };
        if find_player(registered, nation.id).is_some() {
            return Err(ServerError::NationTaken { nation });
        }
        let player = Player { discord_user_id: user_id, turn_notifications: true };
        Ok((player, nation))
    } else {
        Err(ServerError::LobbyFull { player_count: lobby_state.player_count })
    }
}

/// Whether `registered` players fill a lobby of `player_count` slots.
fn fills_lobby(registered: usize, player_count: i32) -> (full: bool)
    ensures
        full == (registered >= player_count),
{
    if player_count <= 0 {
        true
    } else {
        registered >= player_count as usize
    }
}

/// Registers a user for a nation in a started game, given what came of asking the host
/// for a snapshot. The registration that is to be stored is returned.
pub fn register_in_game(
    user_id: UserId,
    nation_specifier: Either<&str, u32>,
    fetched: Result<GameData, String>,
) -> (result: Result<(Player, Nation), ServerError>)
    ensures
        registers_in_game(result, user_id, nation_specifier, fetched),
{
    let data = match fetched {
        Ok(data) => data,
        Err(message) => {
            return Err(ServerError::RemoteFetchFailed(message));
        },
    };
    let nation = match get_nation_for_started_server(
        nation_specifier,
        data.nations.as_slice(),
        data.turn == PRETENDER_PHASE,
    ) {
        Ok(details) => details.nation,
        Err(error) => {
            return Err(error);
        },
    };
    let player = Player { discord_user_id: user_id, turn_notifications: true };
    Ok((player, nation))
}

/// Registers a user for a nation on the server in `state`. The registration that is to
/// be stored is returned.
///
/// In a lobby nothing is asked of a host. For a started game the host at the game's
/// address is asked for a snapshot; what it answers is not known beforehand, and the
/// result is what `register_in_game` makes of an answer of the host at that address.
pub fn register_player_helper<C: ServerConnection>(
    user_id: UserId,
    nation_specifier: Either<&str, u32>,
    state: &GameServerState,
    registered: &[Registration],
    catalog: &Nations,
) -> (result: Result<(Player, Nation), ServerError>)
    ensures
        match *state {
            GameServerState::Lobby(lobby_state) => registers_in_lobby(
                result,
                user_id,
                nation_specifier,
                lobby_state,
                registered@,
                catalog@,
            ),
            GameServerState::Started(started_state, _) => exists|
                fetched: Result<GameData, String>,
            |
                C::answers(started_state.address@, fetched) && #[trigger] registers_in_game(
                    result,
                    user_id,
                    nation_specifier,
                    fetched,
                ),
        },
{
    match state {
        GameServerState::Lobby(lobby_state) => register_in_lobby(
            user_id,
            nation_specifier,
            lobby_state,
            registered,
            catalog,
        ),
        GameServerState::Started(started_state, _) => {
            let fetched = C::get_game_data(started_state.address.as_str());
            register_in_game(user_id, nation_specifier, fetched)
        },
    }
}

/// A lobby is started exactly where its host can be reached and reports no more nations
/// than the lobby has slots; a host that reports as many nations as there are slots
/// starts it.
pub proof fn lemma_start_respects_capacity(
    lobby_state: LobbyState,
    address: String,
    game_data: GameData,
)
    ensures
        start_outcome(lobby_state, address, Ok(game_data)) is Ok <==> game_data.nations@.len()
            <= lobby_state.player_count,
        game_data.nations@.len() == lobby_state.player_count ==> start_outcome(
            lobby_state,
            address,
            Ok(game_data),
        ) is Ok,
        forall|message: String| start_outcome(lobby_state, address, Err(message)) is Err,
{
}

/// Starting leads one way: what a lobby becomes is a started game, at the address it was
/// started at and the turn that the host reported, with the lobby's own record kept.
pub proof fn lemma_start_keeps_the_lobby(
    lobby_state: LobbyState,
    address: String,
    fetched: Result<GameData, String>,
)
    ensures
        start_outcome(lobby_state, address, fetched) matches Ok(next) ==> {
            &&& fetched matches Ok(game_data)
            &&& next == GameServerState::Started(
                StartedState { address, last_seen_turn: game_data.turn },
                Some(lobby_state),
            )
        },
{
}

/// A registration never over-fills a lobby and never takes a nation twice: where one is
/// accepted, a slot was free, the nation belongs to the lobby's era, and no registration
/// held it.
pub proof fn lemma_lobby_registration_is_sound(
    result: Result<(Player, Nation), ServerError>,
    user_id: UserId,
    nation_specifier: Either<&str, u32>,
    lobby_state: LobbyState,
    registered: Seq<Registration>,
    catalog: Seq<Nation>,
)
    requires
        registers_in_lobby(result, user_id, nation_specifier, lobby_state, registered, catalog),
    ensures
        result matches Ok(registration) ==> {
            &&& registered.len() < lobby_state.player_count
            &&& registration.1.era == lobby_state.era
            &&& catalog.contains(registration.1)
            &&& player_of(registered, registration.1.id) is None
        },
{
    crate::resolver::lemma_lobby_resolution_in_scope(nation_specifier, lobby_state.era, catalog);
}

} // verus!
