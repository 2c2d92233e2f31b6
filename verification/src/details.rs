//! What there is to show of a server: its name, its phase, its roster, and, while the
//! lobby's record is kept, its owner and description.
//!
//! Which roster a server has depends on its state. A lobby lists its players and its free
//! slots. A started game is asked for a snapshot. Where the lobby's record is kept and no
//! turn has been seen yet, the game waits for pretenders, and the roster says who has
//! uploaded one; otherwise the game is in progress, and the roster says whose turn is in.

use crate::error::ServerError;
use crate::model::enums::{Era, NationStatus, Nations, SubmissionStatus};
use crate::model::game_data::GameData;
use crate::model::game_server::{GameServerState, LobbyState, StartedState, PRETENDER_PHASE};
use crate::model::nation::Nation;
use crate::name_order::{in_name_order, sort_by_name};
use crate::roster::{
    lemma_uploading_roster_lists_every_reported_nation, mode_of, player_of, reconcile,
    reported_entry, roster_of, started_roster, Registration, RosterEntry, RosterMode,
};
use either::Either;
use crate::server::ServerConnection;
use serenity::model::id::UserId;
use vstd::prelude::*;

verus! {

/// The number of milliseconds in a minute.
pub const MILLIS_PER_MINUTE: i32 = 60000;

/// The phase that a server is shown in.
#[derive(PartialEq, Eq, Structural, Clone, Copy, Debug)]
pub enum DetailsKind {
    /// A lobby for a game of `era`.
    Lobby { era: Era },
    /// A started game that waits for pretenders.
    Uploading,
    /// A game in progress, with the time that is left in its turn.
    Started { turn: i32, hours_remaining: i32, mins_remaining: i32 },
}

/// What there is to show of a server.
///
/// `name` is the alias of a lobby and the game's own name once it is started. `address`
/// is that of the host, which a lobby does not have. `owner` and `description` come from
/// the lobby's record; a description without text is left out.
#[derive(Debug, PartialEq)]
pub struct ServerDetails {
    pub name: String,
    pub address: Option<String>,
    pub kind: DetailsKind,
    pub roster: Vec<RosterEntry>,
    pub owner: Option<UserId>,
    pub description: Option<String>,
}

/// The contents of a `ServerDetails`.
pub struct ServerDetailsView {
    pub name: Seq<char>,
    pub address: Option<Seq<char>>,
    pub kind: DetailsKind,
    pub roster: Seq<RosterEntry>,
    pub owner: Option<UserId>,
    pub description: Option<Seq<char>>,
}

/// The characters of a text that may be absent.
pub open spec fn text_of(text: Option<String>) -> Option<Seq<char>> {
    match text {
        Some(text) => Some(text@),
        None => None,
    }
}

impl View for ServerDetails {
    type V = ServerDetailsView;

    open spec fn view(&self) -> ServerDetailsView {
        ServerDetailsView {
            name: self.name@,
            address: text_of(self.address),
            kind: self.kind,
            roster: self.roster@,
            owner: self.owner,
            description: text_of(self.description),
        }
    }
}

/// The whole part of `a / b`, for a positive `b`: what is left of the quotient when its
/// fraction is dropped.
pub open spec fn whole_quotient(a: int, b: int) -> int {
    if a >= 0 {
        a / b
    } else {
        -((-a) / b)
    }
}

/// The whole hours in a timer of `turn_timer` milliseconds.
pub open spec fn hours_in(turn_timer: int) -> int {
    whole_quotient(whole_quotient(turn_timer, 60000), 60)
}

/// The whole minutes that a timer of `turn_timer` milliseconds holds beyond its whole
/// hours.
pub open spec fn minutes_in(turn_timer: int) -> int {
    whole_quotient(turn_timer, 60000) - 60 * hours_in(turn_timer)
}

/// The description that is shown: the lobby's, unless it has no text.
pub open spec fn shown_description(description: Option<String>) -> Option<Seq<char>> {
    match description {
        Some(text) => if text@.len() > 0 {
            Some(text@)
        } else {
            None
        },
        None => None,
    }
}

/// What is shown of a lobby, or why it cannot be shown.
pub open spec fn lobby_outcome(
    lobby_state: LobbyState,
    registered: Seq<Registration>,
    catalog: Seq<Nation>,
    alias: Seq<char>,
) -> Result<ServerDetailsView, ServerError> {
    match roster_of(
        RosterMode::Lobby { player_count: lobby_state.player_count },
        registered,
        Seq::empty(),
        catalog,
    ) {
        Ok(roster) => Ok(
            ServerDetailsView {
                name: alias,
                address: None,
                kind: DetailsKind::Lobby { era: lobby_state.era },
                roster,
                owner: Some(lobby_state.owner),
                description: shown_description(lobby_state.description),
            },
        ),
        Err(error) => Err(error),
    }
}

/// What is shown of a started game that waits for pretenders, or why it cannot be shown.
pub open spec fn uploading_outcome(
    started_state: StartedState,
    lobby_state: LobbyState,
    game_data: GameData,
    registered: Seq<Registration>,
    catalog: Seq<Nation>,
) -> Result<ServerDetailsView, ServerError> {
    match roster_of(RosterMode::Uploading, registered, game_data.nations@, catalog) {
        Ok(roster) => Ok(
            ServerDetailsView {
                name: game_data.game_name@,
                address: Some(started_state.address@),
                kind: DetailsKind::Uploading,
                roster,
                owner: Some(lobby_state.owner),
                description: shown_description(lobby_state.description),
            },
        ),
        Err(error) => Err(error),
    }
}

/// The phase of a game in progress, as a snapshot tells it.
pub open spec fn progress_of(game_data: GameData) -> DetailsKind {
    DetailsKind::Started {
        turn: game_data.turn,
        hours_remaining: hours_in(game_data.turn_timer as int) as i32,
        mins_remaining: minutes_in(game_data.turn_timer as int) as i32,
    }
}

/// What is shown of a game in progress whose lobby record is kept, or why it cannot be
/// shown.
pub open spec fn started_from_lobby_outcome(
    started_state: StartedState,
    lobby_state: LobbyState,
    game_data: GameData,
    registered: Seq<Registration>,
    catalog: Seq<Nation>,
) -> Result<ServerDetailsView, ServerError> {
    match roster_of(RosterMode::Started, registered, game_data.nations@, catalog) {
        Ok(roster) => Ok(
            ServerDetailsView {
                name: game_data.game_name@,
                address: Some(started_state.address@),
                kind: progress_of(game_data),
                roster,
                owner: Some(lobby_state.owner),
                description: shown_description(lobby_state.description),
            },
        ),
        Err(error) => Err(error),
    }
}

/// What is shown of a started game of which no lobby record is kept. Its roster is that
/// of `RosterMode::StartedWithoutLobby`, which no catalog has a part in.
pub open spec fn started_view(
    started_state: StartedState,
    game_data: GameData,
    registered: Seq<Registration>,
) -> ServerDetailsView {
    ServerDetailsView {
        name: game_data.game_name@,
        address: Some(started_state.address@),
        kind: progress_of(game_data),
        roster: in_name_order(game_data.nations@).map_values(reported_entry(registered)),
        owner: None,
        description: None,
    }
}

/// What is shown of a started game, given what came of asking its host for a snapshot.
pub open spec fn started_outcome(
    started_state: StartedState,
    lobby: Option<LobbyState>,
    fetched: Result<GameData, String>,
    registered: Seq<Registration>,
    catalog: Seq<Nation>,
) -> Result<ServerDetailsView, ServerError> {
    match fetched {
        Err(message) => Err(ServerError::RemoteFetchFailed(message)),
        Ok(game_data) => match lobby {
            None => Ok(started_view(started_state, game_data, registered)),
            Some(lobby_state) => if started_state.last_seen_turn == PRETENDER_PHASE {
                uploading_outcome(started_state, lobby_state, game_data, registered, catalog)
            } else {
                started_from_lobby_outcome(
                    started_state,
                    lobby_state,
                    game_data,
                    registered,
                    catalog,
                )
            },
        },
    }
}

/// That `result` is what `outcome` says: the details with these contents, or this error.
pub open spec fn agrees(
    result: Result<ServerDetails, ServerError>,
    outcome: Result<ServerDetailsView, ServerError>,
) -> bool {
    match result {
        Ok(details) => outcome == Ok::<ServerDetailsView, ServerError>(details@),
        Err(error) => outcome == Err::<ServerDetailsView, ServerError>(error),
    }
}

/// Splits the time left in a turn, given in milliseconds, into whole hours and the whole
/// minutes beyond them. Nothing is rounded up.
pub fn time_remaining(turn_timer: i32) -> (left: (i32, i32))
    ensures
        left.0 == hours_in(turn_timer as int),
        left.1 == minutes_in(turn_timer as int),
        turn_timer >= 0 ==> left.0 == turn_timer / 60000 / 60 && left.1 == (turn_timer / 60000)
            % 60,
{
    let total_mins_remaining = turn_timer / MILLIS_PER_MINUTE;
    let hours_remaining = total_mins_remaining / 60;
    let mins_remaining = total_mins_remaining - hours_remaining * 60;
    (hours_remaining, mins_remaining)
}

/// Keeps a description that has text, and drops one that has none.
fn description_to_show(description: Option<String>) -> (shown: Option<String>)
    ensures
        text_of(shown) == shown_description(description),
{
    match description {
        Some(text) => {
            if text.as_str().is_empty() {
                None
            } else {
                Some(text)
            }
        },
        None => None,
    }
}

/// Describes a lobby: its players with their nations, in the order in which they
/// registered, and its free slots.
///
/// Fails where a player registered for a nation that the catalog does not list.
pub fn lobby_details(
    lobby_state: LobbyState,
    registered: &[Registration],
    catalog: &Nations,
    alias: &str,
) -> (result: Result<ServerDetails, ServerError>)
    ensures
        agrees(result, lobby_outcome(lobby_state, registered@, catalog@, alias@)),
        result matches Ok(details) ==> (registered@.len() <= lobby_state.player_count
            ==> details.roster@.len() == lobby_state.player_count),
{
    let mode = RosterMode::Lobby { player_count: lobby_state.player_count };
    let roster = match reconcile(mode, registered, Vec::new(), catalog) {
        Ok(roster) => roster,
        Err(error) => {
            return Err(error);
        },
    };
    let LobbyState { era, player_count: _, owner, description } = lobby_state;
    Ok(
        ServerDetails {
            name: alias.to_owned(),
            address: None,
            kind: DetailsKind::Lobby { era },
            roster,
            owner: Some(owner),
            description: description_to_show(description),
        },
    )
}

/// Describes a started game that waits for pretenders, from a snapshot of it. The call
/// never fails: a nation for which nobody registered is shown as played by a person.
pub fn uploading_from_lobby_details(
    started_state: StartedState,
    lobby_state: LobbyState,
    game_data: GameData,
    registered: &[Registration],
    catalog: &Nations,
) -> (result: Result<ServerDetails, ServerError>)
    ensures
        agrees(
            result,
            uploading_outcome(started_state, lobby_state, game_data, registered@, catalog@),
        ),
        result is Ok,
{
    let GameData { game_name, nations, turn: _, turn_timer: _ } = game_data;
    let roster = match reconcile(RosterMode::Uploading, registered, nations, catalog) {
        Ok(roster) => roster,
        Err(error) => {
            return Err(error);
        },
    };
    let StartedState { address, last_seen_turn: _ } = started_state;
    let LobbyState { era: _, player_count: _, owner, description } = lobby_state;
    Ok(
        ServerDetails {
            name: game_name,
            address: Some(address),
            kind: DetailsKind::Uploading,
            roster,
            owner: Some(owner),
            description: description_to_show(description),
        },
    )
}

/// Describes a game in progress whose lobby record is kept, from a snapshot of it.
///
/// Fails where a player whose nation the host does not report registered for a nation
/// that the catalog does not list.
pub fn started_from_lobby_details(
    started_state: StartedState,
    lobby_state: LobbyState,
    game_data: GameData,
    registered: &[Registration],
    catalog: &Nations,
) -> (result: Result<ServerDetails, ServerError>)
    ensures
        agrees(
            result,
            started_from_lobby_outcome(
                started_state,
                lobby_state,
                game_data,
                registered@,
                catalog@,
            ),
        ),
{
    let GameData { game_name, nations, turn, turn_timer } = game_data;
    let roster = match reconcile(RosterMode::Started, registered, nations, catalog) {
        Ok(roster) => roster,
        Err(error) => {
            return Err(error);
        },
    };
    let (hours_remaining, mins_remaining) = time_remaining(turn_timer);
    let StartedState { address, last_seen_turn: _ } = started_state;
    let LobbyState { era: _, player_count: _, owner, description } = lobby_state;
    Ok(
        ServerDetails {
            name: game_name,
            address: Some(address),
            kind: DetailsKind::Started { turn, hours_remaining, mins_remaining },
            roster,
            owner: Some(owner),
            description: description_to_show(description),
        },
    )
}

/// Describes a started game of which no lobby record is kept, from a snapshot of it.
pub fn started_details(
    started_state: StartedState,
    game_data: GameData,
    registered: &[Registration],
) -> (details: ServerDetails)
    ensures
        details@ == started_view(started_state, game_data, registered@),
{
    let GameData { game_name, nations, turn, turn_timer } = game_data;
    let mut nations = nations;
    sort_by_name(&mut nations);
    let roster = started_roster(nations.as_slice(), registered);
    let (hours_remaining, mins_remaining) = time_remaining(turn_timer);
    let StartedState { address, last_seen_turn: _ } = started_state;
    ServerDetails {
        name: game_name,
        address: Some(address),
        kind: DetailsKind::Started { turn, hours_remaining, mins_remaining },
        roster,
        owner: None,
        description: None,
    }
}

/// Describes a started game, given what came of asking its host for a snapshot.
///
/// A snapshot that could not be had fails the call with the connection's message. With a
/// snapshot, the game is described as one that waits for pretenders where the lobby's
/// record is kept and no turn has been seen yet, and as one in progress otherwise.
pub fn started_server_details(
    started_state: StartedState,
    lobby: Option<LobbyState>,
    fetched: Result<GameData, String>,
    registered: &[Registration],
    catalog: &Nations,
) -> (result: Result<ServerDetails, ServerError>)
    ensures
        agrees(result, started_outcome(started_state, lobby, fetched, registered@, catalog@)),
{
    let game_data = match fetched {
        Ok(game_data) => game_data,
        Err(message) => {
            return Err(ServerError::RemoteFetchFailed(message));
        },
    };
    match lobby {
        None => Ok(started_details(started_state, game_data, registered)),
        Some(lobby_state) => {
            if started_state.last_seen_turn == PRETENDER_PHASE {
                uploading_from_lobby_details(
                    started_state,
                    lobby_state,
                    game_data,
                    registered,
                    catalog,
                )
            } else {
                started_from_lobby_details(
                    started_state,
                    lobby_state,
                    game_data,
                    registered,
                    catalog,
                )
            }
        },
    }
}

/// Describes the server in `state`. A lobby is described from its record and the
/// registrations; for a started game the host is asked for a snapshot first.
///
/// What the host answers is not known beforehand: of a started game the result is what
/// `started_server_details` makes of an answer of the host at the game's address.
pub fn details_helper<C: ServerConnection>(
    state: GameServerState,
    registered: &[Registration],
    catalog: &Nations,
    alias: &str,
) -> (result: Result<ServerDetails, ServerError>)
    ensures
        match state {
            GameServerState::Lobby(lobby_state) => agrees(
                result,
                lobby_outcome(lobby_state, registered@, catalog@, alias@),
            ),
            GameServerState::Started(started_state, lobby) => exists|
                fetched: Result<GameData, String>,
            |
                C::answers(started_state.address@, fetched) && agrees(
                    result,
                    #[trigger] started_outcome(
                        started_state,
                        lobby,
                        fetched,
                        registered@,
                        catalog@,
                    ),
                ),
        },
{
    match state {
        GameServerState::Lobby(lobby_state) => lobby_details(
            lobby_state,
            registered,
            catalog,
            alias,
        ),
        GameServerState::Started(started_state, lobby) => {
            let fetched = C::get_game_data(started_state.address.as_str());
            started_server_details(started_state, lobby, fetched, registered, catalog)
        },
    }
}

/// The same state, registrations, catalog and answer of the host always give the same
/// details: two results that both are what one outcome says have the same contents, or
/// are the same error.
pub proof fn lemma_details_are_determined(
    first: Result<ServerDetails, ServerError>,
    second: Result<ServerDetails, ServerError>,
    outcome: Result<ServerDetailsView, ServerError>,
)
    requires
        agrees(first, outcome),
        agrees(second, outcome),
    ensures
        match (first, second) {
            (Ok(a), Ok(b)) => a@ == b@,
            (Err(a), Err(b)) => a == b,
            _ => false,
        },
{
}

/// What is shown of a started game carries the roster of the mode that the game's state
/// is in, made from the registrations and the nations of the snapshot.
pub proof fn lemma_details_carry_the_roster_of_the_mode(
    started_state: StartedState,
    lobby: Option<LobbyState>,
    game_data: GameData,
    registered: Seq<Registration>,
    catalog: Seq<Nation>,
)
    ensures
        match started_outcome(started_state, lobby, Ok(game_data), registered, catalog) {
            Ok(view) => roster_of(
                mode_of(GameServerState::Started(started_state, lobby)),
                registered,
                game_data.nations@,
                catalog,
            ) == Ok::<Seq<RosterEntry>, ServerError>(view.roster),
            Err(error) => roster_of(
                mode_of(GameServerState::Started(started_state, lobby)),
                registered,
                game_data.nations@,
                catalog,
            ) == Err::<Seq<RosterEntry>, ServerError>(error),
        },
{
}

/// A started game that waits for pretenders is always described, whoever registered
/// for whatever nation: the roster has a line for every nation of the snapshot, and a
/// nation for which nobody registered is shown as played by a person whose name is not
/// known.
pub proof fn lemma_pretender_phase_is_always_described(
    started_state: StartedState,
    lobby_state: LobbyState,
    game_data: GameData,
    registered: Seq<Registration>,
    catalog: Seq<Nation>,
)
    requires
        started_state.last_seen_turn == PRETENDER_PHASE,
    ensures
        started_outcome(started_state, Some(lobby_state), Ok(game_data), registered, catalog)
            matches Ok(view) && {
            &&& view.kind == DetailsKind::Uploading
            &&& view.roster.len() == game_data.nations@.len()
            &&& forall|i: int|
                0 <= i < game_data.nations@.len() && player_of(
                    registered,
                    game_data.nations@[i].nation.id,
                ) is None ==> #[trigger] view.roster[i] == (RosterEntry::Slot {
                    nation: game_data.nations@[i].nation,
                    holder: Either::Right(NationStatus::Human),
                    submission: Some(SubmissionStatus::Submitted),
                })
        },
{
    lemma_uploading_roster_lists_every_reported_nation(registered, game_data.nations@, catalog);
}

} // verus!
