//! Reconciling the registrations with what the host reports into one roster.
//!
//! The registrations say who signed up for which nation; the host's snapshot says which
//! nations are in the running game, who controls them and whether their turn is in. The
//! two overlap only in part. A roster has one entry for every nation that the host
//! reports, each with the player who registered for it; in a lobby it has one for every
//! registration and for every slot that is still free; and in a game in progress whose
//! lobby record is kept, the players whose nations the host does not report follow.
//!
//! How the two are merged depends on where the server stands in its life: see
//! `RosterMode`. `reconcile` makes the roster of any mode; the functions that it is made
//! of are public as well.

use crate::error::ServerError;
use crate::model::enums::nations::{first_of, has_id};
use crate::model::enums::{NationStatus, Nations, SubmissionStatus};
use crate::model::game_server::{GameServerState, PRETENDER_PHASE};
use crate::model::nation::{Nation, NationDetails};
use crate::model::player::Player;
use crate::name_order::{
    in_name_order, is_in_name_order, lemma_in_name_order_holds_the_same,
    lemma_in_name_order_is_ordered, sort_by_name,
};
use crate::seq_facts::{lemma_filter_first, lemma_filter_take_step};
use either::Either;
use std::borrow::Cow;
use std::collections::HashSet;
use vstd::prelude::*;

verus! {

/// One line of a roster.
#[derive(Debug, Clone, Copy, PartialEq)]
pub enum RosterEntry {
    /// A slot of a lobby that nobody has taken.
    Open,
    /// A nation. `holder` is the player who registered for it or, where the roster shows
    /// none, the status of the nation in the game. `submission` is absent where the
    /// roster has nothing to say of the nation's turn.
    Slot {
        nation: Nation,
        holder: Either<Player, NationStatus>,
        submission: Option<SubmissionStatus>,
    },
}

/// The text shown for what a roster says of a turn: the status's own symbol, and a dot
/// where the roster says nothing.
pub open spec fn submission_label(submission: Option<SubmissionStatus>) -> Seq<char> {
    match submission {
        Some(status) => status.label(),
        None => "."@,
    }
}

/// Renders what a roster says of a turn.
pub fn show_submission(submission: Option<SubmissionStatus>) -> (text: Cow<'static, str>)
    ensures
        text@ == submission_label(submission),
{
    match submission {
        Some(status) => status.show(),
        None => Cow::Borrowed("."),
    }
}

/// A registration: a player, and the id of the nation that the player signed up for.
pub type Registration = (Player, u32);

/// The test that a registration is for the nation with the id `nation_id`.
pub open spec fn registers(nation_id: u32) -> spec_fn(Registration) -> bool {
    |registration: Registration| registration.1 == nation_id
}

/// The player of the first registration for the nation with the id `nation_id`.
pub open spec fn player_of(registered: Seq<Registration>, nation_id: u32) -> Option<Player> {
    match first_of(registered.filter(registers(nation_id))) {
        Some(registration) => Some(registration.0),
        None => None,
    }
}

/// The catalog's nation with the id `nation_id`.
pub open spec fn catalog_nation(catalog: Seq<Nation>, nation_id: u32) -> Option<Nation> {
    first_of(catalog.filter(has_id(nation_id)))
}

/// The test that a registration names a nation that the catalog does not list.
pub open spec fn is_unlisted(catalog: Seq<Nation>) -> spec_fn(Registration) -> bool {
    |registration: Registration| catalog_nation(catalog, registration.1) is None
}

/// A registration's player with the catalog's nation in place of its id.
pub open spec fn seated(catalog: Seq<Nation>) -> spec_fn(Registration) -> (Player, Nation) {
    |registration: Registration|
        (registration.0, catalog_nation(catalog, registration.1).unwrap())
}

/// The registrations with the catalog's nations in place of the ids, or the failure to
/// find one: a registration for a nation that the catalog does not list fails the whole
/// lookup, and the error holds the id of the first such registration.
pub open spec fn seating(registered: Seq<Registration>, catalog: Seq<Nation>) -> Result<
    Seq<(Player, Nation)>,
    ServerError,
> {
    let unlisted = registered.filter(is_unlisted(catalog));
    if unlisted.len() == 0 {
        Ok(registered.map_values(seated(catalog)))
    } else {
        Err(ServerError::UnknownNation { nation_id: unlisted[0].1 })
    }
}

/// The entry of a player who holds `nation`, with what the roster says of the turn.
pub open spec fn held(submission: Option<SubmissionStatus>) -> spec_fn((Player, Nation)) -> RosterEntry {
    |seat: (Player, Nation)|
        RosterEntry::Slot { nation: seat.1, holder: Either::Left(seat.0), submission }
}

/// The number of free slots: what the registrations leave of the capacity.
pub open spec fn open_slots(player_count: int, registered: nat) -> nat {
    if player_count > registered {
        (player_count - registered) as nat
    } else {
        0
    }
}

/// `count` free slots.
pub open spec fn open_entries(count: int) -> Seq<RosterEntry> {
    Seq::new(if count > 0 { count as nat } else { 0 }, |i: int| RosterEntry::Open)
}

/// The roster of a lobby: the registered players with their nations, as they signed up,
/// and behind them the free slots.
pub open spec fn lobby_roster(players_nations: Seq<(Player, Nation)>, player_count: int) -> Seq<
    RosterEntry,
> {
    players_nations.map_values(held(None)) + open_entries(
        open_slots(player_count, players_nations.len()) as int,
    )
}

/// Finds the player who registered for the nation with the id `nation_id`: the first
/// one, should there be several.
pub fn find_player(registered: &[Registration], nation_id: u32) -> (player: Option<Player>)
    ensures
        player == player_of(registered@, nation_id),
{
    let ghost pred = registers(nation_id);
    let n = registered.len();
    let mut i: usize = 0;
    assert(registered@.take(0).filter(pred) =~= Seq::<Registration>::empty()) by {
        reveal(Seq::filter);
    }
    while i < n
        invariant
            n == registered@.len(),
            pred == registers(nation_id),
            0 <= i <= n,
            registered@.take(i as int).filter(pred).len() == 0,
        decreases n - i,
    {
        if registered[i].1 == nation_id {
            proof {
                lemma_filter_first(registered@, pred, i as int);
            }
            return Some(registered[i].0);
        }
        proof {
            lemma_filter_take_step(registered@, pred, i as int);
        }
        i += 1;
    }
    assert(registered@.take(n as int) =~= registered@);
    None
}

/// Looks up the nation of every registration in the catalog.
///
/// Fails where a registration names a nation that the catalog does not list, with the id
/// of the first such registration.
pub fn players_with_nations(registered: &[Registration], catalog: &Nations) -> (result: Result<
    Vec<(Player, Nation)>,
    ServerError,
>)
    ensures
        match seating(registered@, catalog@) {
            Ok(seats) => result matches Ok(found) && found@ == seats,
            Err(error) => result == Err::<Vec<(Player, Nation)>, ServerError>(error),
        },
{
    let ghost pred = is_unlisted(catalog@);
    let ghost seat = seated(catalog@);
    let mut seats: Vec<(Player, Nation)> = Vec::new();
    let n = registered.len();
    let mut i: usize = 0;
    assert(registered@.take(0).filter(pred) =~= Seq::<Registration>::empty()) by {
        reveal(Seq::filter);
    }
    while i < n
        invariant
            n == registered@.len(),
            pred == is_unlisted(catalog@),
            seat == seated(catalog@),
            0 <= i <= n,
            registered@.take(i as int).filter(pred).len() == 0,
            seats@ == registered@.take(i as int).map_values(seat),
        decreases n - i,
    {
        let (player, nation_id) = registered[i];
        match catalog.from_id(nation_id) {
            Some(nation) => {
                seats.push((player, nation));
                proof {
                    lemma_filter_take_step(registered@, pred, i as int);
                    assert(registered@.take(i + 1).map_values(seat) =~= registered@.take(
                        i as int,
                    ).map_values(seat).push(seat(registered@[i as int])));
                }
            },
            None => {
                proof {
                    lemma_filter_first(registered@, pred, i as int);
                }
                return Err(ServerError::UnknownNation { nation_id });
            },
        }
        i += 1;
    }
    assert(registered@.take(n as int) =~= registered@);
    Ok(seats)
}

/// Appends `count` free slots to a roster; none where `count` is not positive.
fn push_open_slots(roster: &mut Vec<RosterEntry>, count: i32)
    ensures
        final(roster)@ == old(roster)@ + open_entries(count as int),
{
    let mut added: i32 = 0;
    assert(roster@ =~= old(roster)@ + open_entries(0));
    while added < count
        invariant
            0 <= added,
            added <= count || added == 0,
            roster@ == old(roster)@ + open_entries(added as int),
        decreases count - added,
    {
        roster.push(RosterEntry::Open);
        added += 1;
        assert(roster@ =~= old(roster)@ + open_entries(added as int));
    }
    assert(open_entries(added as int) =~= open_entries(count as int));
}

/// Appends the entries of players who hold their nations, in the order given.
pub fn push_held(
    roster: &mut Vec<RosterEntry>,
    seats: &Vec<(Player, Nation)>,
    submission: Option<SubmissionStatus>,
)
    ensures
        final(roster)@ == old(roster)@ + seats@.map_values(held(submission)),
{
    let ghost entry = held(submission);
    let n = seats.len();
    let mut i: usize = 0;
    assert(roster@ =~= old(roster)@ + seats@.take(0).map_values(entry));
    while i < n
        invariant
            n == seats@.len(),
            entry == held(submission),
            0 <= i <= n,
            roster@ == old(roster)@ + seats@.take(i as int).map_values(entry),
        decreases n - i,
    {
        let (player, nation) = seats[i];
        roster.push(RosterEntry::Slot { nation, holder: Either::Left(player), submission });
        proof {
            assert(seats@.take(i + 1).map_values(entry) =~= seats@.take(i as int).map_values(
                entry,
            ).push(entry(seats@[i as int])));
            assert(roster@ =~= old(roster)@ + seats@.take(i + 1).map_values(entry));
        }
        i += 1;
    }
    assert(seats@.take(n as int) =~= seats@);
}

/// The number of slots that `registered` players leave free of `player_count`.
pub fn count_open_slots(player_count: i32, registered: usize) -> (free: i32)
    ensures
        free == open_slots(player_count as int, registered as nat),
{
    if player_count <= 0 {
        0
    } else if registered >= player_count as usize {
        0
    } else {
        player_count - registered as i32
    }
}

/// Lists the players of a lobby with their nations, and behind them `open_slots` free
/// slots; no free slot where `open_slots` is not positive.
pub fn players_nations_details(players_nations: &Vec<(Player, Nation)>, open_slots: i32) -> (roster:
    Vec<RosterEntry>)
    ensures
        roster@ == players_nations@.map_values(held(None)) + open_entries(open_slots as int),
{
    let mut roster: Vec<RosterEntry> = Vec::new();
    push_held(&mut roster, players_nations, None);
    push_open_slots(&mut roster, open_slots);
    roster
}

/// Whether the host reports a nation with the id `nation_id`.
pub open spec fn is_reported(game_nations: Seq<NationDetails>, nation_id: u32) -> bool {
    exists|k: int|
        0 <= k < game_nations.len() && (#[trigger] game_nations[k]).nation.id == nation_id
}

/// The test that a registration is for a nation that the host does not report.
pub open spec fn awaits_upload(game_nations: Seq<NationDetails>) -> spec_fn(Registration) -> bool {
    |registration: Registration| !is_reported(game_nations, registration.1)
}

/// The registrations for nations that the host does not report, in the order in which
/// the players registered.
pub open spec fn not_uploaded(
    registered: Seq<Registration>,
    game_nations: Seq<NationDetails>,
) -> Seq<Registration> {
    registered.filter(awaits_upload(game_nations))
}

/// Collects the ids of the nations that the host reports.
fn reported_ids(game_nations: &[NationDetails]) -> (ids: HashSet<u32>)
    ensures
        forall|nation_id: u32| ids@.contains(nation_id) <==> is_reported(game_nations@, nation_id),
{
    broadcast use vstd::std_specs::hash::group_hash_axioms;

    let mut ids: HashSet<u32> = HashSet::new();
    let n = game_nations.len();
    let mut i: usize = 0;
    while i < n
        invariant
            n == game_nations@.len(),
            0 <= i <= n,
            forall|nation_id: u32|
                ids@.contains(nation_id) <==> is_reported(game_nations@.take(i as int), nation_id),
        decreases n - i,
    {
        let id = game_nations[i].nation.id;
        ids.insert(id);
        proof {
            let before = game_nations@.take(i as int);
            let after = game_nations@.take(i + 1);
            assert forall|nation_id: u32| ids@.contains(nation_id) <==> is_reported(
                after,
                nation_id,
            ) by {
                if is_reported(after, nation_id) {
                    let k = choose|k: int|
                        0 <= k < after.len() && (#[trigger] after[k]).nation.id == nation_id;
                    if k < i {
                        assert(before[k].nation.id == nation_id);
                    }
                }
                if is_reported(before, nation_id) {
                    let k = choose|k: int|
                        0 <= k < before.len() && (#[trigger] before[k]).nation.id == nation_id;
                    assert(after[k].nation.id == nation_id);
                }
                if nation_id == id {
                    assert(after[i as int].nation.id == nation_id);
                }
            }
        }
        i += 1;
    }
    assert(game_nations@.take(n as int) =~= game_nations@);
    ids
}

/// Picks the registrations for nations that the host does not report, keeping the order
/// in which the players registered.
pub fn players_not_uploaded(registered: &[Registration], game_nations: &[NationDetails]) -> (waiting:
    Vec<Registration>)
    ensures
        waiting@ == not_uploaded(registered@, game_nations@),
{
    broadcast use vstd::std_specs::hash::group_hash_axioms;

    let ghost pred = awaits_upload(game_nations@);
    let ids = reported_ids(game_nations);
    let mut waiting: Vec<Registration> = Vec::new();
    let n = registered.len();
    let mut i: usize = 0;
    assert(registered@.take(0).filter(pred) =~= Seq::<Registration>::empty()) by {
        reveal(Seq::filter);
    }
    while i < n
        invariant
            n == registered@.len(),
            pred == awaits_upload(game_nations@),
            forall|nation_id: u32|
                ids@.contains(nation_id) <==> is_reported(game_nations@, nation_id),
            0 <= i <= n,
            waiting@ == registered@.take(i as int).filter(pred),
        decreases n - i,
    {
        let registration = registered[i];
        proof {
            lemma_filter_take_step(registered@, pred, i as int);
        }
        if !ids.contains(&registration.1) {
            waiting.push(registration);
        }
        i += 1;
    }
    assert(registered@.take(n as int) =~= registered@);
    waiting
}

/// A nation of a game that waits for pretenders: the nation, the player who registered
/// for it if one did, and whether its pretender has been uploaded.
pub type Listing = (Nation, Option<Player>, bool);

/// The listing of a nation that the host reports: its pretender has been uploaded.
pub open spec fn uploaded_listing(registered: Seq<Registration>) -> spec_fn(NationDetails) -> Listing {
    |details: NationDetails| (details.nation, player_of(registered, details.nation.id), true)
}

/// The roster entry of a listing. A nation for which nobody registered is shown as played
/// by a person whose name is not known.
pub open spec fn listing_entry() -> spec_fn(Listing) -> RosterEntry {
    |listing: Listing|
        RosterEntry::Slot {
            nation: listing.0,
            holder: match listing.1 {
                Some(player) => Either::Left(player),
                None => Either::Right(NationStatus::Human),
            },
            submission: Some(SubmissionStatus::of_flag(listing.2)),
        }
}

/// The roster entry of a nation that the host reports of a game in progress. The nation
/// is shown with the player who registered for it, if one did, and with its status in
/// the game otherwise. A nation that a person plays has its own turn status; the turn of
/// any other nation counts as handed in.
pub open spec fn reported_entry(registered: Seq<Registration>) -> spec_fn(NationDetails) -> RosterEntry {
    |details: NationDetails|
        RosterEntry::Slot {
            nation: details.nation,
            holder: match player_of(registered, details.nation.id) {
                Some(player) => Either::Left(player),
                None => Either::Right(details.status),
            },
            submission: if details.status.is_human() {
                Some(details.submitted)
            } else {
                Some(SubmissionStatus::Submitted)
            },
        }
}

/// Looks up the nations of the players who registered for nations that the host does
/// not report, keeping the order in which they registered.
///
/// Fails where such a player registered for a nation that the catalog does not list,
/// with the id of the first such registration.
pub fn seats_not_uploaded(
    registered: &[Registration],
    game_nations: &[NationDetails],
    catalog: &Nations,
) -> (result: Result<Vec<(Player, Nation)>, ServerError>)
    ensures
        match seating(not_uploaded(registered@, game_nations@), catalog@) {
            Ok(seats) => result matches Ok(found) && found@ == seats,
            Err(error) => result == Err::<Vec<(Player, Nation)>, ServerError>(error),
        },
{
    let waiting = players_not_uploaded(registered, game_nations);
    players_with_nations(waiting.as_slice(), catalog)
}

/// Lists the nations of a game that waits for pretenders: the nations that the host
/// reports, in its order, each with the player who registered for it, if one did. A
/// nation that the host reports has its pretender uploaded.
pub fn nation_list(registered_nations: &[Registration], uploaded_nations: &[NationDetails]) -> (listings:
    Vec<Listing>)
    ensures
        listings@ == uploaded_nations@.map_values(uploaded_listing(registered_nations@)),
{
    let ghost uploaded = uploaded_listing(registered_nations@);
    let mut listings: Vec<Listing> = Vec::new();
    let n = uploaded_nations.len();
    let mut i: usize = 0;
    assert(listings@ =~= uploaded_nations@.take(0).map_values(uploaded));
    while i < n
        invariant
            n == uploaded_nations@.len(),
            uploaded == uploaded_listing(registered_nations@),
            0 <= i <= n,
            listings@ == uploaded_nations@.take(i as int).map_values(uploaded),
        decreases n - i,
    {
        let nation = uploaded_nations[i].nation;
        listings.push((nation, find_player(registered_nations, nation.id), true));
        proof {
            assert(uploaded_nations@.take(i + 1).map_values(uploaded) =~= uploaded_nations@.take(
                i as int,
            ).map_values(uploaded).push(uploaded(uploaded_nations@[i as int])));
        }
        i += 1;
    }
    assert(uploaded_nations@.take(n as int) =~= uploaded_nations@);
    listings
}

/// Turns the listings of a game that waits for pretenders into roster entries.
pub fn uploading_roster(listings: &Vec<Listing>) -> (roster: Vec<RosterEntry>)
    ensures
        roster@ == listings@.map_values(listing_entry()),
{
    let ghost entry = listing_entry();
    let mut roster: Vec<RosterEntry> = Vec::new();
    let n = listings.len();
    let mut i: usize = 0;
    assert(roster@ =~= listings@.take(0).map_values(entry));
    while i < n
        invariant
            n == listings@.len(),
            entry == listing_entry(),
            0 <= i <= n,
            roster@ == listings@.take(i as int).map_values(entry),
        decreases n - i,
    {
        let (nation, option_player, submitted) = listings[i];
        let holder: Either<Player, NationStatus> = match option_player {
            Some(player) => Either::Left(player),
            None => Either::Right(NationStatus::Human),
        };
        roster.push(
            RosterEntry::Slot {
                nation,
                holder,
                submission: Some(SubmissionStatus::from_bool(submitted)),
            },
        );
        proof {
            assert(listings@.take(i + 1).map_values(entry) =~= listings@.take(i as int).map_values(
                entry,
            ).push(entry(listings@[i as int])));
        }
        i += 1;
    }
    assert(listings@.take(n as int) =~= listings@);
    roster
}

/// Lists the nations that the host reports of a game in progress, in the order given,
/// each with the player who registered for it, if one did.
pub fn started_roster(game_nations: &[NationDetails], registered: &[Registration]) -> (roster: Vec<
    RosterEntry,
>)
    ensures
        roster@ == game_nations@.map_values(reported_entry(registered@)),
{
    let ghost entry = reported_entry(registered@);
    let mut roster: Vec<RosterEntry> = Vec::new();
    let n = game_nations.len();
    let mut i: usize = 0;
    assert(roster@ =~= game_nations@.take(0).map_values(entry));
    while i < n
        invariant
            n == game_nations@.len(),
            entry == reported_entry(registered@),
            0 <= i <= n,
            roster@ == game_nations@.take(i as int).map_values(entry),
        decreases n - i,
    {
        let details = game_nations[i];
        let holder: Either<Player, NationStatus> = match find_player(
            registered,
            details.nation.id,
        ) {
            Some(player) => Either::Left(player),
            None => Either::Right(details.status),
        };
        let submission = if details.status.is_human() {
            details.submitted
        } else {
            SubmissionStatus::Submitted
        };
        roster.push(
            RosterEntry::Slot { nation: details.nation, holder, submission: Some(submission) },
        );
        proof {
            assert(game_nations@.take(i + 1).map_values(entry) =~= game_nations@.take(
                i as int,
            ).map_values(entry).push(entry(game_nations@[i as int])));
        }
        i += 1;
    }
    assert(game_nations@.take(n as int) =~= game_nations@);
    roster
}

/// Where a server stands in its life, as far as its roster goes.
#[derive(PartialEq, Eq, Structural, Clone, Copy, Debug)]
pub enum RosterMode {
    /// A lobby of `player_count` slots. The roster lists the registered players with
    /// their nations, in the order in which they registered, and the free slots behind
    /// them. The host plays no part.
    Lobby { player_count: i32 },
    /// A started game that waits for pretenders. The roster lists the nations that the
    /// host reports, in its order, as uploaded, each with the player who registered for
    /// it; a nation for which nobody registered is shown as played by a person.
    Uploading,
    /// A game in progress whose lobby record is kept. The roster lists the nations that
    /// the host reports, in the order of their names, each with the player who
    /// registered for it, and behind them the registered players whose nations the host
    /// does not report, with turns that are not handed in.
    Started,
    /// A game in progress of which no lobby record is kept. The roster lists the nations
    /// that the host reports, in the order of their names, each with the player who
    /// registered for it, and nothing else.
    StartedWithoutLobby,
}

/// The mode of the roster of a server in `state`. A started game whose lobby record is
/// kept waits for pretenders as long as no turn of it has been seen.
pub open spec fn mode_of(state: GameServerState) -> RosterMode {
    match state {
        GameServerState::Lobby(lobby_state) => RosterMode::Lobby {
            player_count: lobby_state.player_count,
        },
        GameServerState::Started(_, None) => RosterMode::StartedWithoutLobby,
        GameServerState::Started(started_state, Some(_)) => if started_state.last_seen_turn
            == PRETENDER_PHASE {
            RosterMode::Uploading
        } else {
            RosterMode::Started
        },
    }
}

/// The roster of a server, or why there is none: a registration that has to be looked
/// up in the catalog and names a nation that the catalog does not list fails the whole
/// roster. In a lobby every registration is looked up; in a game in progress whose lobby
/// record is kept, those for nations that the host does not report; else none.
pub open spec fn roster_of(
    mode: RosterMode,
    registered: Seq<Registration>,
    game_nations: Seq<NationDetails>,
    catalog: Seq<Nation>,
) -> Result<Seq<RosterEntry>, ServerError> {
    match mode {
        RosterMode::Lobby { player_count } => match seating(registered, catalog) {
            Ok(seats) => Ok(lobby_roster(seats, player_count as int)),
            Err(error) => Err(error),
        },
        RosterMode::Uploading => Ok(
            game_nations.map_values(uploaded_listing(registered)).map_values(listing_entry()),
        ),
        RosterMode::Started => match seating(not_uploaded(registered, game_nations), catalog) {
            Ok(seats) => Ok(
                in_name_order(game_nations).map_values(reported_entry(registered))
                    + seats.map_values(held(Some(SubmissionStatus::NotSubmitted))),
            ),
            Err(error) => Err(error),
        },
        RosterMode::StartedWithoutLobby => Ok(
            in_name_order(game_nations).map_values(reported_entry(registered)),
        ),
    }
}

/// Tells the mode of the roster of a server in `state`.
pub fn roster_mode(state: &GameServerState) -> (mode: RosterMode)
    ensures
        mode == mode_of(*state),
{
    match state {
        GameServerState::Lobby(lobby_state) => RosterMode::Lobby {
            player_count: lobby_state.player_count,
        },
        GameServerState::Started(_, None) => RosterMode::StartedWithoutLobby,
        GameServerState::Started(started_state, Some(_)) => {
            if started_state.last_seen_turn == PRETENDER_PHASE {
                RosterMode::Uploading
            } else {
                RosterMode::Started
            }
        },
    }
}

/// Merges the registrations with the nations that the host reports into the roster of
/// `mode`. The roster of a lobby is made of the registrations alone, whatever
/// `game_nations` holds.
///
/// Fails where a registration that has to be looked up in the catalog names a nation
/// that the catalog does not list, with the id of the first such registration. In a
/// lobby every registration is looked up; in a game in progress whose lobby record is
/// kept, those for nations that the host does not report; else none, and the call
/// succeeds.
pub fn reconcile(
    mode: RosterMode,
    registered: &[Registration],
    game_nations: Vec<NationDetails>,
    catalog: &Nations,
) -> (result: Result<Vec<RosterEntry>, ServerError>)
    ensures
        match roster_of(mode, registered@, game_nations@, catalog@) {
            Ok(roster) => result matches Ok(found) && found@ == roster,
            Err(error) => result == Err::<Vec<RosterEntry>, ServerError>(error),
        },
{
    let mut game_nations = game_nations;
    match mode {
        RosterMode::Lobby { player_count } => {
            let players_nations = match players_with_nations(registered, catalog) {
                Ok(players_nations) => players_nations,
                Err(error) => {
                    return Err(error);
                },
            };
            let open_slots = count_open_slots(player_count, players_nations.len());
            Ok(players_nations_details(&players_nations, open_slots))
        },
        RosterMode::Uploading => {
            let players = nation_list(registered, game_nations.as_slice());
            Ok(uploading_roster(&players))
        },
        RosterMode::Started => {
            let not_uploaded_players = match seats_not_uploaded(
                registered,
                game_nations.as_slice(),
                catalog,
            ) {
                Ok(seats) => seats,
                Err(error) => {
                    return Err(error);
                },
            };
            sort_by_name(&mut game_nations);
            let mut roster = started_roster(game_nations.as_slice(), registered);
            push_held(&mut roster, &not_uploaded_players, Some(SubmissionStatus::NotSubmitted));
            Ok(roster)
        },
        RosterMode::StartedWithoutLobby => {
            sort_by_name(&mut game_nations);
            Ok(started_roster(game_nations.as_slice(), registered))
        },
    }
}

/// A lobby's roster has a line for every slot: where no more players registered than the
/// lobby has slots, the roster is as long as the lobby's capacity, the players come
/// first, in the order in which they registered, and every line behind them is a free
/// slot.
pub proof fn lemma_lobby_roster_fills_the_lobby(
    player_count: i32,
    registered: Seq<Registration>,
    game_nations: Seq<NationDetails>,
    catalog: Seq<Nation>,
)
    requires
        registered.len() <= player_count,
    ensures
        roster_of(RosterMode::Lobby { player_count }, registered, game_nations, catalog)
            matches Ok(roster) ==> {
            &&& roster.len() == player_count
            &&& forall|i: int|
                0 <= i < registered.len() ==> #[trigger] roster[i] == (RosterEntry::Slot {
                    nation: catalog_nation(catalog, registered[i].1).unwrap(),
                    holder: Either::Left(registered[i].0),
                    submission: None,
                })
            &&& forall|i: int|
                registered.len() <= i < player_count ==> #[trigger] roster[i] == RosterEntry::Open
        },
{
}

/// The roster of a game in progress whose lobby record is kept is made in two passes.
/// First comes a line for every nation that the host reports, and these lines stand in
/// the order of the nations' names. Behind them comes a line for every player whose
/// nation the host does not report, in the order in which the players registered, with
/// the catalog's nation and a turn that is not handed in.
pub proof fn lemma_started_roster_has_two_passes(
    registered: Seq<Registration>,
    game_nations: Seq<NationDetails>,
    catalog: Seq<Nation>,
)
    ensures
        roster_of(RosterMode::Started, registered, game_nations, catalog) matches Ok(roster) ==> {
            let listed = in_name_order(game_nations);
            let waiting = not_uploaded(registered, game_nations);
            &&& listed.len() == game_nations.len()
            &&& listed.to_multiset() == game_nations.to_multiset()
            &&& is_in_name_order(listed)
            &&& roster.len() == listed.len() + waiting.len()
            &&& forall|i: int|
                0 <= i < listed.len() ==> #[trigger] roster[i] == reported_entry(registered)(
                    listed[i],
                )
            &&& forall|k: int|
                0 <= k < waiting.len() ==> #[trigger] roster[listed.len() + k]
                    == (RosterEntry::Slot {
                    nation: catalog_nation(catalog, waiting[k].1).unwrap(),
                    holder: Either::Left(waiting[k].0),
                    submission: Some(SubmissionStatus::NotSubmitted),
                })
        },
{
    lemma_in_name_order_holds_the_same(game_nations);
    lemma_in_name_order_is_ordered(game_nations);
}

/// The roster of a game in progress of which no lobby record is kept never fails, and
/// has exactly one line for every nation that the host reports, in the order of the
/// nations' names.
pub proof fn lemma_roster_without_lobby_lists_the_report(
    registered: Seq<Registration>,
    game_nations: Seq<NationDetails>,
    catalog: Seq<Nation>,
)
    ensures
        roster_of(RosterMode::StartedWithoutLobby, registered, game_nations, catalog) matches Ok(
            roster,
        ) && {
            let listed = in_name_order(game_nations);
            &&& listed.to_multiset() == game_nations.to_multiset()
            &&& is_in_name_order(listed)
            &&& roster.len() == game_nations.len()
            &&& forall|i: int|
                0 <= i < listed.len() ==> #[trigger] roster[i] == reported_entry(registered)(
                    listed[i],
                )
        },
{
    lemma_in_name_order_holds_the_same(game_nations);
    lemma_in_name_order_is_ordered(game_nations);
}

/// In a game in progress a reported nation is merged with the player who registered for
/// it, whoever controls the nation in the game; only a nation for which nobody
/// registered is shown under its status. The turn of a nation that a person plays is
/// what the host reports of it; the turn of any other nation counts as handed in.
pub proof fn lemma_reported_nation_is_merged_with_its_player(
    registered: Seq<Registration>,
    details: NationDetails,
)
    ensures
        reported_entry(registered)(details) matches RosterEntry::Slot {
            nation,
            holder,
            submission,
        } && {
            &&& nation == details.nation
            &&& match player_of(registered, details.nation.id) {
                Some(player) => holder == Either::<Player, NationStatus>::Left(player),
                None => holder == Either::<Player, NationStatus>::Right(details.status),
            }
            &&& details.status == NationStatus::Human ==> submission == Some(details.submitted)
            &&& details.status != NationStatus::Human ==> submission == Some(
                SubmissionStatus::Submitted,
            )
        },
{
}

/// The roster of a game that waits for pretenders never fails, and has one line for
/// every nation that the host reports, in the host's order. A nation for which nobody
/// registered has its line all the same: it is shown as played by a person whose name is
/// not known. A nation for which a player registered is shown with that player.
pub proof fn lemma_uploading_roster_lists_every_reported_nation(
    registered: Seq<Registration>,
    game_nations: Seq<NationDetails>,
    catalog: Seq<Nation>,
)
    ensures
        roster_of(RosterMode::Uploading, registered, game_nations, catalog) matches Ok(roster) && {
            &&& roster.len() == game_nations.len()
            &&& forall|i: int|
                0 <= i < game_nations.len() ==> #[trigger] roster[i] == (RosterEntry::Slot {
                    nation: game_nations[i].nation,
                    holder: match player_of(registered, game_nations[i].nation.id) {
                        Some(player) => Either::Left(player),
                        None => Either::Right(NationStatus::Human),
                    },
                    submission: Some(SubmissionStatus::Submitted),
                })
        },
{
}

/// The roster is a function of what it is made from: two rosters that both are what
/// `roster_of` says of one mode, one list of registrations, one report and one catalog
/// are the same roster, or fail with the same error.
pub proof fn lemma_roster_is_determined(
    first: Result<Vec<RosterEntry>, ServerError>,
    second: Result<Vec<RosterEntry>, ServerError>,
    outcome: Result<Seq<RosterEntry>, ServerError>,
)
    requires
        match outcome {
            Ok(roster) => first matches Ok(found) && found@ == roster,
            Err(error) => first == Err::<Vec<RosterEntry>, ServerError>(error),
        },
        match outcome {
            Ok(roster) => second matches Ok(found) && found@ == roster,
            Err(error) => second == Err::<Vec<RosterEntry>, ServerError>(error),
        },
    ensures
        match (first, second) {
            (Ok(a), Ok(b)) => a@ == b@,
            (Err(a), Err(b)) => a == b,
            _ => false,
        },
{
}

} // verus!
