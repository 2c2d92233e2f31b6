use either::Either;
use game_roster::error::ServerError;
use game_roster::model::{
    Era, GameServerState, LobbyState, Nation, NationDetails, NationStatus, Nations, Player,
    StartedState, SubmissionStatus,
};
use game_roster::roster::{
    count_open_slots, find_player, nation_list, players_nations_details, players_not_uploaded,
    players_with_nations, push_held, reconcile, roster_mode, seats_not_uploaded, show_submission,
    started_roster, uploading_roster, RosterEntry, RosterMode,
};
use serenity::model::id::UserId;

fn roster_nation(id: u32, name: &'static str) -> Nation {
    Nation { id, name, era: Era::Middle }
}

fn roster_player(id: u64) -> Player {
    Player { discord_user_id: UserId(id), turn_notifications: true }
}

fn roster_catalog() -> Nations {
    Nations::new(vec![
        roster_nation(43, "Arcoscephale"),
        roster_nation(44, "Ermor"),
        roster_nation(50, "Marignon"),
        roster_nation(51, "Man"),
    ])
}

fn roster_details(nation: Nation, status: NationStatus, submitted: SubmissionStatus) -> NationDetails {
    NationDetails { nation, status, submitted, connected: false }
}

fn roster_slot(
    nation: Nation,
    holder: Either<Player, NationStatus>,
    submission: Option<SubmissionStatus>,
) -> RosterEntry {
    RosterEntry::Slot { nation, holder, submission }
}

#[test]
fn find_player_takes_the_first_registration_of_the_nation() {
    let registered = vec![(roster_player(1), 43), (roster_player(2), 44), (roster_player(3), 43)];
    assert_eq!(find_player(&registered, 43), Some(roster_player(1)));
    assert_eq!(find_player(&registered, 44), Some(roster_player(2)));
    assert_eq!(find_player(&registered, 50), None);
    assert_eq!(find_player(&[], 43), None);
}

#[test]
fn players_with_nations_looks_every_nation_up() {
    let registered = vec![(roster_player(1), 50), (roster_player(2), 43)];
    assert_eq!(
        players_with_nations(&registered, &roster_catalog()),
        Ok(vec![
            (roster_player(1), roster_nation(50, "Marignon")),
            (roster_player(2), roster_nation(43, "Arcoscephale")),
        ])
    );
    assert_eq!(players_with_nations(&[], &roster_catalog()), Ok(Vec::new()));
}

#[test]
fn players_with_nations_fails_on_the_first_unlisted_nation() {
    let registered = vec![
        (roster_player(1), 50),
        (roster_player(2), 7),
        (roster_player(3), 43),
        (roster_player(4), 8),
    ];
    assert_eq!(
        players_with_nations(&registered, &roster_catalog()),
        Err(ServerError::UnknownNation { nation_id: 7 })
    );
}

#[test]
fn count_open_slots_is_what_is_left_of_the_capacity() {
    assert_eq!(count_open_slots(5, 2), 3);
    assert_eq!(count_open_slots(5, 5), 0);
    assert_eq!(count_open_slots(5, 6), 0);
    assert_eq!(count_open_slots(0, 0), 0);
    assert_eq!(count_open_slots(-3, 0), 0);
    assert_eq!(count_open_slots(i32::MAX, 0), i32::MAX);
    assert_eq!(count_open_slots(i32::MAX, usize::MAX), 0);
    assert_eq!(count_open_slots(i32::MIN, usize::MAX), 0);
}

#[test]
fn lobby_roster_lists_players_then_open_slots() {
    let seats = vec![
        (roster_player(1), roster_nation(50, "Marignon")),
        (roster_player(2), roster_nation(43, "Arcoscephale")),
    ];
    let roster = players_nations_details(&seats, 3);
    assert_eq!(
        roster,
        vec![
            roster_slot(roster_nation(50, "Marignon"), Either::Left(roster_player(1)), None),
            roster_slot(roster_nation(43, "Arcoscephale"), Either::Left(roster_player(2)), None),
            RosterEntry::Open,
            RosterEntry::Open,
            RosterEntry::Open,
        ]
    );
}

#[test]
fn lobby_roster_has_no_open_slot_for_a_count_that_is_not_positive() {
    let seats = vec![(roster_player(1), roster_nation(50, "Marignon"))];
    let expected =
        vec![roster_slot(roster_nation(50, "Marignon"), Either::Left(roster_player(1)), None)];
    assert_eq!(players_nations_details(&seats, 0), expected);
    assert_eq!(players_nations_details(&seats, -4), expected);
    assert_eq!(players_nations_details(&Vec::new(), 2), vec![RosterEntry::Open, RosterEntry::Open]);
    assert_eq!(players_nations_details(&Vec::new(), 0), Vec::new());
}

#[test]
fn lobby_roster_is_as_long_as_the_lobby_is_large() {
    let catalog = roster_catalog();
    let ids = [43, 44, 50, 51];
    for capacity in 0..8usize {
        for signed_up in 0..=capacity.min(4) {
            let registered: Vec<(Player, u32)> =
                (0..signed_up).map(|i| (roster_player(i as u64), ids[i])).collect();
            let seats = players_with_nations(&registered, &catalog).unwrap();
            let open = count_open_slots(capacity as i32, seats.len());
            let roster = players_nations_details(&seats, open);
            assert_eq!(roster.len(), capacity);
            for (i, entry) in roster.iter().enumerate() {
                if i < signed_up {
                    assert_eq!(
                        *entry,
                        roster_slot(seats[i].1, Either::Left(registered[i].0), None)
                    );
                } else {
                    assert_eq!(*entry, RosterEntry::Open);
                }
            }
        }
    }
}

#[test]
fn players_not_uploaded_keeps_registration_order() {
    let game = vec![
        roster_details(roster_nation(44, "Ermor"), NationStatus::Human, SubmissionStatus::Submitted),
        roster_details(roster_nation(50, "Marignon"), NationStatus::AI, SubmissionStatus::Submitted),
    ];
    let registered = vec![
        (roster_player(1), 51),
        (roster_player(2), 44),
        (roster_player(3), 43),
        (roster_player(4), 50),
        (roster_player(5), 51),
    ];
    assert_eq!(
        players_not_uploaded(&registered, &game),
        vec![(roster_player(1), 51), (roster_player(3), 43), (roster_player(5), 51)]
    );
    assert_eq!(players_not_uploaded(&registered, &[]), registered);
    assert_eq!(players_not_uploaded(&[], &game), Vec::new());
}

#[test]
fn seats_not_uploaded_ignores_unlisted_nations_that_the_host_reports() {
    // Nation 7 is not in the catalog, but the host reports it, so it is never looked up.
    let game = vec![roster_details(
        Nation { id: 7, name: "Ulm", era: Era::Early },
        NationStatus::Human,
        SubmissionStatus::Submitted,
    )];
    let registered = vec![(roster_player(1), 7), (roster_player(2), 43)];
    assert_eq!(
        seats_not_uploaded(&registered, &game, &roster_catalog()),
        Ok(vec![(roster_player(2), roster_nation(43, "Arcoscephale"))])
    );
    let registered = vec![(roster_player(1), 7), (roster_player(2), 9)];
    assert_eq!(
        seats_not_uploaded(&registered, &game, &roster_catalog()),
        Err(ServerError::UnknownNation { nation_id: 9 })
    );
}

#[test]
fn nation_list_lists_the_uploaded_nations_in_the_hosts_order() {
    let game = vec![
        roster_details(roster_nation(50, "Marignon"), NationStatus::Human, SubmissionStatus::NotSubmitted),
        roster_details(roster_nation(43, "Arcoscephale"), NationStatus::Human, SubmissionStatus::NotSubmitted),
    ];
    let registered = vec![(roster_player(1), 44), (roster_player(2), 50), (roster_player(3), 50)];
    assert_eq!(
        nation_list(&registered, &game),
        vec![
            (roster_nation(50, "Marignon"), Some(roster_player(2)), true),
            (roster_nation(43, "Arcoscephale"), None, true),
        ]
    );
    assert_eq!(nation_list(&registered, &[]), Vec::new());
    assert_eq!(
        nation_list(&[], &game),
        vec![
            (roster_nation(50, "Marignon"), None, true),
            (roster_nation(43, "Arcoscephale"), None, true),
        ]
    );
}

#[test]
fn uploading_roster_shows_an_unregistered_nation_as_human() {
    let listings = vec![
        (roster_nation(50, "Marignon"), Some(roster_player(2)), true),
        (roster_nation(43, "Arcoscephale"), None, true),
        (roster_nation(44, "Ermor"), Some(roster_player(1)), false),
    ];
    assert_eq!(
        uploading_roster(&listings),
        vec![
            roster_slot(
                roster_nation(50, "Marignon"),
                Either::Left(roster_player(2)),
                Some(SubmissionStatus::Submitted)
            ),
            roster_slot(
                roster_nation(43, "Arcoscephale"),
                Either::Right(NationStatus::Human),
                Some(SubmissionStatus::Submitted)
            ),
            roster_slot(
                roster_nation(44, "Ermor"),
                Either::Left(roster_player(1)),
                Some(SubmissionStatus::NotSubmitted)
            ),
        ]
    );
    assert_eq!(uploading_roster(&Vec::new()), Vec::new());
}

#[test]
fn started_roster_merges_every_reported_nation_with_its_player() {
    let game = vec![
        roster_details(roster_nation(43, "Arcoscephale"), NationStatus::Human, SubmissionStatus::PartiallySubmitted),
        roster_details(roster_nation(44, "Ermor"), NationStatus::AI, SubmissionStatus::NotSubmitted),
        roster_details(roster_nation(50, "Marignon"), NationStatus::Human, SubmissionStatus::Unknown(7)),
        roster_details(roster_nation(51, "Man"), NationStatus::Defeated, SubmissionStatus::NotSubmitted),
    ];
    let registered = vec![(roster_player(1), 43), (roster_player(2), 44)];
    assert_eq!(
        started_roster(&game, &registered),
        vec![
            roster_slot(
                roster_nation(43, "Arcoscephale"),
                Either::Left(roster_player(1)),
                Some(SubmissionStatus::PartiallySubmitted)
            ),
            // A player registered for the nation that the AI plays: the player is shown,
            // and the turn counts as handed in.
            roster_slot(
                roster_nation(44, "Ermor"),
                Either::Left(roster_player(2)),
                Some(SubmissionStatus::Submitted)
            ),
            roster_slot(
                roster_nation(50, "Marignon"),
                Either::Right(NationStatus::Human),
                Some(SubmissionStatus::Unknown(7))
            ),
            roster_slot(
                roster_nation(51, "Man"),
                Either::Right(NationStatus::Defeated),
                Some(SubmissionStatus::Submitted)
            ),
        ]
    );
    assert_eq!(started_roster(&[], &registered), Vec::new());
}

#[test]
fn started_roster_counts_every_unplayed_nation_as_handed_in() {
    for status in [
        NationStatus::AI,
        NationStatus::Independent,
        NationStatus::Closed,
        NationStatus::DefeatedThisTurn,
        NationStatus::Defeated,
    ] {
        for submitted in [
            SubmissionStatus::NotSubmitted,
            SubmissionStatus::PartiallySubmitted,
            SubmissionStatus::Submitted,
            SubmissionStatus::Unknown(9),
        ] {
            let game = vec![roster_details(roster_nation(44, "Ermor"), status, submitted)];
            assert_eq!(
                started_roster(&game, &[]),
                vec![roster_slot(
                    roster_nation(44, "Ermor"),
                    Either::Right(status),
                    Some(SubmissionStatus::Submitted)
                )]
            );
        }
    }
}

#[test]
fn push_held_appends_in_order() {
    let mut roster = vec![RosterEntry::Open];
    let seats = vec![
        (roster_player(1), roster_nation(50, "Marignon")),
        (roster_player(2), roster_nation(43, "Arcoscephale")),
    ];
    push_held(&mut roster, &seats, Some(SubmissionStatus::NotSubmitted));
    assert_eq!(
        roster,
        vec![
            RosterEntry::Open,
            roster_slot(
                roster_nation(50, "Marignon"),
                Either::Left(roster_player(1)),
                Some(SubmissionStatus::NotSubmitted)
            ),
            roster_slot(
                roster_nation(43, "Arcoscephale"),
                Either::Left(roster_player(2)),
                Some(SubmissionStatus::NotSubmitted)
            ),
        ]
    );
}

#[test]
fn nation_status_is_human_only_for_human() {
    assert!(NationStatus::Human.is_human());
    assert!(!NationStatus::AI.is_human());
    assert!(!NationStatus::Independent.is_human());
    assert!(!NationStatus::Closed.is_human());
    assert!(!NationStatus::DefeatedThisTurn.is_human());
    assert!(!NationStatus::Defeated.is_human());
}

#[test]
fn show_submission_puts_a_dot_where_nothing_is_known() {
    assert_eq!(show_submission(None), ".");
    assert_eq!(show_submission(Some(SubmissionStatus::Submitted)), "✓");
    assert_eq!(show_submission(Some(SubmissionStatus::NotSubmitted)), "X");
    assert_eq!(show_submission(Some(SubmissionStatus::PartiallySubmitted)), "/");
    assert_eq!(show_submission(Some(SubmissionStatus::Unknown(9))), "9");
}

fn roster_lobby_state(player_count: i32) -> LobbyState {
    LobbyState { era: Era::Middle, player_count, owner: UserId(900), description: None }
}

fn roster_started_state(last_seen_turn: i32) -> StartedState {
    StartedState { address: "host.example:2000".to_string(), last_seen_turn }
}

#[test]
fn roster_mode_follows_the_state() {
    assert_eq!(
        roster_mode(&GameServerState::Lobby(roster_lobby_state(5))),
        RosterMode::Lobby { player_count: 5 }
    );
    assert_eq!(
        roster_mode(&GameServerState::Started(roster_started_state(-1), Some(roster_lobby_state(5)))),
        RosterMode::Uploading
    );
    assert_eq!(
        roster_mode(&GameServerState::Started(roster_started_state(0), Some(roster_lobby_state(5)))),
        RosterMode::Started
    );
    assert_eq!(
        roster_mode(&GameServerState::Started(roster_started_state(12), Some(roster_lobby_state(5)))),
        RosterMode::Started
    );
    assert_eq!(
        roster_mode(&GameServerState::Started(roster_started_state(-1), None)),
        RosterMode::StartedWithoutLobby
    );
    assert_eq!(
        roster_mode(&GameServerState::Started(roster_started_state(3), None)),
        RosterMode::StartedWithoutLobby
    );
}

#[test]
fn reconcile_in_a_lobby_returns_one_entry_for_every_slot() {
    let registered = vec![(roster_player(1), 50), (roster_player(2), 43)];
    let roster =
        reconcile(RosterMode::Lobby { player_count: 5 }, &registered, Vec::new(), &roster_catalog());
    assert_eq!(
        roster,
        Ok(vec![
            roster_slot(roster_nation(50, "Marignon"), Either::Left(roster_player(1)), None),
            roster_slot(roster_nation(43, "Arcoscephale"), Either::Left(roster_player(2)), None),
            RosterEntry::Open,
            RosterEntry::Open,
            RosterEntry::Open,
        ])
    );
}

#[test]
fn reconcile_in_a_lobby_does_not_look_at_the_host() {
    let registered = vec![(roster_player(1), 50)];
    let game = vec![roster_details(
        roster_nation(44, "Ermor"),
        NationStatus::Human,
        SubmissionStatus::Submitted,
    )];
    assert_eq!(
        reconcile(RosterMode::Lobby { player_count: 2 }, &registered, game, &roster_catalog()),
        reconcile(RosterMode::Lobby { player_count: 2 }, &registered, Vec::new(), &roster_catalog())
    );
}

#[test]
fn reconcile_in_progress_merges_in_two_passes() {
    // The host reports A (a person, handed in) and B (AI). One player registered for A,
    // another for C, which the host does not report.
    let a = roster_nation(43, "Arcoscephale");
    let b = roster_nation(50, "Marignon");
    let c = roster_nation(44, "Ermor");
    let game = vec![
        roster_details(a, NationStatus::Human, SubmissionStatus::Submitted),
        roster_details(b, NationStatus::AI, SubmissionStatus::NotSubmitted),
    ];
    let registered = vec![(roster_player(1), a.id), (roster_player(2), c.id)];
    assert_eq!(
        reconcile(RosterMode::Started, &registered, game, &roster_catalog()),
        Ok(vec![
            roster_slot(a, Either::Left(roster_player(1)), Some(SubmissionStatus::Submitted)),
            roster_slot(b, Either::Right(NationStatus::AI), Some(SubmissionStatus::Submitted)),
            roster_slot(c, Either::Left(roster_player(2)), Some(SubmissionStatus::NotSubmitted)),
        ])
    );
}

#[test]
fn reconcile_while_uploading_shows_an_unregistered_nation_as_human() {
    let game = vec![roster_details(
        roster_nation(44, "Ermor"),
        NationStatus::AI,
        SubmissionStatus::NotSubmitted,
    )];
    assert_eq!(
        reconcile(RosterMode::Uploading, &[], game, &roster_catalog()),
        Ok(vec![roster_slot(
            roster_nation(44, "Ermor"),
            Either::Right(NationStatus::Human),
            Some(SubmissionStatus::Submitted)
        )])
    );
}

#[test]
fn reconcile_without_a_lobby_needs_no_catalog() {
    let game = vec![
        roster_details(roster_nation(50, "Marignon"), NationStatus::AI, SubmissionStatus::NotSubmitted),
        roster_details(roster_nation(43, "Arcoscephale"), NationStatus::Human, SubmissionStatus::NotSubmitted),
    ];
    let registered = vec![(roster_player(1), 43), (roster_player(2), 999)];
    assert_eq!(
        reconcile(RosterMode::StartedWithoutLobby, &registered, game, &Nations::new(Vec::new())),
        Ok(vec![
            roster_slot(
                roster_nation(43, "Arcoscephale"),
                Either::Left(roster_player(1)),
                Some(SubmissionStatus::NotSubmitted)
            ),
            roster_slot(
                roster_nation(50, "Marignon"),
                Either::Right(NationStatus::AI),
                Some(SubmissionStatus::Submitted)
            ),
        ])
    );
}

#[test]
fn reconcile_in_progress_shows_the_player_of_a_nation_that_the_ai_plays() {
    let game = vec![roster_details(
        roster_nation(50, "Marignon"),
        NationStatus::AI,
        SubmissionStatus::NotSubmitted,
    )];
    let registered = vec![(roster_player(7), 50)];
    let expected = Ok(vec![roster_slot(
        roster_nation(50, "Marignon"),
        Either::Left(roster_player(7)),
        Some(SubmissionStatus::Submitted),
    )]);
    assert_eq!(reconcile(RosterMode::Started, &registered, game.clone(), &roster_catalog()), expected);
    assert_eq!(
        reconcile(RosterMode::StartedWithoutLobby, &registered, game, &roster_catalog()),
        expected
    );
}

#[test]
fn reconcile_while_uploading_lists_the_reported_nations_only() {
    let game = vec![
        roster_details(roster_nation(50, "Marignon"), NationStatus::Human, SubmissionStatus::NotSubmitted),
        roster_details(roster_nation(43, "Arcoscephale"), NationStatus::Human, SubmissionStatus::NotSubmitted),
    ];
    let registered = vec![(roster_player(1), 44), (roster_player(2), 43), (roster_player(3), 999)];
    assert_eq!(
        reconcile(RosterMode::Uploading, &registered, game, &roster_catalog()),
        Ok(vec![
            roster_slot(
                roster_nation(50, "Marignon"),
                Either::Right(NationStatus::Human),
                Some(SubmissionStatus::Submitted)
            ),
            roster_slot(
                roster_nation(43, "Arcoscephale"),
                Either::Left(roster_player(2)),
                Some(SubmissionStatus::Submitted)
            ),
        ])
    );
}

#[test]
fn reconcile_fails_on_an_unlisted_nation_it_has_to_look_up() {
    let registered = vec![(roster_player(1), 999)];
    let unknown = Err(ServerError::UnknownNation { nation_id: 999 });
    let catalog = roster_catalog();
    assert_eq!(reconcile(RosterMode::Lobby { player_count: 2 }, &registered, Vec::new(), &catalog), unknown);
    assert_eq!(reconcile(RosterMode::Uploading, &registered, Vec::new(), &catalog), Ok(Vec::new()));
    assert_eq!(reconcile(RosterMode::Started, &registered, Vec::new(), &catalog), unknown);
    assert_eq!(reconcile(RosterMode::StartedWithoutLobby, &registered, Vec::new(), &catalog), Ok(Vec::new()));
}

#[test]
fn reconcile_twice_gives_the_same_roster() {
    let game = vec![
        roster_details(roster_nation(50, "Marignon"), NationStatus::AI, SubmissionStatus::NotSubmitted),
        roster_details(roster_nation(43, "Arcoscephale"), NationStatus::Human, SubmissionStatus::Submitted),
    ];
    let registered = vec![(roster_player(1), 43), (roster_player(2), 44), (roster_player(3), 999)];
    let catalog = roster_catalog();
    for mode in [
        RosterMode::Lobby { player_count: 4 },
        RosterMode::Uploading,
        RosterMode::Started,
        RosterMode::StartedWithoutLobby,
    ] {
        for signed_up in 0..=registered.len() {
            let first = reconcile(mode, &registered[..signed_up], game.clone(), &catalog);
            let second = reconcile(mode, &registered[..signed_up], game.clone(), &catalog);
            assert_eq!(first, second);
        }
    }
}
