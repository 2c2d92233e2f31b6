//! Finding the nation that a player means.
//!
//! A player names a nation by the start of its name or by its id. In a lobby the nation
//! is looked for among the catalog's nations of the lobby's era; in a started game, among
//! the nations that the host reports. A name that fits several nations is refused: the
//! resolver never picks one of them.

use crate::error::{Scope, ServerError};
use crate::model::enums::nations::{has_id_in_era, is_named};
use crate::model::enums::{Era, Nations};
use crate::model::nation::{Nation, NationDetails};
use crate::seq_facts::{
    lemma_filter_first, lemma_filter_member, lemma_filter_take_step, lemma_filter_two,
};
use crate::text::{lowercase, matches_lowered, name_matches};
use either::Either;
use vstd::prelude::*;

verus! {

/// What a search for a nation comes to.
pub enum Resolution<T> {
    Found(T),
    NotFound,
    Ambiguous,
}

/// The test that the host reports a nation whose name begins with `typed`, upper and
/// lower case aside.
pub open spec fn reports_named(typed: Seq<char>) -> spec_fn(NationDetails) -> bool {
    |details: NationDetails| name_matches(details.nation.name@, typed)
}

/// The test that the host reports the nation with the id `id`.
pub open spec fn reports_id(id: u32) -> spec_fn(NationDetails) -> bool {
    |details: NationDetails| details.nation.id == id
}

/// The reported nations that `specifier` fits, in the host's order.
pub open spec fn candidates_in_game(
    specifier: Either<&str, u32>,
    game_nations: Seq<NationDetails>,
) -> Seq<NationDetails> {
    match specifier {
        Either::Left(typed) => game_nations.filter(reports_named(typed@)),
        Either::Right(id) => game_nations.filter(reports_id(id)),
    }
}

/// The catalog's nations of `era` that `specifier` fits, in the catalog's order.
pub open spec fn candidates_in_lobby(
    specifier: Either<&str, u32>,
    era: Era,
    catalog: Seq<Nation>,
) -> Seq<Nation> {
    match specifier {
        Either::Left(typed) => catalog.filter(is_named(typed@, Some(era))),
        Either::Right(id) => catalog.filter(has_id_in_era(id, era)),
    }
}

/// The choice among the candidates. No candidate: not found. One: that one. Several: a
/// name is ambiguous, while an id, which a scope holds once, takes the first.
pub open spec fn choice<T>(specifier: Either<&str, u32>, candidates: Seq<T>) -> Resolution<T> {
    if candidates.len() == 0 {
        Resolution::NotFound
    } else if candidates.len() == 1 || specifier is Right {
        Resolution::Found(candidates[0])
    } else {
        Resolution::Ambiguous
    }
}

/// What `specifier` resolves to among the nations that the host reports.
pub open spec fn resolution_in_game(
    specifier: Either<&str, u32>,
    game_nations: Seq<NationDetails>,
) -> Resolution<NationDetails> {
    choice(specifier, candidates_in_game(specifier, game_nations))
}

/// What `specifier` resolves to among the catalog's nations of `era`.
pub open spec fn resolution_in_lobby(
    specifier: Either<&str, u32>,
    era: Era,
    catalog: Seq<Nation>,
) -> Resolution<Nation> {
    choice(specifier, candidates_in_lobby(specifier, era, catalog))
}

/// That `error` reports `specifier` as not found in `scope`.
pub open spec fn reports_not_found(
    error: ServerError,
    specifier: Either<&str, u32>,
    scope: Scope,
) -> bool {
    match specifier {
        Either::Left(typed) => error.is_name_not_found(typed@, scope),
        Either::Right(id) => error.is_id_not_found(id, scope),
    }
}

/// That `error` reports `specifier` as ambiguous, and names it.
pub open spec fn reports_ambiguous(error: ServerError, specifier: Either<&str, u32>) -> bool {
    specifier matches Either::Left(typed) && error.is_ambiguous(typed@)
}

/// The error for a specifier that fits nothing in `scope`.
fn not_found(specifier: Either<&str, u32>, scope: Scope) -> (error: ServerError)
    ensures
        reports_not_found(error, specifier, scope),
{
    match specifier {
        Either::Left(typed) => ServerError::NotFound {
            specifier: Either::Left(typed.to_owned()),
            scope,
        },
        Either::Right(id) => ServerError::NotFound { specifier: Either::Right(id), scope },
    }
}

/// Resolves `nation_specifier` among the nations that the host reports of a started
/// game. `pre_game` says that the game still waits for pretenders; it is handed on in
/// the error, so that the user can be told to upload one first.
pub fn get_nation_for_started_server<'a>(
    nation_specifier: Either<&str, u32>,
    game_nations: &'a [NationDetails],
    pre_game: bool,
) -> (result: Result<&'a NationDetails, ServerError>)
    ensures
        match resolution_in_game(nation_specifier, game_nations@) {
            Resolution::Found(details) => result matches Ok(found) && *found == details,
            Resolution::NotFound => result matches Err(error) && reports_not_found(
                error,
                nation_specifier,
                Scope::Started { pre_game },
            ),
            Resolution::Ambiguous => result matches Err(error) && reports_ambiguous(
                error,
                nation_specifier,
            ),
        },
        result matches Ok(found) ==> game_nations@.contains(*found),
{
    let n = game_nations.len();
    match nation_specifier {
        Either::Left(typed) => {
            let ghost pred = reports_named(typed@);
            let wanted = typed.to_lowercase();
            let mut first: usize = 0;
            let mut seen: u8 = 0;
            let mut i: usize = 0;
            assert(game_nations@.take(0).filter(pred) =~= Seq::<NationDetails>::empty()) by {
                reveal(Seq::filter);
            }
            while i < n
                invariant
                    n == game_nations@.len(),
                    pred == reports_named(typed@),
                    wanted@ == lowercase(typed@),
                    0 <= i <= n,
                    seen <= 2,
                    seen < 2 ==> game_nations@.take(i as int).filter(pred).len() == seen,
                    seen == 2 ==> game_nations@.take(i as int).filter(pred).len() >= 2,
                    seen > 0 ==> first < i && game_nations@[first as int]
                        == game_nations@.take(i as int).filter(pred)[0],
                decreases n - i,
            {
                let named = matches_lowered(game_nations[i].nation.name, wanted.as_str());
                proof {
                    lemma_filter_take_step(game_nations@, pred, i as int);
                }
                if named {
                    if seen == 0 {
                        first = i;
                    }
                    if seen < 2 {
                        seen += 1;
                    }
                }
                i += 1;
            }
            assert(game_nations@.take(n as int) =~= game_nations@);
            if seen == 0 {
                Err(not_found(nation_specifier, Scope::Started { pre_game }))
            } else if seen == 1 {
                Ok(&game_nations[first])
            } else {
                Err(ServerError::Ambiguous { name_prefix: typed.to_owned() })
            }
        },
        Either::Right(id) => {
            let ghost pred = reports_id(id);
            let mut i: usize = 0;
            assert(game_nations@.take(0).filter(pred) =~= Seq::<NationDetails>::empty()) by {
                reveal(Seq::filter);
            }
            while i < n
                invariant
                    n == game_nations@.len(),
                    pred == reports_id(id),
                    nation_specifier == Either::<&str, u32>::Right(id),
                    0 <= i <= n,
                    game_nations@.take(i as int).filter(pred).len() == 0,
                decreases n - i,
            {
                if game_nations[i].nation.id == id {
                    proof {
                        lemma_filter_first(game_nations@, pred, i as int);
                    }
                    return Ok(&game_nations[i]);
                }
                proof {
                    lemma_filter_take_step(game_nations@, pred, i as int);
                }
                i += 1;
            }
            assert(game_nations@.take(n as int) =~= game_nations@);
            Err(not_found(nation_specifier, Scope::Started { pre_game }))
        },
    }
}

/// Resolves `nation_specifier` among the nations that `catalog` lists for `era`.
pub fn get_nation_for_lobby(
    nation_specifier: Either<&str, u32>,
    era: Era,
    catalog: &Nations,
) -> (result: Result<Nation, ServerError>)
    ensures
        match resolution_in_lobby(nation_specifier, era, catalog@) {
            Resolution::Found(nation) => result == Ok::<Nation, ServerError>(nation),
            Resolution::NotFound => result matches Err(error) && reports_not_found(
                error,
                nation_specifier,
                Scope::Lobby(era),
            ),
            Resolution::Ambiguous => result matches Err(error) && reports_ambiguous(
                error,
                nation_specifier,
            ),
        },
        result matches Ok(nation) ==> nation.era == era && catalog@.contains(nation),
{
    proof {
        lemma_lobby_resolution_in_scope(nation_specifier, era, catalog@);
    }
    match nation_specifier {
        Either::Left(typed) => {
            let nations = catalog.from_name_prefix(typed, Some(era));
            if nations.len() == 0 {
                Err(not_found(nation_specifier, Scope::Lobby(era)))
            } else if nations.len() == 1 {
                Ok(nations[0])
            } else {
                Err(ServerError::Ambiguous { name_prefix: typed.to_owned() })
            }
        },
        Either::Right(id) => {
            match catalog.from_id_in_era(id, era) {
                Some(nation) => Ok(nation),
                None => Err(not_found(nation_specifier, Scope::Lobby(era))),
            }
        },
    }
}

/// A nation resolved in a started game is one of the nations that the host reports, and
/// it is one that the specifier fits.
pub proof fn lemma_game_resolution_in_scope(
    specifier: Either<&str, u32>,
    game_nations: Seq<NationDetails>,
)
    ensures
        resolution_in_game(specifier, game_nations) matches Resolution::Found(details) ==> {
            &&& game_nations.contains(details)
            &&& match specifier {
                Either::Left(typed) => name_matches(details.nation.name@, typed@),
                Either::Right(id) => details.nation.id == id,
            }
        },
{
    if candidates_in_game(specifier, game_nations).len() > 0 {
        match specifier {
            Either::Left(typed) => lemma_filter_member(game_nations, reports_named(typed@), 0),
            Either::Right(id) => lemma_filter_member(game_nations, reports_id(id), 0),
        }
    }
}

/// A nation resolved for a lobby is one of the catalog's nations, belongs to the lobby's
/// era, and is one that the specifier fits.
pub proof fn lemma_lobby_resolution_in_scope(
    specifier: Either<&str, u32>,
    era: Era,
    catalog: Seq<Nation>,
)
    ensures
        resolution_in_lobby(specifier, era, catalog) matches Resolution::Found(nation) ==> {
            &&& catalog.contains(nation)
            &&& nation.era == era
            &&& match specifier {
                Either::Left(typed) => name_matches(nation.name@, typed@),
                Either::Right(id) => nation.id == id,
            }
        },
{
    if candidates_in_lobby(specifier, era, catalog).len() > 0 {
        match specifier {
            Either::Left(typed) => lemma_filter_member(catalog, is_named(typed@, Some(era)), 0),
            Either::Right(id) => lemma_filter_member(catalog, has_id_in_era(id, era), 0),
        }
    }
}

/// A name is never resolved by picking: where two of the nations that the host reports
/// both begin with what was typed, the resolution is ambiguous.
pub proof fn lemma_shared_prefix_is_ambiguous_in_game(
    typed: &str,
    game_nations: Seq<NationDetails>,
    i: int,
    j: int,
)
    requires
        0 <= i < j < game_nations.len(),
        name_matches(game_nations[i].nation.name@, typed@),
        name_matches(game_nations[j].nation.name@, typed@),
    ensures
        resolution_in_game(Either::Left(typed), game_nations) is Ambiguous,
{
    lemma_filter_two(game_nations, reports_named(typed@), i, j);
}

/// A name is never resolved by picking: where two of the catalog's nations of the
/// lobby's era both begin with what was typed, the resolution is ambiguous.
pub proof fn lemma_shared_prefix_is_ambiguous_in_lobby(
    typed: &str,
    era: Era,
    catalog: Seq<Nation>,
    i: int,
    j: int,
)
    requires
        0 <= i < j < catalog.len(),
        catalog[i].era == era,
        catalog[j].era == era,
        name_matches(catalog[i].name@, typed@),
        name_matches(catalog[j].name@, typed@),
    ensures
        resolution_in_lobby(Either::Left(typed), era, catalog) is Ambiguous,
{
    lemma_filter_two(catalog, is_named(typed@, Some(era)), i, j);
}

} // verus!
