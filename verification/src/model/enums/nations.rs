//! The catalog of nations.

use crate::model::enums::era::Era;
use crate::model::nation::Nation;
use crate::seq_facts::{lemma_filter_first, lemma_filter_take_step};
use crate::text::{lowercase, matches_lowered, name_matches};
use vstd::prelude::*;

verus! {

/// The nations that exist, in a fixed order.
#[derive(Debug, Clone, PartialEq)]
pub struct Nations {
    pub nations: Vec<Nation>,
}

/// The test that a nation has the id `id`.
pub open spec fn has_id(id: u32) -> spec_fn(Nation) -> bool {
    |nation: Nation| nation.id == id
}

/// The test that a nation has the id `id` and belongs to `era`.
pub open spec fn has_id_in_era(id: u32, era: Era) -> spec_fn(Nation) -> bool {
    |nation: Nation| nation.id == id && nation.era == era
}

/// The test that a nation's name begins with `typed`, upper and lower case aside, and
/// that it belongs to `era` where one is given.
pub open spec fn is_named(typed: Seq<char>, era: Option<Era>) -> spec_fn(Nation) -> bool {
    |nation: Nation|
        name_matches(nation.name@, typed) && (era matches Some(e) ==> nation.era == e)
}

/// The first of a sequence, if it has one.
pub open spec fn first_of<A>(s: Seq<A>) -> Option<A> {
    if s.len() == 0 {
        None
    } else {
        Some(s[0])
    }
}

impl View for Nations {
    type V = Seq<Nation>;

    open spec fn view(&self) -> Seq<Nation> {
        self.nations@
    }
}

impl Nations {
    /// The catalog that lists `nations` in the order given.
    pub fn new(nations: Vec<Nation>) -> (catalog: Nations)
        ensures
            catalog@ == nations@,
    {
        Nations { nations }
    }

    /// The first nation of the catalog with the id `id`.
    pub fn from_id(&self, id: u32) -> (found: Option<Nation>)
        ensures
            found == first_of(self@.filter(has_id(id))),
    {
        let ghost pred = has_id(id);
        let n = self.nations.len();
        let mut i: usize = 0;
        while i < n
            invariant
                n == self@.len(),
                pred == has_id(id),
                0 <= i <= n,
                self@.take(i as int).filter(pred).len() == 0,
            decreases n - i,
        {
            if self.nations[i].id == id {
                proof {
                    lemma_filter_first(self@, pred, i as int);
                }
                return Some(self.nations[i]);
            }
            proof {
                lemma_filter_take_step(self@, pred, i as int);
            }
            i += 1;
        }
        assert(self@.take(n as int) =~= self@);
        None
    }

    /// The first nation of `era` with the id `id`.
    pub fn from_id_in_era(&self, id: u32, era: Era) -> (found: Option<Nation>)
        ensures
            found == first_of(self@.filter(has_id_in_era(id, era))),
    {
        let ghost pred = has_id_in_era(id, era);
        let n = self.nations.len();
        let mut i: usize = 0;
        while i < n
            invariant
                n == self@.len(),
                pred == has_id_in_era(id, era),
                0 <= i <= n,
                self@.take(i as int).filter(pred).len() == 0,
            decreases n - i,
        {
            if self.nations[i].id == id && self.nations[i].era == era {
                proof {
                    lemma_filter_first(self@, pred, i as int);
                }
                return Some(self.nations[i]);
            }
            proof {
                lemma_filter_take_step(self@, pred, i as int);
            }
            i += 1;
        }
        assert(self@.take(n as int) =~= self@);
        None
    }

    /// The nations whose names begin with `name_prefix`, upper and lower case aside, in
    /// the catalog's order; with an era given, only the nations of that era.
    pub fn from_name_prefix(&self, name_prefix: &str, era: Option<Era>) -> (found: Vec<Nation>)
        ensures
            found@ == self@.filter(is_named(name_prefix@, era)),
    {
        let ghost pred = is_named(name_prefix@, era);
        let typed = name_prefix.to_lowercase();
        let mut found: Vec<Nation> = Vec::new();
        let n = self.nations.len();
        let mut i: usize = 0;
        assert(self@.take(0).filter(pred) =~= Seq::<Nation>::empty()) by {
            reveal(Seq::filter);
        }
        while i < n
            invariant
                n == self@.len(),
                pred == is_named(name_prefix@, era),
                typed@ == lowercase(name_prefix@),
                0 <= i <= n,
                found@ == self@.take(i as int).filter(pred),
            decreases n - i,
        {
            let nation = self.nations[i];
            let in_era = match era {
                Some(e) => nation.era == e,
                None => true,
            };
            let named = matches_lowered(nation.name, typed.as_str());
            proof {
                lemma_filter_take_step(self@, pred, i as int);
            }
            if named && in_era {
                found.push(nation);
            }
            i += 1;
        }
        assert(self@.take(n as int) =~= self@);
        found
    }
}

} // verus!
