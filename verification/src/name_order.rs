//! The order in which the nations of a running game are listed: by name, and among
//! nations of one name in the order in which the host reported them.

use crate::model::nation::NationDetails;
use vstd::prelude::*;

verus! {

/// Whether the text `a` comes no later than `b` in ordinal order: the texts are compared
/// code point by code point, and a text comes before every longer text that begins with
/// it. Neither language nor case has a say.
pub open spec fn ordinal_le(a: Seq<char>, b: Seq<char>) -> bool
    decreases a.len(),
{
    if a.len() == 0 {
        true
    } else if b.len() == 0 {
        false
    } else if a[0] == b[0] {
        ordinal_le(a.drop_first(), b.drop_first())
    } else {
        (a[0] as u32) < (b[0] as u32)
    }
}

/// `<=` on `str` compares the UTF-8 bytes of two texts lexicographically, which orders
/// them as their code points do.
#[verifier::external_body]
pub(crate) fn text_le(a: &str, b: &str) -> (le: bool)
    ensures
        le == ordinal_le(a@, b@),
{
    a <= b
}

/// Every text comes no later than itself.
pub proof fn lemma_ordinal_le_reflexive(a: Seq<char>)
    ensures
        ordinal_le(a, a),
    decreases a.len(),
{
    if a.len() > 0 {
        lemma_ordinal_le_reflexive(a.drop_first());
    }
}

/// Of two texts one comes no later than the other.
pub proof fn lemma_ordinal_le_total(a: Seq<char>, b: Seq<char>)
    ensures
        ordinal_le(a, b) || ordinal_le(b, a),
    decreases a.len(),
{
    if a.len() > 0 && b.len() > 0 {
        if a[0] == b[0] {
            lemma_ordinal_le_total(a.drop_first(), b.drop_first());
        } else {
            // different characters have different code points
            vstd::utf8::char_u32_cast(a[0], a[0] as u32);
            vstd::utf8::char_u32_cast(b[0], b[0] as u32);
        }
    }
}

/// The order carries over: no later than a text that is no later than a third.
pub proof fn lemma_ordinal_le_transitive(a: Seq<char>, b: Seq<char>, c: Seq<char>)
    requires
        ordinal_le(a, b),
        ordinal_le(b, c),
    ensures
        ordinal_le(a, c),
    decreases a.len(),
{
    if a.len() > 0 && b.len() > 0 && c.len() > 0 && a[0] == b[0] && b[0] == c[0] {
        lemma_ordinal_le_transitive(a.drop_first(), b.drop_first(), c.drop_first());
    }
}

/// Two texts that each come no later than the other are the same text.
pub proof fn lemma_ordinal_le_antisymmetric(a: Seq<char>, b: Seq<char>)
    requires
        ordinal_le(a, b),
        ordinal_le(b, a),
    ensures
        a == b,
    decreases a.len(),
{
    if a.len() > 0 && b.len() > 0 {
        lemma_ordinal_le_antisymmetric(a.drop_first(), b.drop_first());
        assert(a =~= seq![a[0]] + a.drop_first());
        assert(b =~= seq![b[0]] + b.drop_first());
    } else {
        assert(a =~= b);
    }
}

/// Whether the nation of `a` is listed no later than that of `b`.
pub open spec fn listed_before(a: NationDetails, b: NationDetails) -> bool {
    ordinal_le(a.nation.name@, b.nation.name@)
}

/// `listed` with `details` put in behind the last nation whose name comes no later.
pub open spec fn with_listed(listed: Seq<NationDetails>, details: NationDetails) -> Seq<
    NationDetails,
>
    decreases listed.len(),
{
    if listed.len() == 0 {
        seq![details]
    } else if listed_before(listed.last(), details) {
        listed.push(details)
    } else {
        with_listed(listed.drop_last(), details).push(listed.last())
    }
}

/// The nations of `reported` in the order of their names; nations of one name stay in
/// the order in which they were reported.
pub open spec fn in_name_order(reported: Seq<NationDetails>) -> Seq<NationDetails>
    decreases reported.len(),
{
    if reported.len() == 0 {
        reported
    } else {
        with_listed(in_name_order(reported.drop_last()), reported.last())
    }
}

/// Whether the names of a list never go back.
pub open spec fn is_in_name_order(listed: Seq<NationDetails>) -> bool {
    forall|i: int, j: int|
        0 <= i < j < listed.len() ==> listed_before(#[trigger] listed[i], #[trigger] listed[j])
}

/// The test that a nation is called `name`.
pub open spec fn is_called(name: Seq<char>) -> spec_fn(NationDetails) -> bool {
    |details: NationDetails| details.nation.name@ == name
}

/// Where every nation from `at` on comes later than `details`, and the one before `at`
/// does not, `details` is put in at `at`.
proof fn lemma_with_listed_at(listed: Seq<NationDetails>, details: NationDetails, at: int)
    requires
        0 <= at <= listed.len(),
        at > 0 ==> listed_before(listed[at - 1], details),
        forall|k: int| at <= k < listed.len() ==> !listed_before(#[trigger] listed[k], details),
    ensures
        with_listed(listed, details) == listed.insert(at, details),
    decreases listed.len(),
{
    if listed.len() == 0 {
        assert(listed.insert(at, details) =~= seq![details]);
    } else if at == listed.len() {
        assert(listed.insert(at, details) =~= listed.push(details));
    } else {
        assert(!listed_before(listed.last(), details));
        lemma_with_listed_at(listed.drop_last(), details, at);
        assert(listed.insert(at, details) =~= listed.drop_last().insert(at, details).push(
            listed.last(),
        ));
    }
}

/// Putting a nation into a list changes its length by one, and keeps every nation.
proof fn lemma_with_listed_holds(listed: Seq<NationDetails>, details: NationDetails)
    ensures
        with_listed(listed, details).len() == listed.len() + 1,
        with_listed(listed, details).to_multiset() == listed.to_multiset().insert(details),
    decreases listed.len(),
{
    broadcast use vstd::seq_lib::group_to_multiset_ensures;

    if listed.len() == 0 {
        assert(listed =~= Seq::<NationDetails>::empty());
        assert(seq![details] =~= Seq::<NationDetails>::empty().push(details));
    } else if listed_before(listed.last(), details) {
    } else {
        let front = listed.drop_last();
        lemma_with_listed_holds(front, details);
        assert(listed =~= front.push(listed.last()));
        assert(front.to_multiset().insert(details).insert(listed.last())
            =~= front.to_multiset().insert(listed.last()).insert(details));
    }
}

/// Putting a nation into a list in name order leaves it in name order.
proof fn lemma_with_listed_in_order(listed: Seq<NationDetails>, details: NationDetails)
    requires
        is_in_name_order(listed),
    ensures
        is_in_name_order(with_listed(listed, details)),
    decreases listed.len(),
{
    let after = with_listed(listed, details);
    if listed.len() == 0 {
    } else if listed_before(listed.last(), details) {
        assert forall|i: int, j: int| 0 <= i < j < after.len() implies listed_before(
            #[trigger] after[i],
            #[trigger] after[j],
        ) by {
            if j == listed.len() && i < listed.len() - 1 {
                assert(listed_before(listed[i], listed[listed.len() - 1]));
                lemma_ordinal_le_transitive(
                    listed[i].nation.name@,
                    listed.last().nation.name@,
                    details.nation.name@,
                );
            }
        }
    } else {
        let front = listed.drop_last();
        let last = listed.last();
        assert(is_in_name_order(front)) by {
            assert forall|i: int, j: int| 0 <= i < j < front.len() implies listed_before(
                #[trigger] front[i],
                #[trigger] front[j],
            ) by {
                assert(listed_before(listed[i], listed[j]));
            }
        }
        lemma_with_listed_in_order(front, details);
        lemma_with_listed_holds(front, details);
        let inner = with_listed(front, details);
        lemma_ordinal_le_total(last.nation.name@, details.nation.name@);
        assert forall|i: int, j: int| 0 <= i < j < after.len() implies listed_before(
            #[trigger] after[i],
            #[trigger] after[j],
        ) by {
            if j < inner.len() {
                assert(listed_before(inner[i], inner[j]));
            } else {
                // after[i] is a nation of `front`, or `details`: both come no later than `last`
                broadcast use vstd::seq_lib::group_to_multiset_ensures;

                assert(inner.to_multiset().count(inner[i]) > 0);
                if inner[i] != details {
                    assert(front.to_multiset().count(inner[i]) > 0);
                    assert(front.contains(inner[i]));
                    let k = choose|k: int| 0 <= k < front.len() && front[k] == inner[i];
                    assert(listed_before(listed[k], listed[listed.len() - 1]));
                }
            }
        }
    }
}

/// Putting a nation into a list puts it behind the listed nations of its own name, and
/// changes nothing among the nations of any other name.
proof fn lemma_with_listed_keeps_namesakes(
    listed: Seq<NationDetails>,
    details: NationDetails,
    name: Seq<char>,
)
    ensures
        with_listed(listed, details).filter(is_called(name)) == if details.nation.name@ == name {
            listed.filter(is_called(name)).push(details)
        } else {
            listed.filter(is_called(name))
        },
    decreases listed.len(),
{
    let called = is_called(name);
    if listed.len() == 0 {
        assert(listed =~= Seq::<NationDetails>::empty());
        assert(seq![details] =~= listed.push(details));
        listed.lemma_filter_push(details, called);
    } else if listed_before(listed.last(), details) {
        listed.lemma_filter_push(details, called);
    } else {
        let front = listed.drop_last();
        let last = listed.last();
        lemma_with_listed_keeps_namesakes(front, details, name);
        with_listed(front, details).lemma_filter_push(last, called);
        assert(listed =~= front.push(last));
        front.lemma_filter_push(last, called);
        if details.nation.name@ == name && last.nation.name@ == name {
            lemma_ordinal_le_reflexive(name);
        }
    }
}

/// The list in name order holds the reported nations, each as often as it was reported.
pub proof fn lemma_in_name_order_holds_the_same(reported: Seq<NationDetails>)
    ensures
        in_name_order(reported).len() == reported.len(),
        in_name_order(reported).to_multiset() == reported.to_multiset(),
    decreases reported.len(),
{
    broadcast use vstd::seq_lib::group_to_multiset_ensures;

    if reported.len() > 0 {
        let front = reported.drop_last();
        lemma_in_name_order_holds_the_same(front);
        lemma_with_listed_holds(in_name_order(front), reported.last());
        assert(reported =~= front.push(reported.last()));
    }
}

/// In the list in name order the names never go back.
pub proof fn lemma_in_name_order_is_ordered(reported: Seq<NationDetails>)
    ensures
        is_in_name_order(in_name_order(reported)),
    decreases reported.len(),
{
    if reported.len() > 0 {
        lemma_in_name_order_is_ordered(reported.drop_last());
        lemma_with_listed_in_order(in_name_order(reported.drop_last()), reported.last());
    }
}

/// The ordering is stable: the nations of any one name stand in the list in name order
/// as they stood in the report.
pub proof fn lemma_in_name_order_is_stable(reported: Seq<NationDetails>, name: Seq<char>)
    ensures
        in_name_order(reported).filter(is_called(name)) == reported.filter(is_called(name)),
    decreases reported.len(),
{
    if reported.len() == 0 {
    } else {
        let front = reported.drop_last();
        lemma_in_name_order_is_stable(front, name);
        lemma_with_listed_keeps_namesakes(in_name_order(front), reported.last(), name);
        assert(reported =~= front.push(reported.last()));
        front.lemma_filter_push(reported.last(), is_called(name));
    }
}

/// Puts the nations into the order of their names. Nations of one name keep the order
/// they had.
pub fn sort_by_name(nations: &mut Vec<NationDetails>)
    ensures
        final(nations)@ == in_name_order(old(nations)@),
{
    let n = nations.len();
    let mut listed: Vec<NationDetails> = Vec::new();
    let mut i: usize = 0;
    while i < n
        invariant
            n == nations@.len(),
            nations@ == old(nations)@,
            0 <= i <= n,
            listed@ == in_name_order(nations@.take(i as int)),
        decreases n - i,
    {
        let details = nations[i];
        let mut at: usize = listed.len();
        while at > 0 && !text_le(listed[at - 1].nation.name, details.nation.name)
            invariant
                0 <= at <= listed@.len(),
                forall|k: int|
                    at <= k < listed@.len() ==> !listed_before(#[trigger] listed@[k], details),
            decreases at,
        {
            at -= 1;
        }
        proof {
            lemma_with_listed_at(listed@, details, at as int);
            assert(nations@.take(i + 1).drop_last() =~= nations@.take(i as int));
        }
        listed.insert(at, details);
        i += 1;
    }
    assert(nations@.take(n as int) =~= nations@);
    *nations = listed;
}

} // verus!
