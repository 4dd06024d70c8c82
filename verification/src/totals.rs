//! Bags and their totals. A bag is a list of entries, each a name with its
//! items; the totals say how many fruits and how many vegetables a bag holds.

use vstd::prelude::*;

use crate::codec::same_text;

verus! {

/// How many of each kind a bag holds.
#[derive(Clone, Copy, Debug, PartialEq, Eq, Structural)]
pub struct Totals {
    pub fruits: usize,
    pub vegetables: usize,
}

/// How many items the bag holds under `name`: the length of the first entry
/// with that name, and zero where there is none.
pub open spec fn member_count(entries: Seq<(Seq<char>, Seq<Seq<char>>)>, name: Seq<char>) -> nat
    decreases entries.len(),
{
    if entries.len() == 0 {
        0
    } else if entries[0].0 == name {
        entries[0].1.len()
    } else {
        member_count(entries.drop_first(), name)
    }
}

/// The totals of a bag: its fruits and its vegetables.
pub open spec fn totals_of(entries: Seq<(Seq<char>, Seq<Seq<char>>)>) -> Totals {
    Totals {
        fruits: member_count(entries, "fruits"@) as usize,
        vegetables: member_count(entries, "vegetables"@) as usize,
    }
}

/// A name that no entry has counts zero.
pub proof fn lemma_absent_member_counts_zero(
    entries: Seq<(Seq<char>, Seq<Seq<char>>)>,
    name: Seq<char>,
)
    requires
        forall|i: int| 0 <= i < entries.len() ==> (#[trigger] entries[i]).0 != name,
    ensures
        member_count(entries, name) == 0,
    decreases entries.len(),
{
    if entries.len() > 0 {
        let rest = entries.drop_first();
        assert forall|i: int| 0 <= i < rest.len() implies (#[trigger] rest[i]).0 != name by {
            assert(rest[i] == entries[i + 1]);
        }
        lemma_absent_member_counts_zero(rest, name);
    }
}

/// A bag without fruits and without vegetables has the totals zero and zero.
pub proof fn lemma_absent_kinds_total_zero(entries: Seq<(Seq<char>, Seq<Seq<char>>)>)
    requires
        forall|i: int|
            0 <= i < entries.len() ==> (#[trigger] entries[i]).0 != "fruits"@ && entries[i].0
                != "vegetables"@,
    ensures
        totals_of(entries) == (Totals { fruits: 0, vegetables: 0 }),
{
    lemma_absent_member_counts_zero(entries, "fruits"@);
    lemma_absent_member_counts_zero(entries, "vegetables"@);
}

/// Counts the items that the bag holds under `name`.
pub fn count_members(bag: &Vec<(String, Vec<String>)>, name: &str) -> (count: usize)
    ensures
        count == member_count(bag.deep_view(), name@),
{
    let ghost entries = bag.deep_view();
    assert(entries.skip(0) == entries);
    let mut i: usize = 0;
    while i < bag.len()
        invariant
            i <= bag.len(),
            entries == bag.deep_view(),
            member_count(entries, name@) == member_count(entries.skip(i as int), name@),
        decreases bag.len() - i,
    {
        let ghost rest = entries.skip(i as int);
        assert(rest[0] == entries[i as int]);
        assert(entries[i as int] == (bag@[i as int].0@, bag@[i as int].1.deep_view()));
        assert(rest.drop_first() == entries.skip(i + 1));
        if same_text(bag[i].0.as_str(), name) {
            return bag[i].1.len();
        }
        i = i + 1;
    }
    0
}

/// Takes the totals of a bag.
pub fn tally(bag: &Vec<(String, Vec<String>)>) -> (totals: Totals)
    ensures
        totals == totals_of(bag.deep_view()),
{
    Totals { fruits: count_members(bag, "fruits"), vegetables: count_members(bag, "vegetables") }
}

} // verus!
