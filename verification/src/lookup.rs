//! Finding the first entry that answers to a title.
//!
//! Titles are not unique in any store. Every lookup by title resolves to the
//! first entry, in the store's own order, whose title is exactly the one
//! asked for.

use vstd::prelude::*;

verus! {

/// `i` is the first position in `titles` that holds exactly `wanted`.
pub open spec fn is_first_match(titles: Seq<Option<Seq<char>>>, wanted: Seq<char>, i: int) -> bool {
    &&& 0 <= i < titles.len()
    &&& titles[i] == Some(wanted)
    &&& forall|j: int| 0 <= j < i ==> #[trigger] titles[j] != Some(wanted)
}

/// The first position in `titles` that holds exactly `wanted`, if any does.
/// The comparison is character by character: case counts, nothing is
/// trimmed.
pub open spec fn first_match(titles: Seq<Option<Seq<char>>>, wanted: Seq<char>) -> Option<int> {
    if exists|i: int| is_first_match(titles, wanted, i) {
        Some(choose|i: int| is_first_match(titles, wanted, i))
    } else {
        None
    }
}

/// At most one position is the first.
pub proof fn first_match_at(titles: Seq<Option<Seq<char>>>, wanted: Seq<char>, i: int)
    requires
        is_first_match(titles, wanted, i),
    ensures
        first_match(titles, wanted) == Some(i),
{
    let k = choose|k: int| is_first_match(titles, wanted, k);
    if k < i {
        assert(titles[k] != Some(wanted));
    } else if i < k {
        assert(titles[i] != Some(wanted));
    }
}

/// Where no position holds `wanted`, none is the first.
pub proof fn first_match_none(titles: Seq<Option<Seq<char>>>, wanted: Seq<char>)
    requires
        forall|j: int| 0 <= j < titles.len() ==> #[trigger] titles[j] != Some(wanted),
    ensures
        first_match(titles, wanted) is None,
{
    if exists|i: int| is_first_match(titles, wanted, i) {
        let k = choose|k: int| is_first_match(titles, wanted, k);
        assert(titles[k] != Some(wanted));
    }
}

/// What `first_match` returns is a first match.
pub proof fn first_match_is_first(titles: Seq<Option<Seq<char>>>, wanted: Seq<char>)
    ensures
        match first_match(titles, wanted) {
            Some(i) => is_first_match(titles, wanted, i),
            None => forall|j: int| 0 <= j < titles.len() ==> #[trigger] titles[j] != Some(wanted),
        },
{
    if first_match(titles, wanted) is None {
        assert forall|j: int| 0 <= j < titles.len() implies #[trigger] titles[j] != Some(
            wanted,
        ) by {
            if titles[j] == Some(wanted) {
                least_match(titles, wanted, j);
            }
        }
    }
}

/// Below any position that holds `wanted` lies a first one.
pub proof fn least_match(titles: Seq<Option<Seq<char>>>, wanted: Seq<char>, j: int)
    requires
        0 <= j < titles.len(),
        titles[j] == Some(wanted),
    ensures
        exists|i: int| is_first_match(titles, wanted, i),
    decreases j,
{
    if exists|k: int| 0 <= k < j && titles[k] == Some(wanted) {
        let k = choose|k: int| 0 <= k < j && titles[k] == Some(wanted);
        least_match(titles, wanted, k);
    } else {
        assert(is_first_match(titles, wanted, j));
    }
}

} // verus!
