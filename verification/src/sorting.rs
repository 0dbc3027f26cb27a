//! Ordering the events by day and repository, keeping the feed's order among
//! events of one day and repository.

use std::cmp::Ordering;
use vstd::prelude::*;
use crate::key::{event_order, key_order};
use crate::model::Event;

verus! {

/// Whether no event of `s` stands before one that its key puts first.
pub open spec fn ordered(s: Seq<Event>) -> bool {
    forall|i: int, j: int| 0 <= i < j < s.len() ==> key_order(s[i], s[j]) <= 0
}

/// The events of `s` on the given day in the given repository, in their order.
pub open spec fn with_key(s: Seq<Event>, day: int, repo: Seq<char>) -> Seq<Event> {
    s.filter(|e: Event| e.day == day && e.repo_name@ == repo)
}

/// Whether `sorted` is `feed` put in order by a stable sort: it is ordered,
/// holds the same events as often, and the events of each day and
/// repository stand in it as they stood in `feed`.
pub open spec fn is_stable_sort(sorted: Seq<Event>, feed: Seq<Event>) -> bool {
    &&& ordered(sorted)
    &&& sorted.to_multiset() == feed.to_multiset()
    &&& forall|day: int, repo: Seq<char>| #[trigger]
        with_key(sorted, day, repo) == with_key(feed, day, repo)
}

/// The comparison by which the events are sorted.
pub fn compare_events(a: &Event, b: &Event) -> (r: Ordering)
    ensures
        r is Less <==> key_order(*a, *b) < 0,
        r is Equal <==> key_order(*a, *b) == 0,
        r is Greater <==> key_order(*a, *b) > 0,
{
    let sign: i8 = event_order(a, b);
    if sign < 0 {
        Ordering::Less
    } else if sign > 0 {
        Ordering::Greater
    } else {
        Ordering::Equal
    }
}

/// `itertools::Itertools::sorted_by` with `compare_events` as the comparison.
/// It is a stable sort: the result holds the events of the argument in
/// ascending order by that comparison, and events that compare as equal keep
/// the order they had.
#[verifier::external_body]
fn stable_sort(events: Vec<Event>) -> (r: Vec<Event>)
    ensures
        is_stable_sort(r@, events@),
{
    itertools::Itertools::sorted_by(events.into_iter(), |a, b| compare_events(a, b)).collect()
}

/// Orders the events by day, then by repository name, keeping the order of
/// events that share both.
pub fn sort_events(events: Vec<Event>) -> (r: Vec<Event>)
    ensures
        is_stable_sort(r@, events@),
{
    stable_sort(events)
}

} // verus!
