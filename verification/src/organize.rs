//! The organizer: keeps the events of the queried user, orders them by day
//! and repository, and collects runs of equal day and repository into groups.

use vstd::prelude::*;
use vstd::string::*;
use crate::key::{key_order, lemma_key_order_flip, lemma_key_order_zero, same_key};
use crate::model::{Event, EventKind, Group, is_calendar_day};
use crate::sorting::{is_stable_sort, ordered, sort_events};
use crate::text::same_text;

verus! {

/// Whether an event is reported for `user`: it is no deletion, and `user`
/// is exactly the login of its actor.
pub open spec fn keeps(e: Event, user: Seq<char>) -> bool {
    !(e.kind is Delete) && e.actor_login@ == user
}

/// The events of `s` that are reported for `user`, in their order.
pub open spec fn retained(s: Seq<Event>, user: Seq<char>) -> Seq<Event>
    decreases s.len(),
{
    if s.len() == 0 {
        Seq::empty()
    } else if keeps(s.last(), user) {
        retained(s.drop_last(), user).push(s.last())
    } else {
        retained(s.drop_last(), user)
    }
}

/// Whether an event is reported for `user`.
pub fn is_reported(event: &Event, user: &str) -> (r: bool)
    ensures
        r == keeps(*event, user@),
{
    let deletion = match &event.kind {
        EventKind::Delete => true,
        _ => false,
    };
    !deletion && same_text(event.actor_login.as_str(), user)
}

/// Keeps the events that are reported for `user`, in their order.
pub fn filter_events(events: Vec<Event>, user: &str) -> (r: Vec<Event>)
    ensures
        r@ == retained(events@, user@),
{
    let ghost all = events@;
    let mut out: Vec<Event> = Vec::new();
    for e in it: events
        invariant
            it.seq() == all,
            out@ == retained(all.take(it.index() as int), user@),
    {
        proof {
            let k = it.index() as int;
            assert(all.take(k + 1).drop_last() =~= all.take(k));
        }
        if is_reported(&e, user) {
            out.push(e);
        }
    }
    assert(all.take(all.len() as int) =~= all);
    out
}

/// Filtering what was filtered changes nothing.
pub proof fn lemma_filter_idempotent(s: Seq<Event>, user: Seq<char>)
    ensures
        retained(retained(s, user), user) == retained(s, user),
    decreases s.len(),
{
    if s.len() > 0 {
        lemma_filter_idempotent(s.drop_last(), user);
        if keeps(s.last(), user) {
            let r = retained(s.drop_last(), user);
            assert(r.push(s.last()).drop_last() =~= r);
        }
    }
}

/// Every event that the filter keeps is reported for the user: the user is
/// its actor, and it is no deletion.
pub proof fn lemma_retained_are_reported(s: Seq<Event>, user: Seq<char>)
    ensures
        forall|i: int|
            0 <= i < retained(s, user).len() ==> keeps(#[trigger] retained(s, user)[i], user),
    decreases s.len(),
{
    if s.len() > 0 {
        let before = retained(s.drop_last(), user);
        lemma_retained_are_reported(s.drop_last(), user);
        assert forall|i: int| 0 <= i < retained(s, user).len() implies keeps(
            #[trigger] retained(s, user)[i],
            user,
        ) by {
            if i < before.len() {
                assert(retained(s, user)[i] == before[i]);
            }
        }
    }
}

/// A group as contracts see it: its day, its repository and its events.
pub ghost struct Run {
    pub day: int,
    pub repo: Seq<char>,
    pub events: Seq<Event>,
}

impl View for Group {
    type V = Run;

    open spec fn view(&self) -> Run {
        Run { day: self.day as int, repo: self.repo_name@, events: self.events@ }
    }
}

/// The views of a sequence of groups, one for one.
pub open spec fn group_views(groups: Seq<Group>) -> Seq<Run> {
    Seq::new(groups.len(), |i: int| groups[i]@)
}

/// Whether an event falls on the day and in the repository of a run.
pub open spec fn joins(r: Run, e: Event) -> bool {
    r.day == e.day && r.repo == e.repo_name@
}

/// The run that holds one event alone.
pub open spec fn run_of(e: Event) -> Run {
    Run { day: e.day as int, repo: e.repo_name@, events: seq![e] }
}

/// A run with one more event at its end.
pub open spec fn extended(r: Run, e: Event) -> Run {
    Run { day: r.day, repo: r.repo, events: r.events.push(e) }
}

/// The events of `s` collected into runs: each event joins the run of the
/// event before it where both share day and repository, and else begins a
/// new run.
pub open spec fn runs(s: Seq<Event>) -> Seq<Run>
    decreases s.len(),
{
    if s.len() == 0 {
        Seq::empty()
    } else {
        let before = runs(s.drop_last());
        if before.len() > 0 && joins(before.last(), s.last()) {
            before.drop_last().push(extended(before.last(), s.last()))
        } else {
            before.push(run_of(s.last()))
        }
    }
}

/// The events of a sequence of runs, one run after the other.
pub open spec fn flattened(rs: Seq<Run>) -> Seq<Event>
    decreases rs.len(),
{
    if rs.len() == 0 {
        Seq::empty()
    } else {
        flattened(rs.drop_last()) + rs.last().events
    }
}

/// Collects the events into groups, one for each run of events that share
/// day and repository.
pub fn group_events(events: Vec<Event>) -> (r: Vec<Group>)
    ensures
        group_views(r@) == runs(events@),
{
    let ghost all = events@;
    let mut done: Vec<Group> = Vec::new();
    let mut day: i32 = 0;
    let mut repo: String = String::new();
    let mut members: Vec<Event> = Vec::new();
    for e in it: events
        invariant
            it.seq() == all,
            members@.len() == 0 ==> it.index() == 0 && done@.len() == 0,
            members@.len() > 0 ==> group_views(done@).push(
                Run { day: day as int, repo: repo@, events: members@ },
            ) == runs(all.take(it.index() as int)),
    {
        let ghost k = it.index() as int;
        let ghost before = runs(all.take(k));
        let ghost current = Run { day: day as int, repo: repo@, events: members@ };
        proof {
            assert(all.take(k + 1).drop_last() =~= all.take(k));
            assert(all.take(k + 1).last() == e);
        }
        if members.len() > 0 && e.day == day && same_text(e.repo_name.as_str(), repo.as_str()) {
            members.push(e);
            proof {
                assert(before.drop_last() =~= group_views(done@));
                assert(before.last() == current);
            }
        } else {
            if members.len() > 0 {
                let ghost views = group_views(done@);
                done.push(Group { day, repo_name: repo, events: members });
                assert(group_views(done@) =~= views.push(current));
            } else {
                assert(group_views(done@) =~= before);
            }
            day = e.day;
            repo = e.repo_name.clone();
            members = Vec::new();
            members.push(e);
            assert(members@ =~= seq![e]);
        }
    }
    assert(all.take(all.len() as int) =~= all);
    if members.len() > 0 {
        let ghost views = group_views(done@);
        let ghost current = Run { day: day as int, repo: repo@, events: members@ };
        done.push(Group { day, repo_name: repo, events: members });
        assert(group_views(done@) =~= views.push(current));
    } else {
        assert(group_views(done@) =~= runs(all));
    }
    done
}

/// Whether the calendar can name the day of every event.
pub open spec fn events_in_calendar(s: Seq<Event>) -> bool {
    forall|i: int| 0 <= i < s.len() ==> is_calendar_day((#[trigger] s[i]).day as int)
}

/// Whether the calendar can name the day of every run.
pub open spec fn runs_in_calendar(rs: Seq<Run>) -> bool {
    forall|g: int| 0 <= g < rs.len() ==> is_calendar_day((#[trigger] rs[g]).day)
}

/// Keeps the events reported for `user`, orders them by day and repository
/// with a stable sort, and collects them into groups: the events of the
/// groups, one group after the other, are the stable sort of the events
/// kept, and the groups are the runs of that sequence. The days of the
/// groups are in the calendar exactly when those of the events kept are.
pub fn organize(events: Vec<Event>, user: &str) -> (r: Vec<Group>)
    ensures
        is_stable_sort(flattened(group_views(r@)), retained(events@, user@)),
        group_views(r@) == runs(flattened(group_views(r@))),
        runs_in_calendar(group_views(r@)) <==> events_in_calendar(retained(events@, user@)),
{
    let kept = filter_events(events, user);
    let ghost before = kept@;
    let sorted = sort_events(kept);
    proof {
        lemma_runs_flatten(sorted@);
        lemma_runs_days(sorted@);
        lemma_same_events_same_days(sorted@, before);
    }
    group_events(sorted)
}

/// Whether some event of `s` falls on the day and in the repository of `r`.
pub open spec fn occurs_in(r: Run, s: Seq<Event>) -> bool {
    exists|p: int| 0 <= p < s.len() && joins(r, #[trigger] s[p])
}

/// The shape of the runs of any sequence: there are none only for no
/// events; the last event is of the last run; no run is empty, and each
/// holds only events of its own day and repository, at least one of which
/// stands in the sequence; and two runs that follow each other differ in
/// day or repository.
pub proof fn lemma_runs_shape(s: Seq<Event>)
    ensures
        (runs(s).len() == 0) == (s.len() == 0),
        s.len() > 0 ==> joins(runs(s).last(), s.last()),
        forall|g: int|
            0 <= g < runs(s).len() ==> (#[trigger] runs(s)[g]).events.len() > 0 && occurs_in(
                runs(s)[g],
                s,
            ),
        forall|g: int, k: int|
            0 <= g < runs(s).len() && 0 <= k < runs(s)[g].events.len() ==> joins(
                runs(s)[g],
                #[trigger] runs(s)[g].events[k],
            ),
        forall|g: int|
            0 < g < runs(s).len() ==> !(runs(s)[g - 1].day == (#[trigger] runs(s)[g]).day
                && runs(s)[g - 1].repo == runs(s)[g].repo),
    decreases s.len(),
{
    if s.len() > 0 {
        let t = s.drop_last();
        let e = s.last();
        let before = runs(t);
        lemma_runs_shape(t);
        assert forall|g: int| 0 <= g < runs(s).len() implies (#[trigger] runs(s)[g]).events.len()
            > 0 && occurs_in(runs(s)[g], s) by {
            if g < before.len() && !(g == before.len() - 1 && joins(before.last(), e)) {
                assert(runs(s)[g] == before[g]);
                let p = choose|p: int| 0 <= p < t.len() && joins(before[g], #[trigger] t[p]);
                assert(s[p] == t[p]);
            } else {
                assert(joins(runs(s)[g], s[s.len() - 1]));
            }
        }
    }
}

/// Flattening the runs of a sequence gives the sequence back: no event is
/// lost, repeated or moved.
pub proof fn lemma_runs_flatten(s: Seq<Event>)
    ensures
        flattened(runs(s)) == s,
    decreases s.len(),
{
    if s.len() > 0 {
        let t = s.drop_last();
        let e = s.last();
        let before = runs(t);
        lemma_runs_flatten(t);
        if before.len() > 0 && joins(before.last(), e) {
            let head = before.drop_last();
            let last = extended(before.last(), e);
            assert(head.push(last).drop_last() =~= head);
            assert(flattened(runs(s)) =~= (flattened(head) + before.last().events).push(e));
        } else {
            assert(before.push(run_of(e)).drop_last() =~= before);
            assert(flattened(runs(s)) =~= flattened(before).push(e));
        }
        assert(t.push(e) =~= s);
    }
}

/// In the runs of an ordered sequence no two runs share day and repository:
/// events of one day and repository all stand in one group.
pub proof fn lemma_runs_distinct(s: Seq<Event>)
    requires
        ordered(s),
    ensures
        forall|g: int, h: int|
            0 <= g < h < runs(s).len() ==> !((#[trigger] runs(s)[g]).day == (#[trigger] runs(
                s,
            )[h]).day && runs(s)[g].repo == runs(s)[h].repo),
    decreases s.len(),
{
    if s.len() > 0 {
        let t = s.drop_last();
        let e = s.last();
        let before = runs(t);
        assert(ordered(t)) by {
            assert forall|i: int, j: int| 0 <= i < j < t.len() implies key_order(t[i], t[j])
                <= 0 by {
                assert(t[i] == s[i] && t[j] == s[j]);
            }
        }
        lemma_runs_distinct(t);
        lemma_runs_shape(t);
        if !(before.len() > 0 && joins(before.last(), e)) {
            assert forall|g: int| 0 <= g < before.len() implies !joins(#[trigger] before[g], e) by {
                if joins(before[g], e) {
                    let p = choose|p: int| 0 <= p < t.len() && joins(before[g], #[trigger] t[p]);
                    let q = t.len() - 1;
                    assert(t[p] == s[p] && t[q] == s[q]);
                    assert(same_key(s[p], e));
                    if p < q {
                        assert(key_order(s[p], s[q]) <= 0);
                        assert(key_order(s[q], s[s.len() - 1]) <= 0);
                        assert(key_order(s[p], s[q]) == key_order(e, s[q]));
                        lemma_key_order_flip(e, s[q]);
                        lemma_key_order_zero(s[q], e);
                    }
                    assert(same_key(s[q], e));
                    assert(joins(before.last(), e));
                }
            }
        }
    }
}

/// Whether some run of `rs` has the day and the repository of `e`.
pub open spec fn has_run(rs: Seq<Run>, e: Event) -> bool {
    exists|g: int| 0 <= g < rs.len() && joins(#[trigger] rs[g], e)
}

/// Every event of a sequence has a run of its day and repository.
pub proof fn lemma_runs_cover(s: Seq<Event>)
    ensures
        forall|p: int| 0 <= p < s.len() ==> has_run(runs(s), #[trigger] s[p]),
    decreases s.len(),
{
    if s.len() > 0 {
        let t = s.drop_last();
        let e = s.last();
        let before = runs(t);
        lemma_runs_cover(t);
        lemma_runs_shape(s);
        assert forall|p: int| 0 <= p < s.len() implies has_run(runs(s), #[trigger] s[p]) by {
            if p < t.len() {
                assert(s[p] == t[p]);
                let g = choose|g: int| 0 <= g < before.len() && joins(#[trigger] before[g], t[p]);
                assert(joins(runs(s)[g], s[p]));
            } else {
                assert(joins(runs(s)[runs(s).len() - 1], s[p]));
            }
        }
    }
}

/// The days of the runs of a sequence are in the calendar exactly when the
/// days of its events are.
pub proof fn lemma_runs_days(s: Seq<Event>)
    ensures
        runs_in_calendar(runs(s)) <==> events_in_calendar(s),
{
    lemma_runs_shape(s);
    lemma_runs_cover(s);
    if events_in_calendar(s) {
        assert forall|g: int| 0 <= g < runs(s).len() implies is_calendar_day(
            (#[trigger] runs(s)[g]).day,
        ) by {
            assert(occurs_in(runs(s)[g], s));
            let p = choose|p: int| 0 <= p < s.len() && joins(runs(s)[g], #[trigger] s[p]);
            assert(is_calendar_day(s[p].day as int));
        }
    }
    if runs_in_calendar(runs(s)) {
        assert forall|p: int| 0 <= p < s.len() implies is_calendar_day(
            (#[trigger] s[p]).day as int,
        ) by {
            assert(has_run(runs(s), s[p]));
            let g = choose|g: int| 0 <= g < runs(s).len() && joins(#[trigger] runs(s)[g], s[p]);
            assert(is_calendar_day(runs(s)[g].day));
        }
    }
}

/// Two sequences that hold the same events as often agree on whether the
/// days of their events are in the calendar.
pub proof fn lemma_same_events_same_days(a: Seq<Event>, b: Seq<Event>)
    requires
        a.to_multiset() == b.to_multiset(),
    ensures
        events_in_calendar(a) == events_in_calendar(b),
{
    a.to_multiset_ensures();
    b.to_multiset_ensures();
    if events_in_calendar(b) {
        assert forall|i: int| 0 <= i < a.len() implies is_calendar_day(
            (#[trigger] a[i]).day as int,
        ) by {
            assert(a.contains(a[i]));
            assert(a.to_multiset().count(a[i]) > 0);
            assert(b.to_multiset().count(a[i]) > 0);
            assert(b.contains(a[i]));
            let j = choose|j: int| 0 <= j < b.len() && b[j] == a[i];
            assert(is_calendar_day(b[j].day as int));
        }
    }
    if events_in_calendar(a) {
        assert forall|i: int| 0 <= i < b.len() implies is_calendar_day(
            (#[trigger] b[i]).day as int,
        ) by {
            assert(b.contains(b[i]));
            assert(b.to_multiset().count(b[i]) > 0);
            assert(a.to_multiset().count(b[i]) > 0);
            assert(a.contains(b[i]));
            let j = choose|j: int| 0 <= j < a.len() && a[j] == b[i];
            assert(is_calendar_day(a[j].day as int));
        }
    }
}

} // verus!
