//! The printer: from the groups to the text of the timeline, line by line.

use vstd::prelude::*;
use vstd::string::*;
use crate::classify::{classified, process_event};
use crate::model::{
    Event, Failure, FailureText, Group, Line, MAX_DAY, MIN_DAY, is_calendar_day, line_views,
};
use crate::organize::{
    Run, events_in_calendar, flattened, group_views, organize, retained, runs, runs_in_calendar,
};
use crate::sorting::is_stable_sort;

verus! {

/// The date of a day with its weekday, such as `2024-01-05 (Fri)`, as the
/// calendar writes it.
pub uninterp spec fn day_label(day: int) -> Seq<char>;

/// `chrono::NaiveDate::from_num_days_from_ce_opt`, then `NaiveDate::format`
/// with the pattern `%Y-%m-%d (%a)`. The first gives a date exactly for the
/// days of the years -262143 to 262142; the text that the second writes for
/// that date depends on the day alone, and is named `day_label`.
#[verifier::external_body]
fn format_day(day: i32) -> (r: Option<String>)
    ensures
        r is Some <==> is_calendar_day(day as int),
        r matches Some(s) ==> s@ == day_label(day as int),
{
    match chrono::NaiveDate::from_num_days_from_ce_opt(day) {
        Some(date) => Some(date.format("%Y-%m-%d (%a)").to_string()),
        None => None,
    }
}

/// The header of a group: its date, then its repository.
pub open spec fn header_text(label: Seq<char>, repo: Seq<char>) -> Seq<char> {
    label + " - "@ + repo
}

/// Writes the header of a group from the text of its date.
pub fn header_from_label(label: &str, repo: &str) -> (r: String)
    ensures
        r@ == header_text(label@, repo@),
{
    let mut text = String::from_str(label);
    text.append(" - ");
    text.append(repo);
    text
}

/// Writes the header of the group of a day and a repository, where the
/// calendar can name the day.
pub fn group_header(day: i32, repo: &str) -> (r: Option<String>)
    ensures
        r is Some <==> is_calendar_day(day as int),
        r matches Some(s) ==> s@ == header_text(day_label(day as int), repo@),
{
    match format_day(day) {
        Some(label) => Some(header_from_label(label.as_str(), repo)),
        None => None,
    }
}

/// A line of an event as it is printed: indented once, or as an item below
/// the line before it.
pub open spec fn printed_line(line: (bool, Seq<char>)) -> Seq<char> {
    if line.0 {
        "\t\t* "@ + line.1
    } else {
        "\t"@ + line.1
    }
}

/// The lines of an event as they are printed, one for one.
pub open spec fn printed(lines: Seq<(bool, Seq<char>)>) -> Seq<Seq<char>> {
    Seq::new(lines.len(), |i: int| printed_line(lines[i]))
}

/// Writes a line of an event as it is printed.
pub fn print_line(line: &Line) -> (r: String)
    ensures
        r@ == printed_line(line@),
{
    let mut text = if line.nested {
        String::from_str("\t\t* ")
    } else {
        String::from_str("\t")
    };
    text.append(line.text.as_str());
    text
}

/// The text of a timeline as contracts see it: the lines printed so far,
/// and the failure that ended the run, if one did.
pub ghost struct Output {
    pub lines: Seq<Seq<char>>,
    pub fatal: Option<Seq<char>>,
}

/// The output after one more event: unchanged once the run has ended; else
/// the lines of the event, or its diagnostic as one line, are added, or the
/// run ends on its fatal failure.
pub open spec fn after_event(o: Output, e: Event) -> Output {
    if o.fatal is Some {
        o
    } else {
        match classified(e) {
            Ok(lines) => Output { lines: o.lines + printed(lines), fatal: None },
            Err(FailureText::Diagnostic(text)) => Output {
                lines: o.lines.push("\t"@ + text),
                fatal: None,
            },
            Err(FailureText::Fatal(text)) => Output { lines: o.lines, fatal: Some(text) },
        }
    }
}

/// The output after the events of `events`, one after the other.
pub open spec fn after_events(o: Output, events: Seq<Event>) -> Output
    decreases events.len(),
{
    if events.len() == 0 {
        o
    } else {
        after_event(after_events(o, events.drop_last()), events.last())
    }
}

/// The output after one more group: unchanged once the run has ended; else
/// the header of the group, then its events.
pub open spec fn after_group(o: Output, g: Run) -> Output {
    if o.fatal is Some {
        o
    } else {
        after_events(
            Output { lines: o.lines.push(header_text(day_label(g.day), g.repo)), fatal: None },
            g.events,
        )
    }
}

/// The output after the groups of `groups`, one after the other.
pub open spec fn after_groups(o: Output, groups: Seq<Run>) -> Output
    decreases groups.len(),
{
    if groups.len() == 0 {
        o
    } else {
        after_group(after_groups(o, groups.drop_last()), groups.last())
    }
}

/// The text of the whole timeline of `groups`.
pub open spec fn timeline(groups: Seq<Run>) -> Output {
    after_groups(Output { lines: Seq::empty(), fatal: None }, groups)
}

/// The text of a timeline: the lines to print, in order, and the message of
/// the fatal failure on which the run ended, if it ended on one.
#[derive(Debug, Clone, PartialEq, Eq)]
pub struct Rendering {
    pub lines: Vec<String>,
    pub fatal: Option<String>,
}

/// The views of a sequence of texts, one for one.
pub open spec fn text_views(texts: Seq<String>) -> Seq<Seq<char>> {
    Seq::new(texts.len(), |i: int| texts[i]@)
}

impl View for Rendering {
    type V = Output;

    open spec fn view(&self) -> Output {
        Output {
            lines: text_views(self.lines@),
            fatal: match self.fatal {
                Some(text) => Some(text@),
                None => None,
            },
        }
    }
}

impl Rendering {
    /// The rendering that holds nothing yet.
    pub fn new() -> (r: Rendering)
        ensures
            r@ == (Output { lines: Seq::empty(), fatal: None }),
    {
        let r = Rendering { lines: Vec::new(), fatal: None };
        assert(text_views(r.lines@) =~= Seq::empty());
        r
    }

    /// Adds what one event gives.
    pub fn add_event(&mut self, event: &Event)
        ensures
            final(self)@ == after_event(old(self)@, *event),
    {
        if self.fatal.is_some() {
            return ;
        }
        let ghost start = text_views(self.lines@);
        match process_event(event) {
            Ok(lines) => {
                let mut i: usize = 0;
                while i < lines.len()
                    invariant
                        i <= lines@.len(),
                        self.fatal is None,
                        text_views(self.lines@) == start + printed(
                            line_views(lines@),
                        ).take(i as int),
                    decreases lines@.len() - i,
                {
                    let ghost views = text_views(self.lines@);
                    let text = print_line(&lines[i]);
                    self.lines.push(text);
                    assert(text_views(self.lines@) =~= views.push(text@));
                    assert(text_views(self.lines@) =~= start + printed(
                        line_views(lines@),
                    ).take(i + 1));
                    i += 1;
                }
                assert(printed(line_views(lines@)).take(i as int) =~= printed(
                    line_views(lines@),
                ));
            },
            Err(Failure::Diagnostic(text)) => {
                let mut line = String::from_str("\t");
                line.append(text.as_str());
                self.lines.push(line);
                assert(text_views(self.lines@) =~= start.push("\t"@ + text@));
            },
            Err(Failure::Fatal(text)) => {
                self.fatal = Some(text);
            },
        }
    }

    /// Adds the header of a group and what its events give.
    pub fn add_group(&mut self, group: &Group)
        requires
            is_calendar_day(group.day as int),
        ensures
            final(self)@ == after_group(old(self)@, group@),
    {
        if self.fatal.is_some() {
            return ;
        }
        let ghost start = text_views(self.lines@);
        match group_header(group.day, group.repo_name.as_str()) {
            Some(header) => {
                self.lines.push(header);
                assert(text_views(self.lines@) =~= start.push(header@));
            },
            None => {},
        }
        let ghost begun = self@;
        let mut i: usize = 0;
        while i < group.events.len()
            invariant
                i <= group.events@.len(),
                self@ == after_events(begun, group.events@.take(i as int)),
            decreases group.events@.len() - i,
        {
            self.add_event(&group.events[i]);
            proof {
                assert(group.events@.take(i + 1).drop_last() =~= group.events@.take(i as int));
            }
            i += 1;
        }
        assert(group.events@.take(i as int) =~= group.events@);
    }
}

/// Whether the calendar can name the day of every group.
pub open spec fn all_calendar_days(groups: Seq<Group>) -> bool {
    forall|g: int| 0 <= g < groups.len() ==> is_calendar_day((#[trigger] groups[g]).day as int)
}

/// Whether the calendar can name the day of every group.
pub fn days_in_calendar(groups: &Vec<Group>) -> (r: bool)
    ensures
        r == all_calendar_days(groups@),
{
    let mut i: usize = 0;
    while i < groups.len()
        invariant
            i <= groups@.len(),
            forall|g: int| 0 <= g < i ==> is_calendar_day((#[trigger] groups@[g]).day as int),
        decreases groups@.len() - i,
    {
        if groups[i].day < MIN_DAY || groups[i].day > MAX_DAY {
            return false;
        }
        i += 1;
    }
    true
}

/// Writes the timeline of the groups: for each group its header and the
/// lines of its events, up to the first fatal failure.
pub fn render_timeline(groups: &Vec<Group>) -> (r: Rendering)
    requires
        all_calendar_days(groups@),
    ensures
        r@ == timeline(group_views(groups@)),
{
    let mut out = Rendering::new();
    let mut i: usize = 0;
    while i < groups.len()
        invariant
            i <= groups@.len(),
            all_calendar_days(groups@),
            out@ == timeline(group_views(groups@).take(i as int)),
        decreases groups@.len() - i,
    {
        out.add_group(&groups[i]);
        proof {
            let views = group_views(groups@);
            assert(views.take(i + 1).drop_last() =~= views.take(i as int));
            assert(views.take(i + 1).last() == groups@[i as int]@);
        }
        i += 1;
    }
    assert(group_views(groups@).take(i as int) =~= group_views(groups@));
    out
}

/// Whether `groups` are the groups of the events `kept`: their events, one
/// group after the other, are the stable sort of `kept`, and they are the
/// runs of that sequence.
pub open spec fn is_organized(groups: Seq<Run>, kept: Seq<Event>) -> bool {
    is_stable_sort(flattened(groups), kept) && groups == runs(flattened(groups))
}

/// Writes the timeline of `user` from the feed: the text of the groups of
/// the events reported for `user`, where the calendar can name the day of
/// each of those events, and nothing where it cannot.
pub fn user_timeline(events: Vec<Event>, user: &str) -> (r: Option<Rendering>)
    ensures
        r is Some <==> events_in_calendar(retained(events@, user@)),
        r matches Some(out) ==> exists|groups: Seq<Run>| #[trigger]
            is_organized(groups, retained(events@, user@)) && out@ == timeline(groups),
{
    let groups = organize(events, user);
    proof {
        let views = group_views(groups@);
        if all_calendar_days(groups@) {
            assert forall|g: int| 0 <= g < views.len() implies is_calendar_day(
                (#[trigger] views[g]).day,
            ) by {
                assert(views[g].day == groups@[g].day);
            }
        }
        if runs_in_calendar(views) {
            assert forall|g: int| 0 <= g < groups@.len() implies is_calendar_day(
                (#[trigger] groups@[g]).day as int,
            ) by {
                assert(views[g].day == groups@[g].day);
            }
        }
    }
    if days_in_calendar(&groups) {
        let out = render_timeline(&groups);
        assert(is_organized(group_views(groups@), retained(events@, user@)));
        Some(out)
    } else {
        None
    }
}

} // verus!
