//! The activity feed as plain data: events, their payload variants and rendered lines.

use vstd::prelude::*;

verus! {

/// The closed tag that names the kind of activity an event records.
#[derive(Debug, Clone, PartialEq, Eq)]
pub enum EventKind {
    Push,
    Create,
    Delete,
    Issues,
    IssueComment,
    CommitComment,
    Fork,
    Gollum,
    Member,
    Public,
    PullRequest,
    PullRequestReview,
    PullRequestReviewComment,
    Release,
    Watch,
    WorkflowRun,
    /// A tag the feed sent that is none of the above, kept as it was sent.
    Unknown(String),
}

/// One commit of a push.
#[derive(Debug, Clone, PartialEq, Eq)]
pub struct Commit {
    pub sha: String,
    pub author_name: String,
    pub message: String,
}

#[derive(Debug, Clone, PartialEq, Eq)]
pub struct PushPayload {
    pub git_ref: String,
    pub commits: Vec<Commit>,
}

/// What happened to a pull request. `Other` carries the name of an action
/// that has no rendering rule.
#[derive(Debug, Clone, PartialEq, Eq)]
pub enum PullRequestAction {
    Opened,
    Closed,
    Reopened,
    Edited,
    Assigned,
    Unassigned,
    ReviewRequested,
    ReviewRequestRemoved,
    Labeled,
    Unlabeled,
    Synchronize,
    Other(String),
}

#[derive(Debug, Clone, PartialEq, Eq)]
pub struct PullRequestPayload {
    pub action: PullRequestAction,
    pub number: u64,
    /// Whether the pull request carries a merge timestamp.
    pub merged: bool,
    pub author: Option<String>,
    pub title: Option<String>,
}

#[derive(Debug, Clone, PartialEq, Eq)]
pub struct IssueCommentPayload {
    pub number: u64,
    pub title: String,
    /// Whether the issue carries a back-reference to a pull request.
    pub on_pull_request: bool,
}

#[derive(Debug, Clone, PartialEq, Eq)]
pub struct PullRequestReviewCommentPayload {
    pub number: u64,
    pub title: Option<String>,
}

#[derive(Debug, Clone, Copy, PartialEq, Eq, Structural)]
pub enum ReviewState {
    Open,
    Approved,
    Pending,
    ChangesRequested,
    Commented,
    Dismissed,
}

#[derive(Debug, Clone, PartialEq, Eq)]
pub struct PullRequestReviewPayload {
    pub number: u64,
    pub author: Option<String>,
    pub state: Option<ReviewState>,
    pub title: Option<String>,
}

#[derive(Debug, Clone, Copy, PartialEq, Eq, Structural)]
pub enum ReleaseAction {
    Published,
    Edited,
}

#[derive(Debug, Clone, PartialEq, Eq)]
pub struct ReleasePayload {
    pub action: ReleaseAction,
    pub name: Option<String>,
    pub url: String,
}

#[derive(Debug, Clone, PartialEq, Eq)]
pub struct CreatePayload {
    pub ref_kind: String,
    pub git_ref: Option<String>,
}

#[derive(Debug, Clone, PartialEq, Eq)]
pub struct CommitCommentPayload {
    pub issue_url: Option<String>,
    pub url: String,
}

#[derive(Debug, Clone, PartialEq, Eq)]
pub struct ForkPayload {
    pub full_name: Option<String>,
}

/// The type-specific data of an event. `Other` stands for every variant
/// that has no rendering rule.
#[derive(Debug, Clone, PartialEq, Eq)]
pub enum Specific {
    Push(PushPayload),
    PullRequest(PullRequestPayload),
    IssueComment(IssueCommentPayload),
    PullRequestReviewComment(PullRequestReviewCommentPayload),
    PullRequestReview(PullRequestReviewPayload),
    Release(ReleasePayload),
    Create(CreatePayload),
    CommitComment(CommitCommentPayload),
    Fork(ForkPayload),
    Watch,
    Other,
}

#[derive(Debug, Clone, PartialEq, Eq)]
pub struct Payload {
    pub specific: Option<Specific>,
}

/// One record of the feed. `day` is the calendar day of the event in the
/// reader's time zone, counted in days with January 1 of year 1 as day 1.
#[derive(Debug, Clone, PartialEq, Eq)]
pub struct Event {
    pub id: String,
    pub kind: EventKind,
    pub actor_login: String,
    pub repo_name: String,
    pub day: i32,
    pub payload: Option<Payload>,
}

/// The first day that the calendar can name: January 1 of the year -262143.
pub const MIN_DAY: i32 = -95_746_129;

/// The last day that the calendar can name: December 31 of the year 262142.
pub const MAX_DAY: i32 = 95_745_399;

/// Whether the calendar can name the day with this number.
pub open spec fn is_calendar_day(day: int) -> bool {
    MIN_DAY <= day <= MAX_DAY
}

/// One line of output. A nested line is an item below the line before it.
#[derive(Debug, Clone, PartialEq, Eq)]
pub struct Line {
    pub nested: bool,
    pub text: String,
}

impl View for Line {
    type V = (bool, Seq<char>);

    open spec fn view(&self) -> (bool, Seq<char>) {
        (self.nested, self.text@)
    }
}

/// The views of a sequence of lines, one for one.
pub open spec fn line_views(lines: Seq<Line>) -> Seq<(bool, Seq<char>)> {
    Seq::new(lines.len(), |i: int| lines[i]@)
}

/// Why an event gave no lines.
#[derive(Debug, Clone, PartialEq, Eq)]
pub enum Failure {
    /// The event lacks the data to render; the text says what is missing.
    Diagnostic(String),
    /// The event has a shape outside the closed set of rendering rules;
    /// the text names the unsupported value. The whole run ends on it.
    Fatal(String),
}

/// A classification failure as contracts see it.
pub enum FailureText {
    Diagnostic(Seq<char>),
    Fatal(Seq<char>),
}

impl View for Failure {
    type V = FailureText;

    open spec fn view(&self) -> FailureText {
        match *self {
            Failure::Diagnostic(s) => FailureText::Diagnostic(s@),
            Failure::Fatal(s) => FailureText::Fatal(s@),
        }
    }
}

/// A run of events that share a calendar day and a repository.
#[derive(Debug, Clone, PartialEq, Eq)]
pub struct Group {
    pub day: i32,
    pub repo_name: String,
    pub events: Vec<Event>,
}

} // verus!
