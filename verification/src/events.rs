//! The rendering rules: one per kind of payload, each from a payload to the
//! lines it contributes to the timeline.

use vstd::prelude::*;
use vstd::string::*;
use crate::model::{
    Commit, CommitCommentPayload, CreatePayload, Failure, FailureText, ForkPayload,
    IssueCommentPayload, Line, PullRequestAction, PullRequestPayload,
    PullRequestReviewCommentPayload, PullRequestReviewPayload, PushPayload, ReleaseAction,
    ReleasePayload, ReviewState, line_views,
};
use crate::text::{decimal, decimal_string, first_line, first_line_of, same_text};

verus! {

fn top_line(text: String) -> (r: Line)
    ensures
        r@ == (false, text@),
{
    Line { nested: false, text }
}

/// The line of one commit below the header of its push.
pub open spec fn commit_text(c: Commit) -> Seq<char> {
    c.sha@ + " by "@ + c.author_name@ + " - "@ + first_line(c.message@)
}

/// The lines of a push: none for a push to the default branch, else a
/// header and one nested line per commit.
pub open spec fn push_lines(p: PushPayload) -> Seq<(bool, Seq<char>)> {
    if p.git_ref@ == "refs/heads/master"@ {
        Seq::empty()
    } else {
        seq![(false, "Push to "@ + p.git_ref@ + ":"@)] + Seq::new(
            p.commits@.len(),
            |i: int| (true, commit_text(p.commits@[i])),
        )
    }
}

/// Renders a push.
pub fn handle_push_event(payload: &PushPayload) -> (r: Vec<Line>)
    ensures
        line_views(r@) == push_lines(*payload),
{
    let mut out: Vec<Line> = Vec::new();
    if same_text(payload.git_ref.as_str(), "refs/heads/master") {
        assert(line_views(out@) =~= push_lines(*payload));
        return out;
    }
    let mut head = String::from_str("Push to ");
    head.append(payload.git_ref.as_str());
    head.append(":");
    out.push(top_line(head));
    let mut i: usize = 0;
    while i < payload.commits.len()
        invariant
            i <= payload.commits@.len(),
            out@.len() == i + 1,
            out@[0]@ == (false, "Push to "@ + payload.git_ref@ + ":"@),
            forall|k: int| 0 <= k < i ==> (#[trigger] out@[k + 1])@ == (true, commit_text(payload.commits@[k])),
        decreases payload.commits@.len() - i,
    {
        let commit = &payload.commits[i];
        let title = first_line_of(commit.message.as_str());
        let mut text = commit.sha.clone();
        text.append(" by ");
        text.append(commit.author_name.as_str());
        text.append(" - ");
        text.append(title.as_str());
        out.push(Line { nested: true, text });
        i += 1;
    }
    assert(line_views(out@) =~= push_lines(*payload)) by {
        assert forall|k: int| 0 <= k < out@.len() implies line_views(out@)[k] == push_lines(*payload)[k] by {
            if k > 0 {
                assert(out@[(k - 1) + 1]@ == (true, commit_text(payload.commits@[k - 1])));
            }
        }
    }
    out
}

/// The name of a review state.
pub open spec fn review_state_name(s: ReviewState) -> Seq<char> {
    match s {
        ReviewState::Open => "Open"@,
        ReviewState::Approved => "Approved"@,
        ReviewState::Pending => "Pending"@,
        ReviewState::ChangesRequested => "ChangesRequested"@,
        ReviewState::Commented => "Commented"@,
        ReviewState::Dismissed => "Dismissed"@,
    }
}

fn review_state_text(s: ReviewState) -> (r: &'static str)
    ensures
        r@ == review_state_name(s),
{
    match s {
        ReviewState::Open => "Open",
        ReviewState::Approved => "Approved",
        ReviewState::Pending => "Pending",
        ReviewState::ChangesRequested => "ChangesRequested",
        ReviewState::Commented => "Commented",
        ReviewState::Dismissed => "Dismissed",
    }
}

/// The line that stands for a pull request whose author, title or state is missing.
pub open spec fn details_unavailable(number: u64) -> Seq<char> {
    "Pull request #"@ + decimal(number as nat) + " - details unavailable"@
}

/// The line of a pull request with its author, what happened to it, and its title.
pub open spec fn pull_request_text(
    number: u64,
    author: Seq<char>,
    what: Seq<char>,
    title: Seq<char>,
) -> Seq<char> {
    "Pull request #"@ + decimal(number as nat) + " by "@ + author + " - "@ + what + " - "@ + title
}

fn details_unavailable_line(number: u64) -> (r: Line)
    ensures
        r@ == (false, details_unavailable(number)),
{
    let mut text = String::from_str("Pull request #");
    text.append(decimal_string(number).as_str());
    text.append(" - details unavailable");
    top_line(text)
}

fn pull_request_line(number: u64, author: &str, what: &str, title: &str) -> (r: Line)
    ensures
        r@ == (false, pull_request_text(number, author@, what@, title@)),
{
    let mut text = String::from_str("Pull request #");
    text.append(decimal_string(number).as_str());
    text.append(" by ");
    text.append(author);
    text.append(" - ");
    text.append(what);
    text.append(" - ");
    text.append(title);
    top_line(text)
}

/// The line of a review: the full form when author, state and title are all
/// there, else the fallback.
pub open spec fn pull_request_review_lines(p: PullRequestReviewPayload) -> Seq<(bool, Seq<char>)> {
    match (p.author, p.state, p.title) {
        (Some(author), Some(state), Some(title)) => seq![
            (false, pull_request_text(p.number, author@, review_state_name(state), title@)),
        ],
        _ => seq![(false, details_unavailable(p.number))],
    }
}

/// Renders a review of a pull request.
pub fn handle_pull_request_review_event(payload: &PullRequestReviewPayload) -> (r: Vec<Line>)
    ensures
        line_views(r@) == pull_request_review_lines(*payload),
{
    let mut out: Vec<Line> = Vec::new();
    match (&payload.author, &payload.state, &payload.title) {
        (Some(author), Some(state), Some(title)) => {
            out.push(
                pull_request_line(
                    payload.number,
                    author.as_str(),
                    review_state_text(*state),
                    title.as_str(),
                ),
            );
        },
        _ => {
            out.push(details_unavailable_line(payload.number));
        },
    }
    assert(line_views(out@) =~= pull_request_review_lines(*payload));
    out
}

/// The line of a comment made in a review.
pub open spec fn pull_request_review_comment_lines(
    p: PullRequestReviewCommentPayload,
) -> Seq<(bool, Seq<char>)> {
    match p.title {
        Some(title) => seq![(false, "Reviewed PR "@ + decimal(p.number as nat) + " - "@ + title@)],
        None => seq![
            (false, "Reviewed PR "@ + decimal(p.number as nat) + " - title unavailable"@),
        ],
    }
}

/// Renders a comment made in a review.
pub fn handle_pull_request_review_comment_event(
    payload: &PullRequestReviewCommentPayload,
) -> (r: Vec<Line>)
    ensures
        line_views(r@) == pull_request_review_comment_lines(*payload),
{
    let mut text = String::from_str("Reviewed PR ");
    text.append(decimal_string(payload.number).as_str());
    match &payload.title {
        Some(title) => {
            text.append(" - ");
            text.append(title.as_str());
        },
        None => {
            text.append(" - title unavailable");
        },
    }
    let mut out: Vec<Line> = Vec::new();
    out.push(top_line(text));
    assert(line_views(out@) =~= pull_request_review_comment_lines(*payload));
    out
}

/// The line of a comment on an issue or on a pull request.
pub open spec fn issue_comment_lines(p: IssueCommentPayload) -> Seq<(bool, Seq<char>)> {
    let target = if p.on_pull_request {
        "pull request"@
    } else {
        "issue"@
    };
    seq![
        (false, "Commented on "@ + target + " "@ + decimal(p.number as nat) + " - "@ + p.title@),
    ]
}

/// Renders a comment on an issue or on a pull request.
pub fn handle_issue_comment_event(payload: &IssueCommentPayload) -> (r: Vec<Line>)
    ensures
        line_views(r@) == issue_comment_lines(*payload),
{
    let mut text = String::from_str("Commented on ");
    if payload.on_pull_request {
        text.append("pull request");
    } else {
        text.append("issue");
    }
    text.append(" ");
    text.append(decimal_string(payload.number).as_str());
    text.append(" - ");
    text.append(payload.title.as_str());
    let mut out: Vec<Line> = Vec::new();
    out.push(top_line(text));
    assert(line_views(out@) =~= issue_comment_lines(*payload));
    out
}

/// The line of a comment on a commit.
pub open spec fn commit_comment_lines(p: CommitCommentPayload) -> Seq<(bool, Seq<char>)> {
    match p.issue_url {
        Some(issue_url) => seq![(false, "Commented on "@ + issue_url@ + " - "@ + p.url@)],
        None => seq![(false, "Commented on a commit - "@ + p.url@)],
    }
}

/// Renders a comment on a commit.
pub fn handle_commit_comment_event(payload: &CommitCommentPayload) -> (r: Vec<Line>)
    ensures
        line_views(r@) == commit_comment_lines(*payload),
{
    let mut text: String;
    match &payload.issue_url {
        Some(issue_url) => {
            text = String::from_str("Commented on ");
            text.append(issue_url.as_str());
            text.append(" - ");
        },
        None => {
            text = String::from_str("Commented on a commit - ");
        },
    }
    text.append(payload.url.as_str());
    let mut out: Vec<Line> = Vec::new();
    out.push(top_line(text));
    assert(line_views(out@) =~= commit_comment_lines(*payload));
    out
}

/// What a pull request event says happened, where it says anything: a closed
/// pull request was merged if it carries a merge time; opening and reopening
/// are named as they are; every other action is passed over.
pub open spec fn pull_request_verb(p: PullRequestPayload) -> Option<Seq<char>> {
    match p.action {
        PullRequestAction::Closed => Some(
            if p.merged {
                "Merged"@
            } else {
                "Closed"@
            },
        ),
        PullRequestAction::Opened => Some("Opened"@),
        PullRequestAction::Reopened => Some("Reopened"@),
        _ => None,
    }
}

/// The text that names an action without a rendering rule.
pub open spec fn unsupported_action(name: Seq<char>) -> Seq<char> {
    "Unsupported PullRequestEventAction: "@ + name
}

/// What a pull request event gives: a fatal failure for an action outside
/// the known set, no line for an action that is passed over, else one line.
pub open spec fn pull_request_outcome(p: PullRequestPayload) -> Result<
    Seq<(bool, Seq<char>)>,
    FailureText,
> {
    match p.action {
        PullRequestAction::Other(name) => Err(FailureText::Fatal(unsupported_action(name@))),
        _ => Ok(
            match pull_request_verb(p) {
                None => Seq::empty(),
                Some(verb) => match (p.author, p.title) {
                    (Some(author), Some(title)) => seq![
                        (false, pull_request_text(p.number, author@, verb, title@)),
                    ],
                    _ => seq![(false, details_unavailable(p.number))],
                },
            },
        ),
    }
}

/// Whether a result of classifying is the one that `want` describes.
pub open spec fn is_outcome(
    got: Result<Vec<Line>, Failure>,
    want: Result<Seq<(bool, Seq<char>)>, FailureText>,
) -> bool {
    match got {
        Ok(lines) => want == Ok::<Seq<(bool, Seq<char>)>, FailureText>(line_views(lines@)),
        Err(f) => want == Err::<Seq<(bool, Seq<char>)>, FailureText>(f@),
    }
}

/// Renders what happened to a pull request, or fails on an action without a rule.
pub fn handle_pull_request_event(payload: &PullRequestPayload) -> (r: Result<Vec<Line>, Failure>)
    ensures
        is_outcome(r, pull_request_outcome(*payload)),
{
    let mut out: Vec<Line> = Vec::new();
    let verb: &str = match &payload.action {
        PullRequestAction::Other(name) => {
            let mut text = String::from_str("Unsupported PullRequestEventAction: ");
            text.append(name.as_str());
            return Err(Failure::Fatal(text));
        },
        PullRequestAction::Closed => if payload.merged {
            "Merged"
        } else {
            "Closed"
        },
        PullRequestAction::Opened => "Opened",
        PullRequestAction::Reopened => "Reopened",
        _ => {
            assert(line_views(out@) =~= Seq::empty());
            return Ok(out);
        },
    };
    match (&payload.author, &payload.title) {
        (Some(author), Some(title)) => {
            out.push(pull_request_line(payload.number, author.as_str(), verb, title.as_str()));
        },
        _ => {
            out.push(details_unavailable_line(payload.number));
        },
    }
    assert(line_views(out@) =~= pull_request_outcome(*payload)->Ok_0);
    Ok(out)
}

/// The line of a fork; an absent name leaves the line's end empty.
pub open spec fn fork_lines(p: ForkPayload) -> Seq<(bool, Seq<char>)> {
    match p.full_name {
        Some(name) => seq![(false, "Forked "@ + name@)],
        None => seq![(false, "Forked "@ + Seq::<char>::empty())],
    }
}

/// Renders a fork.
pub fn handle_fork_event(payload: &ForkPayload) -> (r: Vec<Line>)
    ensures
        line_views(r@) == fork_lines(*payload),
{
    let mut text = String::from_str("Forked ");
    match &payload.full_name {
        Some(name) => {
            text.append(name.as_str());
        },
        None => {
            assert(text@ =~= "Forked "@ + Seq::<char>::empty());
        },
    }
    let mut out: Vec<Line> = Vec::new();
    out.push(top_line(text));
    assert(line_views(out@) =~= fork_lines(*payload));
    out
}

/// The one line of a watch.
pub open spec fn watch_lines() -> Seq<(bool, Seq<char>)> {
    seq![(false, "Watched the repository"@)]
}

/// Renders a watch.
pub fn handle_watch_event() -> (r: Vec<Line>)
    ensures
        line_views(r@) == watch_lines(),
{
    let mut out: Vec<Line> = Vec::new();
    out.push(top_line(String::from_str("Watched the repository")));
    assert(line_views(out@) =~= watch_lines());
    out
}

/// The name of a release action.
pub open spec fn release_action_name(a: ReleaseAction) -> Seq<char> {
    match a {
        ReleaseAction::Published => "Published"@,
        ReleaseAction::Edited => "Edited"@,
    }
}

/// The line of a release; an absent name leaves its place empty.
pub open spec fn release_lines(p: ReleasePayload) -> Seq<(bool, Seq<char>)> {
    let name = match p.name {
        Some(n) => n@,
        None => Seq::<char>::empty(),
    };
    seq![(false, release_action_name(p.action) + " release "@ + name + " - "@ + p.url@)]
}

/// Renders a release.
pub fn handle_release_event(payload: &ReleasePayload) -> (r: Vec<Line>)
    ensures
        line_views(r@) == release_lines(*payload),
{
    let mut text = match payload.action {
        ReleaseAction::Published => String::from_str("Published"),
        ReleaseAction::Edited => String::from_str("Edited"),
    };
    text.append(" release ");
    let ghost before = text@;
    match &payload.name {
        Some(name) => {
            text.append(name.as_str());
        },
        None => {
            assert(text@ =~= before + Seq::<char>::empty());
        },
    }
    text.append(" - ");
    text.append(payload.url.as_str());
    let mut out: Vec<Line> = Vec::new();
    out.push(top_line(text));
    assert(line_views(out@) =~= release_lines(*payload));
    out
}

/// The text that names a kind of reference without a rendering rule.
pub open spec fn unsupported_ref_kind(kind: Seq<char>) -> Seq<char> {
    "Unsupported ref_type for CreateEvent: "@ + kind
}

/// What the creation of a reference gives: a line for a tag, nothing for a
/// repository or a branch, a fatal failure for any other kind.
pub open spec fn create_outcome(p: CreatePayload) -> Result<Seq<(bool, Seq<char>)>, FailureText> {
    if p.ref_kind@ == "tag"@ {
        Ok(
            match p.git_ref {
                Some(name) => seq![(false, "Created tag "@ + name@)],
                None => seq![(false, "Created tag with unknown value"@)],
            },
        )
    } else if p.ref_kind@ == "repository"@ || p.ref_kind@ == "branch"@ {
        Ok(Seq::empty())
    } else {
        Err(FailureText::Fatal(unsupported_ref_kind(p.ref_kind@)))
    }
}

/// Renders the creation of a reference, or fails on a kind without a rule.
pub fn handle_create_event(payload: &CreatePayload) -> (r: Result<Vec<Line>, Failure>)
    ensures
        is_outcome(r, create_outcome(*payload)),
{
    let mut out: Vec<Line> = Vec::new();
    let kind = payload.ref_kind.as_str();
    if same_text(kind, "tag") {
        let mut text: String;
        match &payload.git_ref {
            Some(name) => {
                text = String::from_str("Created tag ");
                text.append(name.as_str());
            },
            None => {
                text = String::from_str("Created tag with unknown value");
            },
        }
        out.push(top_line(text));
        assert(line_views(out@) =~= create_outcome(*payload)->Ok_0);
        Ok(out)
    } else if same_text(kind, "repository") || same_text(kind, "branch") {
        assert(line_views(out@) =~= Seq::empty());
        Ok(out)
    } else {
        let mut text = String::from_str("Unsupported ref_type for CreateEvent: ");
        text.append(kind);
        Err(Failure::Fatal(text))
    }
}

} // verus!
