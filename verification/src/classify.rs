//! The classifier: from one event to the lines it contributes, or to the
//! reason why it contributes none.

use vstd::prelude::*;
use vstd::string::*;
use crate::events::{
    commit_comment_lines, create_outcome, fork_lines, handle_commit_comment_event,
    handle_create_event, handle_fork_event, handle_issue_comment_event,
    handle_pull_request_event, handle_pull_request_review_comment_event,
    handle_pull_request_review_event, handle_push_event, handle_release_event,
    handle_watch_event, is_outcome, issue_comment_lines, pull_request_outcome,
    pull_request_review_comment_lines, pull_request_review_lines, push_lines, release_lines,
    watch_lines,
};
use crate::model::{Event, EventKind, Failure, FailureText, Line, Specific};

verus! {

/// The name of a kind of event, as the feed writes it.
pub open spec fn kind_name(k: EventKind) -> Seq<char> {
    match k {
        EventKind::Push => "PushEvent"@,
        EventKind::Create => "CreateEvent"@,
        EventKind::Delete => "DeleteEvent"@,
        EventKind::Issues => "IssuesEvent"@,
        EventKind::IssueComment => "IssueCommentEvent"@,
        EventKind::CommitComment => "CommitCommentEvent"@,
        EventKind::Fork => "ForkEvent"@,
        EventKind::Gollum => "GollumEvent"@,
        EventKind::Member => "MemberEvent"@,
        EventKind::Public => "PublicEvent"@,
        EventKind::PullRequest => "PullRequestEvent"@,
        EventKind::PullRequestReview => "PullRequestReviewEvent"@,
        EventKind::PullRequestReviewComment => "PullRequestReviewCommentEvent"@,
        EventKind::Release => "ReleaseEvent"@,
        EventKind::Watch => "WatchEvent"@,
        EventKind::WorkflowRun => "WorkflowRunEvent"@,
        EventKind::Unknown(name) => name@,
    }
}

impl EventKind {
    /// The name of this kind, as the feed writes it.
    pub fn name(&self) -> (r: String)
        ensures
            r@ == kind_name(*self),
    {
        match self {
            EventKind::Push => String::from_str("PushEvent"),
            EventKind::Create => String::from_str("CreateEvent"),
            EventKind::Delete => String::from_str("DeleteEvent"),
            EventKind::Issues => String::from_str("IssuesEvent"),
            EventKind::IssueComment => String::from_str("IssueCommentEvent"),
            EventKind::CommitComment => String::from_str("CommitCommentEvent"),
            EventKind::Fork => String::from_str("ForkEvent"),
            EventKind::Gollum => String::from_str("GollumEvent"),
            EventKind::Member => String::from_str("MemberEvent"),
            EventKind::Public => String::from_str("PublicEvent"),
            EventKind::PullRequest => String::from_str("PullRequestEvent"),
            EventKind::PullRequestReview => String::from_str("PullRequestReviewEvent"),
            EventKind::PullRequestReviewComment => String::from_str(
                "PullRequestReviewCommentEvent",
            ),
            EventKind::Release => String::from_str("ReleaseEvent"),
            EventKind::Watch => String::from_str("WatchEvent"),
            EventKind::WorkflowRun => String::from_str("WorkflowRunEvent"),
            EventKind::Unknown(name) => name.clone(),
        }
    }
}

/// The diagnostic of an event without a payload.
pub open spec fn no_payload(k: EventKind) -> Seq<char> {
    "no payload for event of type "@ + kind_name(k)
}

/// The diagnostic of an event whose payload has no type-specific part.
pub open spec fn no_specific_payload(k: EventKind) -> Seq<char> {
    "no specific payload for event of type "@ + kind_name(k)
}

/// The text that names a kind of event without a rendering rule.
pub open spec fn unsupported_event(k: EventKind) -> Seq<char> {
    "Unsupported Event type "@ + kind_name(k)
}

/// What the type-specific part of an event of kind `k` gives: the lines of
/// its rule, or a fatal failure where it has none.
pub open spec fn specific_outcome(s: Specific, k: EventKind) -> Result<
    Seq<(bool, Seq<char>)>,
    FailureText,
> {
    match s {
        Specific::Push(p) => Ok(push_lines(p)),
        Specific::PullRequest(p) => pull_request_outcome(p),
        Specific::IssueComment(p) => Ok(issue_comment_lines(p)),
        Specific::PullRequestReviewComment(p) => Ok(pull_request_review_comment_lines(p)),
        Specific::PullRequestReview(p) => Ok(pull_request_review_lines(p)),
        Specific::Release(p) => Ok(release_lines(p)),
        Specific::Create(p) => create_outcome(p),
        Specific::CommitComment(p) => Ok(commit_comment_lines(p)),
        Specific::Fork(p) => Ok(fork_lines(p)),
        Specific::Watch => Ok(watch_lines()),
        Specific::Other => Err(FailureText::Fatal(unsupported_event(k))),
    }
}

/// What an event gives: a diagnostic where the payload or its specific part
/// is absent, else what the specific part gives.
pub open spec fn classified(e: Event) -> Result<Seq<(bool, Seq<char>)>, FailureText> {
    match e.payload {
        None => Err(FailureText::Diagnostic(no_payload(e.kind))),
        Some(payload) => match payload.specific {
            None => Err(FailureText::Diagnostic(no_specific_payload(e.kind))),
            Some(s) => specific_outcome(s, e.kind),
        },
    }
}

/// Classifies one event: picks the rule of its payload and applies it.
pub fn process_event(event: &Event) -> (r: Result<Vec<Line>, Failure>)
    ensures
        is_outcome(r, classified(*event)),
{
    let payload = match &event.payload {
        Some(payload) => payload,
        None => {
            let mut text = String::from_str("no payload for event of type ");
            text.append(event.kind.name().as_str());
            return Err(Failure::Diagnostic(text));
        },
    };
    let specific = match &payload.specific {
        Some(specific) => specific,
        None => {
            let mut text = String::from_str("no specific payload for event of type ");
            text.append(event.kind.name().as_str());
            return Err(Failure::Diagnostic(text));
        },
    };
    match specific {
        Specific::Push(p) => Ok(handle_push_event(p)),
        Specific::PullRequest(p) => handle_pull_request_event(p),
        Specific::IssueComment(p) => Ok(handle_issue_comment_event(p)),
        Specific::PullRequestReviewComment(p) => Ok(handle_pull_request_review_comment_event(p)),
        Specific::PullRequestReview(p) => Ok(handle_pull_request_review_event(p)),
        Specific::Release(p) => Ok(handle_release_event(p)),
        Specific::Create(p) => handle_create_event(p),
        Specific::CommitComment(p) => Ok(handle_commit_comment_event(p)),
        Specific::Fork(p) => Ok(handle_fork_event(p)),
        Specific::Watch => Ok(handle_watch_event()),
        Specific::Other => {
            let mut text = String::from_str("Unsupported Event type ");
            text.append(event.kind.name().as_str());
            Err(Failure::Fatal(text))
        },
    }
}

/// Whether a type-specific part lies in the closed set that has rendering
/// rules. This reads the variant, the action of a pull request and the kind
/// of a created reference, and none of the fields that may be absent.
pub open spec fn has_rule(s: Specific) -> bool {
    match s {
        Specific::Other => false,
        Specific::PullRequest(p) => !(p.action is Other),
        Specific::Create(p) => p.ref_kind@ == "tag"@ || p.ref_kind@ == "repository"@
            || p.ref_kind@ == "branch"@,
        _ => true,
    }
}

/// An event with a payload whose specific part has a rendering rule is
/// classified without failure, whichever of its optional fields are absent;
/// and a failure is fatal only where the specific part has no rule.
pub proof fn lemma_absent_fields_never_fail(e: Event)
    ensures
        e.payload is Some && e.payload->0.specific is Some && has_rule(e.payload->0.specific->0)
            ==> classified(e) is Ok,
        classified(e) matches Err(FailureText::Fatal(_)) ==> e.payload is Some
            && e.payload->0.specific is Some && !has_rule(e.payload->0.specific->0),
{
}

} // verus!
