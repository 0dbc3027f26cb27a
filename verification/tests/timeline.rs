use github_timeline::key::event_order;
use github_timeline::text::byte_order;
use github_timeline::model::{
    Event, EventKind, ForkPayload, Group, Payload, PushPayload, Commit, Specific,
};
use github_timeline::organize::{filter_events, group_events, is_reported, organize};
use github_timeline::printer::{
    days_in_calendar, group_header, header_from_label, print_line, render_timeline,
    user_timeline, Rendering,
};
use github_timeline::model::{MAX_DAY, MIN_DAY};
use github_timeline::model::Line;
use github_timeline::sorting::{compare_events, sort_events};
use std::cmp::Ordering;

fn event(id: &str, kind: EventKind, actor: &str, repo: &str, day: i32) -> Event {
    Event {
        id: id.to_string(),
        kind,
        actor_login: actor.to_string(),
        repo_name: repo.to_string(),
        day,
        payload: Some(Payload { specific: Some(Specific::Watch) }),
    }
}

fn ids(events: &Vec<Event>) -> Vec<String> {
    events.iter().map(|e| e.id.clone()).collect()
}

fn feed() -> Vec<Event> {
    vec![
        event("1", EventKind::Watch, "alice", "b/repo", 738_890),
        event("2", EventKind::Watch, "bob", "a/repo", 738_890),
        event("3", EventKind::Delete, "alice", "a/repo", 738_890),
        event("4", EventKind::Watch, "alice", "a/repo", 738_890),
        event("5", EventKind::Watch, "alice", "b/repo", 738_889),
        event("6", EventKind::Watch, "Alice", "a/repo", 738_889),
        event("7", EventKind::Watch, "alice", "b/repo", 738_890),
        event("8", EventKind::Watch, "alice", "a/repo", 738_890),
    ]
}

#[test]
fn filter_keeps_own_events_but_deletions() {
    let kept = filter_events(feed(), "alice");
    assert_eq!(ids(&kept), vec!["1", "4", "5", "7", "8"]);
    for e in &kept {
        assert_eq!(e.actor_login, "alice");
        assert_ne!(e.kind, EventKind::Delete);
    }
}

#[test]
fn filter_is_case_sensitive() {
    let kept = filter_events(feed(), "Alice");
    assert_eq!(ids(&kept), vec!["6"]);
    assert!(!is_reported(&feed()[0], "Alice"));
    assert!(is_reported(&feed()[0], "alice"));
    assert!(!is_reported(&feed()[2], "alice"));
}

#[test]
fn filter_twice_is_filter_once() {
    let once = filter_events(feed(), "alice");
    let twice = filter_events(once.clone(), "alice");
    assert_eq!(once, twice);
}

#[test]
fn filter_of_nothing_is_nothing() {
    assert_eq!(filter_events(vec![], "alice"), vec![]);
    assert_eq!(organize(vec![], "alice"), vec![]);
}

#[test]
fn byte_order_is_dictionary_order() {
    assert_eq!(byte_order(b"a/repo", b"b/repo"), -1);
    assert_eq!(byte_order(b"b/repo", b"a/repo"), 1);
    assert_eq!(byte_order(b"a/repo", b"a/repo"), 0);
    assert_eq!(byte_order(b"a", b"a/repo"), -1);
    assert_eq!(byte_order(b"a/repo", b"a"), 1);
    assert_eq!(byte_order(b"", b""), 0);
    assert_eq!(byte_order(b"", b"a"), -1);
    assert_eq!(byte_order(b"Z", b"a"), -1);
}

#[test]
fn events_compare_by_day_then_repository() {
    let a = event("1", EventKind::Watch, "alice", "b/repo", 10);
    let b = event("2", EventKind::Watch, "alice", "a/repo", 11);
    let c = event("3", EventKind::Watch, "alice", "a/repo", 10);
    assert_eq!(event_order(&a, &b), -1);
    assert_eq!(event_order(&b, &a), 1);
    assert_eq!(event_order(&a, &c), 1);
    assert_eq!(event_order(&c, &c), 0);
    assert_eq!(compare_events(&a, &b), Ordering::Less);
    assert_eq!(compare_events(&a, &c), Ordering::Greater);
    assert_eq!(compare_events(&c, &c), Ordering::Equal);
    assert_eq!(compare_events(&a, &c), a.repo_name.cmp(&c.repo_name));
}

#[test]
fn sort_orders_by_day_then_repository_and_is_stable() {
    let sorted = sort_events(filter_events(feed(), "alice"));
    assert_eq!(ids(&sorted), vec!["5", "4", "8", "1", "7"]);
}

#[test]
fn sort_of_ordered_feed_changes_nothing() {
    let sorted = sort_events(filter_events(feed(), "alice"));
    assert_eq!(sort_events(sorted.clone()), sorted);
}

#[test]
fn groups_are_runs_of_day_and_repository() {
    let groups = group_events(sort_events(filter_events(feed(), "alice")));
    assert_eq!(groups.len(), 3);
    assert_eq!((groups[0].day, groups[0].repo_name.as_str()), (738_889, "b/repo"));
    assert_eq!((groups[1].day, groups[1].repo_name.as_str()), (738_890, "a/repo"));
    assert_eq!((groups[2].day, groups[2].repo_name.as_str()), (738_890, "b/repo"));
    assert_eq!(ids(&groups[0].events), vec!["5"]);
    assert_eq!(ids(&groups[1].events), vec!["4", "8"]);
    assert_eq!(ids(&groups[2].events), vec!["1", "7"]);
}

#[test]
fn grouping_unsorted_events_splits_at_each_change() {
    let groups = group_events(filter_events(feed(), "alice"));
    let sizes: Vec<usize> = groups.iter().map(|g| g.events.len()).collect();
    assert_eq!(sizes, vec![1, 1, 1, 1, 1]);
}

#[test]
fn flattening_the_groups_gives_the_sorted_events() {
    let sorted = sort_events(filter_events(feed(), "alice"));
    let groups = group_events(sorted.clone());
    let mut flat: Vec<Event> = Vec::new();
    for g in &groups {
        assert!(!g.events.is_empty());
        for e in &g.events {
            assert_eq!((e.day, &e.repo_name), (g.day, &g.repo_name));
            flat.push(e.clone());
        }
    }
    assert_eq!(flat, sorted);
}

#[test]
fn no_two_groups_share_day_and_repository() {
    let groups = organize(feed(), "alice");
    for i in 0..groups.len() {
        for j in (i + 1)..groups.len() {
            assert_ne!(
                (groups[i].day, &groups[i].repo_name),
                (groups[j].day, &groups[j].repo_name)
            );
        }
    }
}

#[test]
fn same_day_groups_come_in_repository_order() {
    let first = vec![
        event("1", EventKind::Watch, "alice", "b/repo", 738_890),
        event("2", EventKind::Watch, "alice", "a/repo", 738_890),
    ];
    let second = vec![
        event("2", EventKind::Watch, "alice", "a/repo", 738_890),
        event("1", EventKind::Watch, "alice", "b/repo", 738_890),
    ];
    for input in vec![first, second] {
        let groups = organize(input, "alice");
        assert_eq!(groups.len(), 2);
        assert_eq!(groups[0].repo_name, "a/repo");
        assert_eq!(groups[1].repo_name, "b/repo");
    }
}

#[test]
fn header_joins_date_and_repository() {
    assert_eq!(header_from_label("2024-01-05 (Fri)", "a/repo"), "2024-01-05 (Fri) - a/repo");
}

#[test]
fn header_writes_the_date_with_its_weekday() {
    assert_eq!(group_header(738_890, "a/repo"), Some("2024-01-05 (Fri) - a/repo".to_string()));
    assert_eq!(group_header(719_163, "x/y"), Some("1970-01-01 (Thu) - x/y".to_string()));
    assert_eq!(group_header(1, "x/y"), Some("0001-01-01 (Mon) - x/y".to_string()));
}

#[test]
fn header_exists_for_calendar_days_only() {
    assert!(group_header(MIN_DAY, "r").is_some());
    assert!(group_header(MAX_DAY, "r").is_some());
    assert!(group_header(MIN_DAY - 1, "r").is_none());
    assert!(group_header(MAX_DAY + 1, "r").is_none());
    assert!(group_header(i32::MIN, "r").is_none());
    assert!(group_header(i32::MAX, "r").is_none());
}

#[test]
fn printed_lines_are_indented() {
    let top = Line { nested: false, text: "Push to x:".to_string() };
    let item = Line { nested: true, text: "abc by A - t".to_string() };
    assert_eq!(print_line(&top), "\tPush to x:");
    assert_eq!(print_line(&item), "\t\t* abc by A - t");
}

#[test]
fn days_in_calendar_checks_every_group() {
    let good = Group { day: 738_890, repo_name: "a/b".to_string(), events: vec![] };
    let bad = Group { day: MAX_DAY + 1, repo_name: "a/b".to_string(), events: vec![] };
    assert!(days_in_calendar(&vec![]));
    assert!(days_in_calendar(&vec![good.clone()]));
    assert!(!days_in_calendar(&vec![good, bad]));
}

#[test]
fn timeline_has_headers_lines_and_diagnostics() {
    let mut push = event("1", EventKind::Push, "alice", "a/repo", 738_890);
    push.payload = Some(Payload {
        specific: Some(Specific::Push(PushPayload {
            git_ref: "refs/heads/feature-x".to_string(),
            commits: vec![Commit {
                sha: "abc".to_string(),
                author_name: "Alice".to_string(),
                message: "One\nTwo".to_string(),
            }],
        })),
    });
    let mut bare = event("2", EventKind::Fork, "alice", "a/repo", 738_890);
    bare.payload = None;
    let mut fork = event("3", EventKind::Fork, "alice", "b/repo", 738_891);
    fork.payload =
        Some(Payload { specific: Some(Specific::Fork(ForkPayload { full_name: None })) });
    let groups = organize(vec![fork, push, bare], "alice");
    assert!(days_in_calendar(&groups));
    let out = render_timeline(&groups);
    assert_eq!(out.fatal, None);
    assert_eq!(
        out.lines,
        vec![
            "2024-01-05 (Fri) - a/repo".to_string(),
            "\tPush to refs/heads/feature-x:".to_string(),
            "\t\t* abc by Alice - One".to_string(),
            "\tno payload for event of type ForkEvent".to_string(),
            "2024-01-06 (Sat) - b/repo".to_string(),
            "\tForked ".to_string(),
        ]
    );
}

#[test]
fn timeline_ends_at_the_first_fatal_failure() {
    let first = event("1", EventKind::Watch, "alice", "a/repo", 738_890);
    let mut odd = event("2", EventKind::Member, "alice", "a/repo", 738_890);
    odd.payload = Some(Payload { specific: Some(Specific::Other) });
    let later = event("3", EventKind::Watch, "alice", "a/repo", 738_890);
    let next = event("4", EventKind::Watch, "alice", "b/repo", 738_890);
    let out = render_timeline(&organize(vec![first, odd, later, next], "alice"));
    assert_eq!(
        out.lines,
        vec!["2024-01-05 (Fri) - a/repo".to_string(), "\tWatched the repository".to_string()]
    );
    assert_eq!(out.fatal, Some("Unsupported Event type MemberEvent".to_string()));
}

#[test]
fn timeline_of_nothing_is_empty() {
    let out = render_timeline(&vec![]);
    assert_eq!(out, Rendering { lines: vec![], fatal: None });
    assert_eq!(Rendering::new(), Rendering { lines: vec![], fatal: None });
}

#[test]
fn user_timeline_runs_the_whole_pipeline() {
    let out = user_timeline(feed(), "alice").unwrap();
    assert_eq!(out.fatal, None);
    assert_eq!(
        out.lines,
        vec![
            "2024-01-04 (Thu) - b/repo".to_string(),
            "\tWatched the repository".to_string(),
            "2024-01-05 (Fri) - a/repo".to_string(),
            "\tWatched the repository".to_string(),
            "\tWatched the repository".to_string(),
            "2024-01-05 (Fri) - b/repo".to_string(),
            "\tWatched the repository".to_string(),
            "\tWatched the repository".to_string(),
        ]
    );
}

#[test]
fn user_timeline_needs_calendar_days_of_reported_events_only() {
    let mut events = feed();
    events.push(event("9", EventKind::Watch, "bob", "a/repo", MAX_DAY + 1));
    assert!(user_timeline(events.clone(), "alice").is_some());
    assert!(user_timeline(events.clone(), "bob").is_none());
    events.push(event("10", EventKind::Watch, "alice", "a/repo", MIN_DAY - 1));
    assert!(user_timeline(events, "alice").is_none());
}
