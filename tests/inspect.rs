use c2pa_preview::affinity::{StartupInspect, Target};
use c2pa_preview::inspect::{InspectState, Outbound};

fn window() -> InspectState {
    InspectState::new("inspect-0".to_string())
}

fn inspect_events(out: &[Outbound]) -> usize {
    out.iter().filter(|o| matches!(o, Outbound::Inspect(_))).count()
}

#[test]
fn new_window_is_not_ready_and_empty() {
    let s = window();
    assert!(!s.is_ready());
    assert_eq!(s.queued_path(), None);
    assert!(s.error_backlog().is_empty());
    assert_eq!(s.label, "inspect-0");
}

#[test]
fn send_before_ready_queues_latest_path_and_emits_nothing() {
    let mut s = window();
    assert!(s.send("/x.png".to_string()).is_empty());
    assert!(s.send("/y.png".to_string()).is_empty());
    assert!(s.send("/z.png".to_string()).is_empty());
    assert_eq!(s.queued_path(), Some("/z.png".to_string()));
    assert!(!s.is_ready());
}

#[test]
fn send_after_ready_grants_then_emits() {
    let mut s = window();
    assert!(s.ready().is_empty());
    let out = s.send("/c.png".to_string());
    assert_eq!(
        out,
        vec![
            Outbound::AllowFile("/c.png".to_string()),
            Outbound::Inspect("/c.png".to_string())
        ]
    );
    assert_eq!(s.queued_path(), None);
}

#[test]
fn ready_with_nothing_pending_emits_nothing_twice() {
    let mut s = window();
    assert!(s.ready().is_empty());
    assert!(s.is_ready());
    assert!(s.ready().is_empty());
    assert!(s.is_ready());
    assert_eq!(s.queued_path(), None);
}

#[test]
fn ready_twice_never_redelivers() {
    let mut s = window();
    s.send("/a.jpg".to_string());
    s.error_string("first".to_string());
    let first = s.ready();
    assert_eq!(
        first,
        vec![
            Outbound::AllowFile("/a.jpg".to_string()),
            Outbound::Inspect("/a.jpg".to_string()),
            Outbound::Error("first".to_string())
        ]
    );
    assert!(s.ready().is_empty());
    assert!(s.error_backlog().is_empty());
}

#[test]
fn errors_before_ready_are_emitted_in_order() {
    let mut s = window();
    for m in ["e1", "e2", "e3"] {
        assert!(s.error_string(m.to_string()).is_empty());
    }
    assert_eq!(
        s.error_backlog(),
        vec!["e1".to_string(), "e2".to_string(), "e3".to_string()]
    );
    assert_eq!(
        s.ready(),
        vec![
            Outbound::Error("e1".to_string()),
            Outbound::Error("e2".to_string()),
            Outbound::Error("e3".to_string())
        ]
    );
}

#[test]
fn errors_follow_the_queued_delivery() {
    let mut s = window();
    s.error_string("e1".to_string());
    s.send("/p.jpg".to_string());
    s.error_string("e2".to_string());
    assert_eq!(
        s.ready(),
        vec![
            Outbound::AllowFile("/p.jpg".to_string()),
            Outbound::Inspect("/p.jpg".to_string()),
            Outbound::Error("e1".to_string()),
            Outbound::Error("e2".to_string())
        ]
    );
}

#[test]
fn error_after_ready_is_emitted_at_once() {
    let mut s = window();
    s.ready();
    assert_eq!(
        s.error_string("late".to_string()),
        vec![Outbound::Error("late".to_string())]
    );
    assert!(s.error_backlog().is_empty());
}

#[test]
fn cli_path_is_delivered_once_after_ready() {
    let mut startup = StartupInspect::new(1_000);
    let mut s = window();
    assert_eq!(startup.dispatch(1_000 + 10_000_000), Target::StartupWindow);
    assert!(s.send("/a.jpg".to_string()).is_empty());
    assert_eq!(s.queued_path(), Some("/a.jpg".to_string()));
    let mut all = s.ready();
    all.extend(s.ready());
    assert_eq!(inspect_events(&all), 1);
    assert!(all.contains(&Outbound::Inspect("/a.jpg".to_string())));
}

#[test]
fn only_latest_of_two_queued_paths_is_emitted() {
    let mut s = window();
    let mut all = s.send("/a.jpg".to_string());
    all.extend(s.send("/b.jpg".to_string()));
    all.extend(s.ready());
    all.extend(s.ready());
    assert_eq!(
        all,
        vec![
            Outbound::AllowFile("/b.jpg".to_string()),
            Outbound::Inspect("/b.jpg".to_string())
        ]
    );
}

#[test]
fn ready_payload_for_this_window_makes_it_ready() {
    let mut s = window();
    s.send("/q.jpg".to_string());
    let (out, done) = s.ready_payload(Ok("inspect-0".to_string()));
    assert!(done);
    assert!(s.is_ready());
    assert_eq!(inspect_events(&out), 1);
}

#[test]
fn ready_payload_for_another_window_is_ignored() {
    let mut s = window();
    s.send("/q.jpg".to_string());
    let (out, done) = s.ready_payload(Ok("inspect-1".to_string()));
    assert!(!done);
    assert!(out.is_empty());
    assert!(!s.is_ready());
    assert_eq!(s.queued_path(), Some("/q.jpg".to_string()));
}

#[test]
fn ready_payload_parse_error_is_reported() {
    let mut s = window();
    let (out, done) = s.ready_payload(Err("bad payload".to_string()));
    assert!(!done);
    assert!(out.is_empty());
    assert_eq!(s.error_backlog(), vec!["bad payload".to_string()]);
}

#[test]
fn ready_event_parses_json_string_payload() {
    let mut s = window();
    s.send("/r.jpg".to_string());
    let (out, done) = s.ready_event("\"inspect-0\"");
    assert!(done);
    assert!(s.is_ready());
    assert_eq!(
        out,
        vec![
            Outbound::AllowFile("/r.jpg".to_string()),
            Outbound::Inspect("/r.jpg".to_string())
        ]
    );
}

#[test]
fn ready_event_with_unquoted_label_is_a_parse_error() {
    let mut s = window();
    let (out, done) = s.ready_event("inspect-0");
    assert!(!done);
    assert!(out.is_empty());
    assert!(!s.is_ready());
    assert_eq!(s.error_backlog().len(), 1);
}

#[test]
fn ready_event_for_another_window_is_ignored() {
    let mut s = window();
    let (out, done) = s.ready_event("\"inspect-7\"");
    assert!(!done);
    assert!(out.is_empty());
    assert!(!s.is_ready());
    assert!(s.error_backlog().is_empty());
}
