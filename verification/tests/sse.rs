use bastionclaw::event_id::{is_event_after, make_event_id, parse_event_id};
use bastionclaw::replay::{ScopedEvent, REPLAY_BUFFER_CAP};
use bastionclaw::sse::{
    scoped_to_sse_event, SseManager, Subscription, DEFAULT_MAX_CONNECTIONS,
};

#[derive(Debug, PartialEq)]
enum AppEvent {
    Heartbeat,
    Status { message: String },
    Thinking { message: String },
}

fn status(msg: &str) -> AppEvent {
    AppEvent::Status { message: msg.to_string() }
}

fn message(event: &AppEvent) -> &str {
    match event {
        AppEvent::Status { message } => message,
        AppEvent::Thinking { message } => message,
        AppEvent::Heartbeat => "heartbeat",
    }
}

/// What a connection is sent when these events come over the channel.
fn received<'a>(
    sub: &'a Subscription<AppEvent>,
    live: &'a [ScopedEvent<AppEvent>],
) -> Vec<&'a str> {
    let mut out: Vec<&str> = sub.replay.iter().map(|e| message(&e.event)).collect();
    out.extend(live.iter().filter(|e| sub.delivers(e)).map(|e| message(&e.event)));
    out
}

#[test]
fn test_sse_manager_creation() {
    let manager: SseManager<AppEvent> = SseManager::new();
    assert_eq!(manager.connection_count(), 0);
    assert_eq!(manager.max_connections(), DEFAULT_MAX_CONNECTIONS);
}

#[test]
fn test_broadcast_without_receivers() {
    let mut manager = SseManager::new();
    manager.broadcast(AppEvent::Heartbeat);
}

#[test]
fn test_broadcast_to_receiver() {
    let mut manager = SseManager::new();
    let sub = manager.subscribe_raw(None).expect("should subscribe");
    let live = vec![manager.broadcast(status("test"))];
    assert_eq!(received(&sub, &live), vec!["test"]);
}

#[test]
fn test_subscribe_raw_receives_events() {
    let mut manager = SseManager::new();
    let sub = manager.subscribe_raw(None).expect("should subscribe");
    assert_eq!(manager.connection_count(), 1);

    let live = vec![manager.broadcast(AppEvent::Thinking { message: "working".to_string() })];
    assert_eq!(received(&sub, &live), vec!["working"]);
    assert!(matches!(*live[0].event, AppEvent::Thinking { .. }));
}

#[test]
fn test_subscribe_raw_decrements_on_drop() {
    let mut manager: SseManager<AppEvent> = SseManager::new();
    let _sub = manager.subscribe_raw(None).expect("should subscribe");
    assert_eq!(manager.connection_count(), 1);
    manager.disconnect();
    assert_eq!(manager.connection_count(), 0);
}

#[test]
fn test_subscribe_raw_multiple_subscribers() {
    let mut manager = SseManager::new();
    let s1 = manager.subscribe_raw(None).expect("should subscribe");
    let s2 = manager.subscribe_raw(None).expect("should subscribe");
    assert_eq!(manager.connection_count(), 2);

    let live = vec![manager.broadcast(AppEvent::Heartbeat)];
    assert_eq!(received(&s1, &live), vec!["heartbeat"]);
    assert_eq!(received(&s2, &live), vec!["heartbeat"]);

    manager.disconnect();
    assert_eq!(manager.connection_count(), 1);
    manager.disconnect();
    assert_eq!(manager.connection_count(), 0);
}

#[test]
fn test_subscribe_raw_rejects_over_limit() {
    let mut manager: SseManager<AppEvent> = SseManager::with_max_connections(2);
    let _s1 = manager.subscribe_raw(None).expect("first should succeed");
    let _s2 = manager.subscribe_raw(None).expect("second should succeed");
    assert_eq!(manager.connection_count(), 2);

    assert!(manager.subscribe_raw(None).is_none());
    assert!(manager.subscribe(None, None).is_none());
    assert_eq!(manager.connection_count(), 2);

    manager.disconnect();
    assert!(manager.subscribe(None, None).is_some());
}

#[test]
fn a_limit_of_zero_takes_no_connection() {
    let mut manager: SseManager<AppEvent> = SseManager::with_max_connections(0);
    assert!(manager.subscribe(Some("alice".to_string()), None).is_none());
    assert_eq!(manager.max_connections(), 0);
}

#[test]
fn test_scoped_events_filtered_by_user() {
    let mut manager = SseManager::new();
    let alice = manager.subscribe_raw(Some("alice".to_string())).expect("subscribe");
    let bob = manager.subscribe_raw(Some("bob".to_string())).expect("subscribe");
    let all = manager.subscribe_raw(None).expect("subscribe");

    let live = vec![
        manager.broadcast_for_user("alice", status("alice only")),
        manager.broadcast(AppEvent::Heartbeat),
    ];

    assert_eq!(received(&alice, &live), vec!["alice only", "heartbeat"]);
    assert_eq!(received(&bob, &live), vec!["heartbeat"]);
    assert_eq!(received(&all, &live), vec!["alice only", "heartbeat"]);
}

#[test]
fn test_is_event_after_filters_same_boot_duplicates() {
    assert!(is_event_after(Some("boot:4"), "boot:5"));
    assert!(!is_event_after(Some("boot:5"), "boot:5"));
    assert!(!is_event_after(Some("boot:6"), "boot:5"));
}

#[test]
fn test_is_event_after_ignores_other_boots_and_invalid_ids() {
    assert!(is_event_after(Some("old-boot:99"), "new-boot:1"));
    assert!(is_event_after(Some("not-an-id"), "new-boot:1"));
    assert!(is_event_after(Some("boot:1"), "also-bad"));
}

#[test]
fn everything_is_after_nothing() {
    assert!(is_event_after(None, "boot:1"));
    assert!(is_event_after(None, "junk"));
}

#[test]
fn event_ids_are_taken_apart_at_the_first_colon() {
    assert_eq!(parse_event_id("boot:42"), Some(("boot", 42)));
    assert_eq!(parse_event_id("boot:+42"), Some(("boot", 42)));
    assert_eq!(parse_event_id("boot:007"), Some(("boot", 7)));
    assert_eq!(parse_event_id(":0"), Some(("", 0)));
    assert_eq!(parse_event_id("boot:18446744073709551615"), Some(("boot", u64::MAX)));
    assert_eq!(parse_event_id("boot:18446744073709551616"), None);
    assert_eq!(parse_event_id("boot:-1"), None);
    assert_eq!(parse_event_id("boot:"), None);
    assert_eq!(parse_event_id("boot:+"), None);
    assert_eq!(parse_event_id("a:b:1"), None);
    assert_eq!(parse_event_id("boot"), None);
}

#[test]
fn event_ids_are_put_together() {
    assert_eq!(make_event_id("boot", 0), "boot:0");
    assert_eq!(make_event_id("boot", 1203), "boot:1203");
    assert_eq!(make_event_id("boot", u64::MAX), "boot:18446744073709551615");
}

#[test]
fn events_are_numbered_from_one_under_a_random_run_id() {
    let mut first = SseManager::new();
    let mut second = SseManager::new();
    let a = first.broadcast(AppEvent::Heartbeat);
    let b = first.broadcast_for_user("alice", status("x"));
    let c = second.broadcast(AppEvent::Heartbeat);
    let (boot_a, seq_a) = parse_event_id(&a.id).expect("id");
    let (boot_b, seq_b) = parse_event_id(&b.id).expect("id");
    let (boot_c, seq_c) = parse_event_id(&c.id).expect("id");
    assert_eq!((seq_a, seq_b, seq_c), (1, 2, 1));
    assert_eq!(boot_a, boot_b);
    assert_ne!(boot_a, boot_c);
    assert_eq!(boot_a.len(), 36);
    assert_eq!(&boot_a[14..15], "4");
    assert!(boot_a.chars().all(|ch| ch == '-' || ch.is_ascii_digit() || ('a'..='f').contains(&ch)));
    assert_eq!(a.user_id, None);
    assert_eq!(b.user_id.as_deref(), Some("alice"));
}

#[test]
fn a_run_can_be_named() {
    let mut manager = SseManager::with_boot_id("run-7".to_string(), 3);
    assert_eq!(manager.max_connections(), 3);
    assert_eq!(manager.connection_count(), 0);
    assert_eq!(manager.broadcast(AppEvent::Heartbeat).id, "run-7:1");
    assert_eq!(manager.broadcast_for_user("alice", status("x")).id, "run-7:2");
}

#[test]
fn test_replay_yields_buffered_events_before_live() {
    let mut manager = SseManager::new();
    manager.broadcast_for_user("alice", status("buffered-1"));
    manager.broadcast_for_user("alice", status("buffered-2"));

    let alice = manager.subscribe_raw(Some("alice".to_string())).expect("subscribe");
    let live = vec![manager.broadcast_for_user("alice", status("live-1"))];

    assert_eq!(received(&alice, &live), vec!["buffered-1", "buffered-2", "live-1"]);
}

#[test]
fn test_replay_buffer_caps_at_replay_buffer_cap() {
    let mut manager = SseManager::new();
    let total = REPLAY_BUFFER_CAP + 5;
    for i in 0..total {
        manager.broadcast_for_user("alice", status(&format!("evt-{i}")));
    }

    let alice = manager.subscribe_raw(Some("alice".to_string())).expect("subscribe");
    let seen = received(&alice, &[]);
    let first_idx = total - REPLAY_BUFFER_CAP;
    assert_eq!(seen[0], format!("evt-{first_idx}"));
    assert_eq!(seen.len(), REPLAY_BUFFER_CAP);
    assert_eq!(seen[REPLAY_BUFFER_CAP - 1], format!("evt-{}", total - 1));
}

#[test]
fn test_replay_buffers_are_per_user() {
    let mut manager = SseManager::new();
    manager.broadcast_for_user("alice", status("alice-1"));
    manager.broadcast_for_user("bob", status("bob-1"));
    manager.broadcast_for_user("alice", status("alice-2"));

    let bob = manager.subscribe_raw(Some("bob".to_string())).expect("subscribe");
    assert_eq!(received(&bob, &[]), vec!["bob-1"]);
    let alice = manager.subscribe_raw(Some("alice".to_string())).expect("subscribe");
    assert_eq!(received(&alice, &[]), vec!["alice-1", "alice-2"]);
    let carol = manager.subscribe_raw(Some("carol".to_string())).expect("subscribe");
    assert!(received(&carol, &[]).is_empty());
    let nobody = manager.subscribe_raw(None).expect("subscribe");
    assert!(received(&nobody, &[]).is_empty());
}

#[test]
fn test_replay_buffer_does_not_survive_manager_drop() {
    let mut first = SseManager::new();
    first.broadcast_for_user("alice", status("from-first"));
    drop(first);

    let mut second = SseManager::new();
    let alice = second.subscribe_raw(Some("alice".to_string())).expect("subscribe");
    let live = vec![second.broadcast_for_user("alice", status("from-second"))];
    assert_eq!(received(&alice, &live), vec!["from-second"]);
}

#[test]
fn test_replay_does_not_duplicate_live_events() {
    let mut manager = SseManager::new();
    let pre = manager.broadcast_for_user("alice", status("pre-1"));
    let alice = manager.subscribe_raw(Some("alice".to_string())).expect("subscribe");
    // The channel may still hold an event that was replayed.
    let live = vec![pre, manager.broadcast_for_user("alice", status("post-1"))];
    assert_eq!(received(&alice, &live), vec!["pre-1", "post-1"]);
}

#[test]
fn events_of_another_run_on_a_shared_channel_are_delivered() {
    let mut a = SseManager::new();
    let mut b = SseManager::with_max_connections(10);
    let own = b.broadcast_for_user("alice", status("b1"));
    let sub = b.subscribe_raw(Some("alice".to_string())).expect("subscribe");
    // Both runs number from one, so that the numbers alone would not tell.
    let live = vec![own, a.broadcast(AppEvent::Heartbeat), a.broadcast_for_user("bob", status("x"))];
    assert_eq!(received(&sub, &live), vec!["b1", "heartbeat"]);
    assert_eq!(sub.replay_max_seq, Some(1));
}

#[test]
fn reconnecting_clients_are_not_sent_what_they_saw() {
    let mut manager = SseManager::new();
    let one = manager.broadcast_for_user("alice", status("one"));
    let two = manager.broadcast_for_user("alice", status("two"));
    let three = manager.broadcast_for_user("alice", status("three"));

    let alice = manager
        .subscribe(Some("alice".to_string()), Some(two.id.clone()))
        .expect("subscribe");
    assert_eq!(alice.replay_max_seq, Some(3));
    let four = manager.broadcast_for_user("alice", status("four"));
    let live = vec![one, two, three, four];
    assert_eq!(received(&alice, &live), vec!["three", "four"]);
}

#[test]
fn unscoped_clients_are_not_sent_what_they_saw() {
    let mut manager = SseManager::new();
    let one = manager.broadcast(status("one"));
    let tab = manager.subscribe(None, Some(one.id.clone())).expect("subscribe");
    let two = manager.broadcast(status("two"));
    let live = vec![one, two];
    assert_eq!(received(&tab, &live), vec!["two"]);
}

#[test]
fn a_restart_hides_no_events() {
    let mut manager = SseManager::new();
    manager.broadcast_for_user("alice", status("one"));
    let alice = manager
        .subscribe(Some("alice".to_string()), Some("another-run:900".to_string()))
        .expect("subscribe");
    assert_eq!(received(&alice, &[]), vec!["one"]);
}

#[test]
fn replayed_events_keep_their_ids() {
    let mut manager = SseManager::new();
    let one = manager.broadcast_for_user("alice", status("one"));
    let alice = manager.subscribe_raw(Some("alice".to_string())).expect("subscribe");
    assert_eq!(alice.replay[0].id, one.id);
    assert_eq!(alice.replay[0].user_id, one.user_id);
    assert_eq!(*alice.replay[0].event, *one.event);
}

#[test]
fn frames_carry_id_type_and_data() {
    let mut manager = SseManager::new();
    let event = manager.broadcast(AppEvent::Heartbeat);
    let frame = scoped_to_sse_event(&event, "heartbeat", Ok("{}".to_string())).expect("frame");
    assert_eq!(frame.id, event.id);
    assert_eq!(frame.event, "heartbeat");
    assert_eq!(frame.data, "{}");
    assert!(scoped_to_sse_event(&event, "heartbeat", Err("no".to_string())).is_none());
}
