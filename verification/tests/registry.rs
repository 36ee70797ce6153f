use stream_broker::connection::{poll_subscriber, SubscriberAction};
use stream_broker::outcome::{publish_on, PublishOutcome};
use stream_broker::registry::{StreamRegistry, DEFAULT_CAPACITY};
use stream_broker::snapshot::Snapshot;

fn frame(n: usize) -> Vec<u8> {
    format!("f{}", n).into_bytes()
}

#[test]
fn test_app_state_creation() {
    let registry = StreamRegistry::new();
    assert!(registry.is_empty());
}

#[test]
fn new_registry_reports_nothing() {
    let registry = StreamRegistry::new();
    assert_eq!(registry.len(), 0);
    assert_eq!(registry.find("cam1"), None);
    assert_eq!(registry.snapshot(), Snapshot { streams: 0, receivers: 0 });
}

#[test]
fn default_capacity_is_128() {
    assert_eq!(DEFAULT_CAPACITY, 128);
}

#[test]
fn repeated_resolvers_converge_on_one_channel() {
    let mut registry = StreamRegistry::new();
    let first = registry.resolve_or_create("cam1");
    let mut handles = Vec::new();
    for _ in 0..32 {
        handles.push(registry.resolve_or_create("cam1"));
    }
    assert_eq!(registry.len(), 1);
    assert_eq!(registry.find("cam1"), Some(0));
    assert!(registry.holds_channel("cam1", &first));
    for h in handles.iter() {
        assert!(registry.holds_channel("cam1", h));
        assert!(h.same_channel(&first));
    }
}

#[test]
fn distinct_identifiers_get_distinct_channels() {
    let mut registry = StreamRegistry::new();
    let a = registry.resolve_or_create("a");
    let b = registry.resolve_or_create("b");
    let a_again = registry.resolve_or_create("a");
    assert_eq!(registry.len(), 2);
    assert_eq!(registry.find("a"), Some(0));
    assert_eq!(registry.find("b"), Some(1));
    assert!(!a.same_channel(&b));
    assert!(a.same_channel(&a_again));
    assert!(registry.holds_channel("a", &a));
    assert!(!registry.holds_channel("a", &b));
    assert!(!registry.holds_channel("missing", &a));
}

#[test]
fn identifiers_have_no_format() {
    let mut registry = StreamRegistry::new();
    registry.resolve_or_create("");
    registry.resolve_or_create("a/b c");
    registry.resolve_or_create("");
    assert_eq!(registry.len(), 2);
    assert_eq!(registry.find(""), Some(0));
    assert_eq!(registry.find("a/b c"), Some(1));
}

#[test]
fn resolve_creates_nothing() {
    let mut registry = StreamRegistry::new();
    assert!(registry.resolve("cam1").is_none());
    assert_eq!(registry.len(), 0);
    let made = registry.resolve_or_create("cam1");
    let seen = registry.resolve("cam1").unwrap();
    assert!(seen.same_channel(&made));
    assert_eq!(registry.len(), 1);
}

#[test]
fn frame_published_before_attach_is_not_delivered() {
    let mut registry = StreamRegistry::new();
    assert_eq!(registry.publish("s", b"A".to_vec()), PublishOutcome::NoReceivers);
    let mut rx = registry.subscribe("s");
    assert_eq!(poll_subscriber(&mut rx), SubscriberAction::Continue);
    assert_eq!(registry.publish("s", b"B".to_vec()), PublishOutcome::Delivered(1));
    assert_eq!(poll_subscriber(&mut rx), SubscriberAction::Forward(b"B".to_vec()));
    assert_eq!(poll_subscriber(&mut rx), SubscriberAction::Continue);
}

#[test]
fn stalled_subscriber_lags_then_resumes_at_oldest_retained() {
    let mut registry = StreamRegistry::new();
    let mut rx = registry.subscribe("s");
    for n in 1..=133 {
        assert_eq!(registry.publish("s", frame(n)), PublishOutcome::Delivered(1));
    }
    assert_eq!(
        poll_subscriber(&mut rx),
        SubscriberAction::Skip { skipped: 5, warn: false }
    );
    for n in 6..=133 {
        assert_eq!(poll_subscriber(&mut rx), SubscriberAction::Forward(frame(n)));
    }
    assert_eq!(poll_subscriber(&mut rx), SubscriberAction::Continue);
}

#[test]
fn subscriber_exactly_at_capacity_does_not_lag() {
    let mut registry = StreamRegistry::new();
    let mut rx = registry.subscribe("s");
    for n in 1..=128 {
        registry.publish("s", frame(n));
    }
    for n in 1..=128 {
        assert_eq!(poll_subscriber(&mut rx), SubscriberAction::Forward(frame(n)));
    }
    assert_eq!(poll_subscriber(&mut rx), SubscriberAction::Continue);
}

#[test]
fn publish_without_subscribers_reports_no_receivers() {
    let mut registry = StreamRegistry::new();
    registry.resolve_or_create("s");
    assert_eq!(registry.publish("s", b"x".to_vec()), PublishOutcome::NoReceivers);
    assert_eq!(registry.publish_existing("s", b"x".to_vec()), PublishOutcome::NoReceivers);
}

#[test]
fn publish_after_last_subscriber_left_reports_no_receivers() {
    let mut registry = StreamRegistry::new();
    let rx = registry.subscribe("s");
    assert_eq!(registry.publish("s", b"x".to_vec()), PublishOutcome::Delivered(1));
    drop(rx);
    assert_eq!(registry.publish("s", b"y".to_vec()), PublishOutcome::NoReceivers);
}

#[test]
fn publish_to_unknown_stream_creates_the_channel() {
    let mut registry = StreamRegistry::new();
    assert_eq!(registry.publish("new", b"x".to_vec()), PublishOutcome::NoReceivers);
    assert_eq!(registry.len(), 1);
    assert_eq!(registry.find("new"), Some(0));
}

#[test]
fn publish_existing_to_unknown_stream_reports_no_channel() {
    let mut registry = StreamRegistry::new();
    assert_eq!(registry.publish_existing("new", b"x".to_vec()), PublishOutcome::NoChannel);
    assert_eq!(registry.len(), 0);
    let mut rx = registry.subscribe("new");
    assert_eq!(registry.publish_existing("new", b"y".to_vec()), PublishOutcome::Delivered(1));
    assert_eq!(poll_subscriber(&mut rx), SubscriberAction::Forward(b"y".to_vec()));
}

#[test]
fn two_subscribers_receive_every_frame_in_order() {
    let mut registry = StreamRegistry::new();
    let mut fast = registry.subscribe("s");
    let mut slow = registry.subscribe("s");
    for n in 1..=50 {
        assert_eq!(registry.publish("s", frame(n)), PublishOutcome::Delivered(2));
        assert_eq!(poll_subscriber(&mut fast), SubscriberAction::Forward(frame(n)));
    }
    for n in 1..=50 {
        assert_eq!(poll_subscriber(&mut slow), SubscriberAction::Forward(frame(n)));
    }
    assert_eq!(poll_subscriber(&mut fast), SubscriberAction::Continue);
    assert_eq!(poll_subscriber(&mut slow), SubscriberAction::Continue);
}

#[test]
fn slow_subscriber_does_not_disturb_a_fast_one() {
    let mut registry = StreamRegistry::new();
    let mut fast = registry.subscribe("s");
    let mut slow = registry.subscribe("s");
    for n in 1..=140 {
        assert_eq!(registry.publish("s", frame(n)), PublishOutcome::Delivered(2));
        assert_eq!(poll_subscriber(&mut fast), SubscriberAction::Forward(frame(n)));
    }
    assert_eq!(
        poll_subscriber(&mut slow),
        SubscriberAction::Skip { skipped: 12, warn: true }
    );
    assert_eq!(poll_subscriber(&mut slow), SubscriberAction::Forward(frame(13)));
}

#[test]
fn streams_are_independent() {
    let mut registry = StreamRegistry::new();
    let mut a = registry.subscribe("a");
    let mut b = registry.subscribe("b");
    assert_eq!(registry.publish("a", b"1".to_vec()), PublishOutcome::Delivered(1));
    assert_eq!(poll_subscriber(&mut b), SubscriberAction::Continue);
    assert_eq!(poll_subscriber(&mut a), SubscriberAction::Forward(b"1".to_vec()));
}

#[test]
fn detaching_a_subscriber_lowers_the_snapshot_count() {
    let mut registry = StreamRegistry::new();
    let rx1 = registry.subscribe("a");
    let rx2 = registry.subscribe("a");
    let rx3 = registry.subscribe("b");
    registry.resolve_or_create("c");
    assert_eq!(registry.snapshot(), Snapshot { streams: 3, receivers: 3 });
    drop(rx2);
    assert_eq!(registry.snapshot(), Snapshot { streams: 3, receivers: 2 });
    drop(rx1);
    drop(rx3);
    assert_eq!(registry.snapshot(), Snapshot { streams: 3, receivers: 0 });
}

#[test]
fn cam1_stalled_subscriber_skips_72_of_200() {
    let mut registry = StreamRegistry::new();
    let mut rx = registry.subscribe("cam1");
    for n in 1..=200 {
        assert_eq!(registry.publish("cam1", frame(n)), PublishOutcome::Delivered(1));
    }
    match poll_subscriber(&mut rx) {
        SubscriberAction::Skip { skipped, warn } => {
            assert!(skipped >= 72);
            assert_eq!(skipped, 72);
            assert!(warn);
        }
        other => panic!("expected a lag, got {:?}", other),
    }
    for n in 73..=200 {
        assert_eq!(poll_subscriber(&mut rx), SubscriberAction::Forward(frame(n)));
    }
    assert_eq!(poll_subscriber(&mut rx), SubscriberAction::Continue);
}

#[test]
fn cam1_slow_subscriber_loses_frames_and_ends_contiguous() {
    let mut registry = StreamRegistry::new();
    let mut rx = registry.subscribe("cam1");
    let mut delivered: Vec<Vec<u8>> = Vec::new();
    let mut skipped_total: u64 = 0;
    let mut lags: usize = 0;
    let mut since_last_lag: Vec<Vec<u8>> = Vec::new();
    for n in 1..=200 {
        assert_eq!(registry.publish("cam1", frame(n)), PublishOutcome::Delivered(1));
        if n % 10 == 0 {
            match poll_subscriber(&mut rx) {
                SubscriberAction::Forward(data) => {
                    delivered.push(data.clone());
                    since_last_lag.push(data);
                }
                SubscriberAction::Skip { skipped, .. } => {
                    skipped_total += skipped;
                    lags += 1;
                    since_last_lag.clear();
                }
                other => panic!("unexpected {:?}", other),
            }
        }
    }
    loop {
        match poll_subscriber(&mut rx) {
            SubscriberAction::Forward(data) => {
                delivered.push(data.clone());
                since_last_lag.push(data);
            }
            SubscriberAction::Skip { skipped, .. } => {
                skipped_total += skipped;
                lags += 1;
                since_last_lag.clear();
            }
            SubscriberAction::Continue => break,
            other => panic!("unexpected {:?}", other),
        }
    }
    assert!(lags >= 1);
    assert_eq!(delivered.len() as u64 + skipped_total, 200);
    assert_eq!(skipped_total, 58);
    let first_after = 200 - since_last_lag.len() + 1;
    for (k, data) in since_last_lag.iter().enumerate() {
        assert_eq!(*data, frame(first_after + k));
    }
    assert_eq!(since_last_lag.len(), 128);
}

#[test]
fn concurrent_first_references_create_one_channel() {
    let runtime = tokio::runtime::Builder::new_multi_thread()
        .worker_threads(4)
        .build()
        .unwrap();
    let registry = std::sync::Arc::new(std::sync::Mutex::new(StreamRegistry::new()));
    let mut workers = Vec::new();
    for _ in 0..16 {
        let shared = registry.clone();
        workers.push(runtime.spawn_blocking(move || {
            shared.lock().unwrap().resolve_or_create("cam1")
        }));
    }
    let mut handles = Vec::new();
    for w in workers {
        handles.push(runtime.block_on(w).unwrap());
    }
    let registry = registry.lock().unwrap();
    assert_eq!(registry.len(), 1);
    for h in handles.iter() {
        assert!(registry.holds_channel("cam1", h));
        assert!(h.same_channel(&handles[0]));
    }
}

#[test]
fn awaited_read_delivers_the_next_frame() {
    let runtime = tokio::runtime::Builder::new_current_thread().build().unwrap();
    let mut registry = StreamRegistry::new();
    let mut rx = registry.subscribe("cam1");
    assert_eq!(registry.publish("cam1", b"one".to_vec()), PublishOutcome::Delivered(1));
    assert_eq!(registry.publish("cam1", b"two".to_vec()), PublishOutcome::Delivered(1));
    let first = runtime.block_on(rx.recv()).unwrap();
    assert_eq!(&first[..], b"one");
    assert_eq!(poll_subscriber(&mut rx), SubscriberAction::Forward(b"two".to_vec()));
}

#[test]
fn publish_on_a_handle_reaches_the_registered_channel() {
    let mut registry = StreamRegistry::new();
    let tx = registry.resolve_or_create("cam1");
    assert_eq!(publish_on(&tx, b"lost".to_vec()), PublishOutcome::NoReceivers);
    let mut rx1 = registry.subscribe("cam1");
    let mut rx2 = registry.subscribe("cam1");
    assert_eq!(publish_on(&tx, b"kept".to_vec()), PublishOutcome::Delivered(2));
    assert_eq!(poll_subscriber(&mut rx1), SubscriberAction::Forward(b"kept".to_vec()));
    assert_eq!(poll_subscriber(&mut rx2), SubscriberAction::Forward(b"kept".to_vec()));
}

#[test]
fn subscriber_and_producer_meet_on_one_channel_in_either_order() {
    let mut registry = StreamRegistry::new();
    let mut rx = registry.subscribe("first-sub");
    let tx = registry.resolve_or_create("first-sub");
    assert_eq!(publish_on(&tx, vec![1]), PublishOutcome::Delivered(1));
    assert_eq!(poll_subscriber(&mut rx), SubscriberAction::Forward(vec![1]));

    let tx = registry.resolve_or_create("first-pub");
    let mut rx = registry.subscribe("first-pub");
    assert_eq!(publish_on(&tx, vec![1]), PublishOutcome::Delivered(1));
    assert_eq!(poll_subscriber(&mut rx), SubscriberAction::Forward(vec![1]));
    assert_eq!(registry.len(), 2);
}

#[test]
fn every_subscriber_of_an_identifier_is_on_its_channel() {
    let mut registry = StreamRegistry::new();
    let mut cursors = Vec::new();
    for _ in 0..5 {
        cursors.push(registry.subscribe("cam1"));
        registry.subscribe("other");
    }
    assert_eq!(registry.len(), 2);
    assert_eq!(registry.snapshot(), Snapshot { streams: 2, receivers: 5 });
    assert_eq!(registry.publish("cam1", b"f".to_vec()), PublishOutcome::Delivered(5));
    for rx in cursors.iter_mut() {
        assert_eq!(poll_subscriber(rx), SubscriberAction::Forward(b"f".to_vec()));
        assert_eq!(poll_subscriber(rx), SubscriberAction::Continue);
    }
}

#[test]
fn find_knows_many_identifiers() {
    let mut registry = StreamRegistry::new();
    for n in 0..200 {
        registry.resolve_or_create(&format!("stream-{}", n));
    }
    for n in 0..200 {
        assert_eq!(registry.find(&format!("stream-{}", n)), Some(n));
    }
    assert_eq!(registry.find("stream-200"), None);
    assert_eq!(registry.len(), 200);
}
