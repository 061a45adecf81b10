use trade_relay::catalog::MessageKind;
use trade_relay::subs::{SubHandle, SubscriptionSet};
use trade_relay::Endpoint;

fn handle(id: u64, topic: &str) -> SubHandle {
    SubHandle { id, mtype: MessageKind::Chart, topic: topic.to_string(), stopped: false }
}

#[test]
fn abort_stops_every_handle_and_reports_the_live_ones() {
    let mut set = SubscriptionSet {
        endpoint: Endpoint { ip: "127.0.0.1".to_string(), port: 7551 },
        handles: vec![handle(3, "a"), handle(4, "b"), handle(9, "c")],
    };
    let stopped = set.abort();
    assert_eq!(stopped, vec![3u64, 4u64, 9u64]);
    assert!(set.handles.iter().all(|h| h.stopped));
}

#[test]
fn abort_twice_is_a_no_op_the_second_time() {
    let mut set = SubscriptionSet {
        endpoint: Endpoint { ip: "127.0.0.1".to_string(), port: 7551 },
        handles: vec![handle(0, "a"), handle(1, "b")],
    };
    let first = set.abort();
    assert_eq!(first, vec![0u64, 1u64]);
    let second = set.abort();
    assert!(second.is_empty());
    assert_eq!(set.handles.len(), 2);
    assert!(set.handles.iter().all(|h| h.stopped));
    assert_eq!(set.handles[0].topic, "a");
    assert_eq!(set.handles[1].topic, "b");
}

#[test]
fn abort_on_an_empty_set_is_safe() {
    let mut set = SubscriptionSet::empty(Endpoint { ip: "::1".to_string(), port: 1 });
    let stopped = set.abort();
    assert!(stopped.is_empty());
    let stopped_again = set.abort();
    assert!(stopped_again.is_empty());
}

#[test]
fn abort_skips_handles_already_stopped() {
    let mut set = SubscriptionSet {
        endpoint: Endpoint { ip: "127.0.0.1".to_string(), port: 7551 },
        handles: vec![
            handle(0, "a"),
            SubHandle { id: 1, mtype: MessageKind::Candle, topic: "b".to_string(), stopped: true },
            handle(2, "c"),
        ],
    };
    let stopped = set.abort();
    assert_eq!(stopped, vec![0u64, 2u64]);
}

#[test]
fn stop_is_idempotent_on_a_handle() {
    let mut h = handle(5, "x");
    h.stop();
    assert!(h.stopped);
    h.stop();
    assert!(h.stopped);
    assert_eq!(h.id, 5);
    assert_eq!(h.topic, "x");
}
