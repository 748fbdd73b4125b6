use cargo_chrono::broker::{EventBroker, SendOutcome};
use cargo_chrono::model::BuildEvent;
use cargo_chrono::time::Duration;

fn sample_build_finished() -> BuildEvent {
    BuildEvent::BuildFinished {
        success: true,
        total_duration: Duration::from_secs(1),
        at: "2025-04-19T12:00:00Z".to_string(),
    }
}

#[test]
fn every_subscriber_receives_every_event() {
    let mut broker = EventBroker::new();
    let mut rx1 = broker.subscribe(16);
    let mut rx2 = broker.subscribe(16);
    let outcomes = broker.broadcast(&sample_build_finished());
    assert_eq!(outcomes, vec![SendOutcome::Sent, SendOutcome::Sent]);
    assert!(matches!(rx1.try_recv(), Ok(BuildEvent::BuildFinished { success: true, .. })));
    assert!(matches!(rx2.try_recv(), Ok(BuildEvent::BuildFinished { success: true, .. })));
}

#[test]
fn dead_subscriber_does_not_block_others() {
    let mut broker = EventBroker::new();
    let rx_dead = broker.subscribe(16);
    let mut rx_live = broker.subscribe(16);
    drop(rx_dead);
    let first = broker.broadcast(&sample_build_finished());
    assert_eq!(first, vec![SendOutcome::Closed, SendOutcome::Sent]);
    // The dead subscriber is gone for good.
    let second = broker.broadcast(&sample_build_finished());
    assert_eq!(second, vec![SendOutcome::Sent]);
    assert!(rx_live.try_recv().is_ok());
    assert!(rx_live.try_recv().is_ok());
}

#[test]
fn full_subscriber_is_removed() {
    let mut broker = EventBroker::new();
    let mut rx_small = broker.subscribe(1);
    let mut rx_big = broker.subscribe(16);
    assert_eq!(
        broker.broadcast(&sample_build_finished()),
        vec![SendOutcome::Sent, SendOutcome::Sent]
    );
    assert_eq!(
        broker.broadcast(&sample_build_finished()),
        vec![SendOutcome::Full, SendOutcome::Sent]
    );
    // The small subscriber drains its one event; it was dropped when found full.
    assert!(rx_small.try_recv().is_ok());
    assert_eq!(broker.broadcast(&sample_build_finished()), vec![SendOutcome::Sent]);
    assert!(rx_small.try_recv().is_err());
    for _ in 0..3 {
        assert!(rx_big.try_recv().is_ok());
    }
}

#[test]
fn subscribe_without_publish_does_not_panic() {
    let mut broker = EventBroker::new();
    let _rx = broker.subscribe(16);
    let none = EventBroker::new().broadcast(&sample_build_finished());
    assert!(none.is_empty());
}
