use bsky_fanout::channel::FAN_IN_CAPACITY;
use bsky_fanout::channel::FanInChannel;
use bsky_fanout::channel::RecvOutcome;
use bsky_fanout::channel::SendAttempt;
use bsky_fanout::event::PostEvent;

fn ev(tag: &str) -> PostEvent {
    PostEvent {
        author_id: format!("did:plc:{}", tag),
        text: format!("text {}", tag),
        created_at: "2024-01-01T00:00:00Z".to_string(),
    }
}

#[test]
fn channel_delivers_in_fifo_order() {
    let mut c = FanInChannel::new(4, 1);
    assert_eq!(c.try_send(ev("a")), SendAttempt::Accepted);
    assert_eq!(c.try_send(ev("b")), SendAttempt::Accepted);
    assert_eq!(c.try_send(ev("c")), SendAttempt::Accepted);
    assert_eq!(c.recv(), RecvOutcome::Item(ev("a")));
    assert_eq!(c.recv(), RecvOutcome::Item(ev("b")));
    assert_eq!(c.recv(), RecvOutcome::Item(ev("c")));
}

#[test]
fn channel_never_exceeds_its_capacity_and_applies_backpressure() {
    let mut c = FanInChannel::new(FAN_IN_CAPACITY, 2);
    for i in 0..FAN_IN_CAPACITY {
        assert_eq!(c.try_send(ev(&i.to_string())), SendAttempt::Accepted);
        assert!(c.events.len() <= FAN_IN_CAPACITY);
    }
    // The 101st rapid send is left pending: returned to the sender, not
    // dropped and not an error.
    let pending = ev("extra");
    assert_eq!(c.try_send(pending.clone()), SendAttempt::Full(pending.clone()));
    assert_eq!(c.events.len(), FAN_IN_CAPACITY);
    // Once the publisher drains one event, the pending send goes through.
    assert_eq!(c.recv(), RecvOutcome::Item(ev("0")));
    assert_eq!(c.try_send(pending), SendAttempt::Accepted);
    assert_eq!(c.events.len(), FAN_IN_CAPACITY);
}

#[test]
fn empty_channel_with_live_senders_reports_pending() {
    let mut c = FanInChannel::new(2, 1);
    assert_eq!(c.recv(), RecvOutcome::Pending);
}

#[test]
fn closed_and_drained_channel_reports_disconnected() {
    let mut c = FanInChannel::new(2, 2);
    assert_eq!(c.try_send(ev("a")), SendAttempt::Accepted);
    c.drop_sender();
    c.drop_sender();
    assert_eq!(c.recv(), RecvOutcome::Item(ev("a")));
    assert_eq!(c.recv(), RecvOutcome::Disconnected);
    assert_eq!(c.recv(), RecvOutcome::Disconnected);
}

#[test]
fn send_after_receiver_gone_fails_with_the_event_returned() {
    let mut c = FanInChannel::new(2, 1);
    c.close_receiver();
    let e = ev("a");
    assert_eq!(c.try_send(e.clone()), SendAttempt::Closed(e));
    assert_eq!(c.events.len(), 0);
}
