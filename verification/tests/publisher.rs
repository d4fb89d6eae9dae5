use bsky_fanout::channel::FanInChannel;
use bsky_fanout::channel::SendAttempt;
use bsky_fanout::event::PostEvent;
use bsky_fanout::publisher::PublisherStatus;
use bsky_fanout::publisher::run_publisher;
use bsky_fanout::wire::encode_topic_message;

fn ev(tag: &str) -> PostEvent {
    PostEvent {
        author_id: format!("did:plc:{}", tag),
        text: format!("text {}", tag),
        created_at: "2024-01-01T00:00:00Z".to_string(),
    }
}

fn stocked_channel(tags: &[&str], senders: usize) -> FanInChannel {
    let mut c = FanInChannel::new(10, senders.max(1));
    for t in tags {
        assert_eq!(c.try_send(ev(t)), SendAttempt::Accepted);
    }
    while c.senders > senders {
        c.drop_sender();
    }
    c
}

#[test]
fn publisher_terminates_without_error_on_closed_and_drained() {
    let mut c = stocked_channel(&["a", "b", "c"], 0);
    let report = run_publisher(&mut c, None);
    assert_eq!(report.status, PublisherStatus::Drained);
    assert_eq!(
        report.published,
        vec![
            encode_topic_message(&ev("a")),
            encode_topic_message(&ev("b")),
            encode_topic_message(&ev("c")),
        ]
    );
    assert_eq!(
        report.logged,
        vec!["did:plc:a".to_string(), "did:plc:b".to_string(), "did:plc:c".to_string()]
    );
    assert_eq!(c.events.len(), 0);
}

#[test]
fn publisher_suspends_on_empty_but_open_channel() {
    let mut c = stocked_channel(&["a"], 1);
    let report = run_publisher(&mut c, None);
    assert_eq!(report.status, PublisherStatus::Suspended);
    assert_eq!(report.published.len(), 1);
}

#[test]
fn publish_failure_is_fatal_after_exactly_the_preceding_successes() {
    // The publish call for the third event (position 2) fails: exactly the
    // two events before it are published, then the publisher stops.
    let mut c = stocked_channel(&["a", "b", "c", "d"], 0);
    let report = run_publisher(&mut c, Some(2));
    assert_eq!(report.status, PublisherStatus::PublishFailed);
    assert_eq!(
        report.published,
        vec![encode_topic_message(&ev("a")), encode_topic_message(&ev("b"))]
    );
    assert_eq!(report.logged.len(), 2);
    // The failed event was dequeued and is not retried; the rest stay queued.
    assert_eq!(c.events.len(), 1);
}

#[test]
fn publish_failure_on_the_first_event_publishes_nothing() {
    let mut c = stocked_channel(&["a", "b"], 0);
    let report = run_publisher(&mut c, Some(0));
    assert_eq!(report.status, PublisherStatus::PublishFailed);
    assert!(report.published.is_empty());
    assert!(report.logged.is_empty());
}

#[test]
fn failure_position_beyond_the_queue_never_strikes() {
    let mut c = stocked_channel(&["a", "b"], 0);
    let report = run_publisher(&mut c, Some(7));
    assert_eq!(report.status, PublisherStatus::Drained);
    assert_eq!(report.published.len(), 2);
}
