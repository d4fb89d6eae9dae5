use bsky_fanout::channel::FanInChannel;
use bsky_fanout::event::PostEvent;
use bsky_fanout::producer::FetchOutcome;
use bsky_fanout::producer::ProducerStatus;
use bsky_fanout::producer::UpstreamItem;
use bsky_fanout::producer::run_producer;
use bsky_fanout::publisher::PublisherStatus;
use bsky_fanout::publisher::run_publisher;
use bsky_fanout::supervisor::TaskError;
use bsky_fanout::supervisor::supervise;
use bsky_fanout::wire::encode_topic_message;

fn ev(tag: &str) -> PostEvent {
    PostEvent {
        author_id: format!("did:plc:{}", tag),
        text: format!("text {}", tag),
        created_at: "2024-01-01T00:00:00Z".to_string(),
    }
}

fn item(tag: &str) -> FetchOutcome {
    FetchOutcome::Item(UpstreamItem::Post(ev(tag)))
}

#[test]
fn end_to_end_three_posts_in_order_on_a_small_channel() {
    // One producer pulls A, B, C in order with no errors; the channel holds
    // at most two events; the publisher reads and publishes as they come.
    let mut c = FanInChannel::new(2, 1);
    let mut publishes: Vec<String> = Vec::new();
    let mut logs: Vec<String> = Vec::new();

    // The producer forwards A and B, filling the channel; the publisher
    // drains and publishes them at once.
    let mut first = vec![item("a"), item("b")];
    let report = run_producer(&mut first, &mut c);
    assert_eq!(report.status, ProducerStatus::Completed);
    let drained = run_publisher(&mut c, None);
    assert_eq!(drained.status, PublisherStatus::Suspended);
    publishes.extend(drained.published);
    logs.extend(drained.logged);

    // The producer forwards C and finishes its stream; the publisher drains
    // it and sees the channel closed.
    let mut second = vec![item("c")];
    let report = run_producer(&mut second, &mut c);
    assert_eq!(report.status, ProducerStatus::Completed);
    c.drop_sender();
    let last = run_publisher(&mut c, None);
    assert_eq!(last.status, PublisherStatus::Drained);
    publishes.extend(last.published);
    logs.extend(last.logged);

    // Three publish calls, in order A, B, C; one log line per author.
    assert_eq!(
        publishes,
        vec![
            encode_topic_message(&ev("a")),
            encode_topic_message(&ev("b")),
            encode_topic_message(&ev("c")),
        ]
    );
    assert_eq!(
        logs,
        vec!["did:plc:a".to_string(), "did:plc:b".to_string(), "did:plc:c".to_string()]
    );
}

#[test]
fn supervisor_succeeds_only_when_every_task_does() {
    assert_eq!(supervise(Ok(()), Ok(()), Ok(())), Ok(()));
}

#[test]
fn supervisor_surfaces_the_first_error_observed() {
    assert_eq!(
        supervise(Err(TaskError::ChannelClosed), Ok(()), Err(TaskError::PublishFailed)),
        Err(TaskError::ChannelClosed)
    );
    assert_eq!(
        supervise(Ok(()), Err(TaskError::ChannelClosed), Err(TaskError::PublishFailed)),
        Err(TaskError::ChannelClosed)
    );
    assert_eq!(
        supervise(Ok(()), Ok(()), Err(TaskError::PublishFailed)),
        Err(TaskError::PublishFailed)
    );
}
