//! The event publisher: the single consumer of the fan-in channel. It
//! dequeues canonical events one at a time, encodes each as one topic
//! message and performs one publish call per event, in the order the events
//! arrived on the channel. A publish failure is fatal at once — no retry —
//! while a closed and drained channel ends the loop normally.
//!
//! The unverified daemon loop performs the actual publish calls;
//! [`run_publisher`] plays the publisher's session against the channel —
//! with the outcome of each publish call given up front — and is proved to
//! publish exactly the queued events in arrival order, to log one entry per
//! published event naming its author, and to stop on the first failure.

use vstd::prelude::*;
use crate::channel::FanInChannel;
use crate::channel::RecvOutcome;
use crate::event::PostEvent;
use crate::wire::encode_topic_message;
use crate::wire::spec_topic_message;

verus! {

/// How the publisher's session ended.
#[derive(Debug, Clone, Copy, PartialEq, Eq, Structural)]
pub enum PublisherStatus {
    /// The channel reported closed-and-drained: normal termination.
    Drained,
    /// The channel is empty but senders remain: the publisher is suspended
    /// waiting for the next event.
    Suspended,
    /// A publish call failed. The publisher stops at once; the event whose
    /// publish failed was already dequeued and is not retried.
    PublishFailed,
}

/// One publisher session's report: the topic messages published in order,
/// one informational log entry per published event naming its author, and
/// how the session ended.
#[derive(Debug)]
pub struct PublisherReport {
    pub published: Vec<String>,
    pub logged: Vec<String>,
    pub status: PublisherStatus,
}

/// Whether the given publish-failure position strikes within a queue of
/// length `n`: only then does the session end in a publish failure.
pub open spec fn fails_within(fail_at: Option<usize>, n: nat) -> bool {
    fail_at matches Some(k) && k < n
}

/// How many events get published out of a queue of the given contents: all
/// of them, unless a publish failure strikes first — the failing event
/// itself is not counted as published.
pub open spec fn published_count(events: Seq<PostEvent>, fail_at: Option<usize>) -> int {
    if fails_within(fail_at, events.len()) {
        fail_at->0 as int
    } else {
        events.len() as int
    }
}

/// Plays the publisher's session: drains the channel in FIFO order,
/// publishing one topic message per event; `fail_at` says which publish
/// call, if any, fails (counted from zero within this session). Every event
/// before the failure is published exactly once, in arrival order, with one
/// log entry naming its author; the first failure stops the session with
/// nothing further published; with no failure the session ends normally on
/// closed-and-drained, or suspends on an empty-but-open channel.
pub fn run_publisher(chan: &mut FanInChannel, fail_at: Option<usize>) -> (r: PublisherReport)
    requires
        old(chan).inv(),
        old(chan).receiver_open,
    ensures
        final(chan).inv(),
        final(chan).capacity == old(chan).capacity,
        final(chan).senders == old(chan).senders,
        final(chan).receiver_open == old(chan).receiver_open,
        r.published@.len() == published_count(old(chan).events@, fail_at),
        forall|j: int| 0 <= j < r.published@.len()
            ==> r.published@[j]@ == spec_topic_message(old(chan).events@[j]),
        r.logged@.len() == r.published@.len(),
        forall|j: int| 0 <= j < r.logged@.len()
            ==> r.logged@[j]@ == old(chan).events@[j].author_id@,
        fails_within(fail_at, old(chan).events@.len()) ==> r.status is PublishFailed
            && final(chan).events@ == old(chan).events@.skip(fail_at->0 as int + 1),
        !fails_within(fail_at, old(chan).events@.len()) && old(chan).senders == 0
            ==> r.status is Drained && final(chan).events@.len() == 0,
        !fails_within(fail_at, old(chan).events@.len()) && old(chan).senders > 0
            ==> r.status is Suspended && final(chan).events@.len() == 0,
{
    let ghost evs = old(chan).events@;
    let n0 = chan.events.len();
    let mut published: Vec<String> = Vec::new();
    let mut logged: Vec<String> = Vec::new();
    let mut k: usize = 0;
    loop
        invariant
            chan.inv(),
            chan.capacity == old(chan).capacity,
            chan.senders == old(chan).senders,
            chan.receiver_open == old(chan).receiver_open,
            old(chan).receiver_open,
            evs == old(chan).events@,
            n0 == evs.len(),
            k <= n0,
            chan.events@ == evs.skip(k as int),
            published@.len() == k,
            logged@.len() == k,
            forall|j: int| 0 <= j < k ==> published@[j]@ == spec_topic_message(evs[j]),
            forall|j: int| 0 <= j < k ==> logged@[j]@ == evs[j].author_id@,
            match fail_at {
                Some(f) => k <= f,
                None => true,
            },
        decreases evs.len() - k,
    {
        match chan.recv() {
            RecvOutcome::Item(e) => {
                proof {
                    assert(evs.skip(k as int)[0] == evs[k as int]);
                    assert(evs.skip(k as int).drop_first() =~= evs.skip(k as int + 1));
                }
                if let Option::Some(f) = fail_at {
                    if k == f {
                        return PublisherReport {
                            published,
                            logged,
                            status: PublisherStatus::PublishFailed,
                        };
                    }
                }
                let msg = encode_topic_message(&e);
                published.push(msg);
                logged.push(e.author_id);
                k = k + 1;
            },
            RecvOutcome::Pending => {
                return PublisherReport { published, logged, status: PublisherStatus::Suspended };
            },
            RecvOutcome::Disconnected => {
                return PublisherReport { published, logged, status: PublisherStatus::Drained };
            },
        }
    }
}

} // verus!
