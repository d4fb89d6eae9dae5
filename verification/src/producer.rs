//! The source producers: each owns one upstream stream subscription (posts
//! or notifications), converts every item it pulls into the canonical event
//! shape, and forwards it into the fan-in channel in the order pulled.
//! A transient upstream failure only costs a fixed backoff before the next
//! attempt; a channel whose receiver is gone is fatal for the producer.
//!
//! The unverified daemon loop performs the actual fetches and sleeps; the
//! decisions — what to do with each fetch outcome, and that pulled order is
//! delivered order — live here. [`run_producer`] plays one producer's whole
//! session against the channel for a given sequence of fetch outcomes and is
//! proved to deliver exactly the pulled items, in order, with no duplicate
//! from a retried failure and no loss.

use vstd::prelude::*;
use crate::channel::FanInChannel;
use crate::channel::SendAttempt;
use crate::event::Notification;
use crate::event::PostEvent;
use crate::event::normalize;
use crate::event::spec_normalize;

verus! {

/// The fixed backoff, in seconds, a producer waits after a transient
/// upstream error before retrying its stream from the current position.
pub const BACKOFF_SECS: u64 = 5;

/// One item pulled from an upstream stream: a direct post arrives already in
/// canonical shape, a notification still has to be normalized.
#[derive(Debug, Clone, PartialEq, Eq)]
pub enum UpstreamItem {
    Post(PostEvent),
    Notification(Notification),
}

/// The canonical event for one upstream item: the identity for a direct
/// post, the normalizer's mapping for a notification.
pub open spec fn spec_canonical(item: UpstreamItem) -> PostEvent {
    match item {
        UpstreamItem::Post(e) => e,
        UpstreamItem::Notification(n) => spec_normalize(n),
    }
}

/// Converts one upstream item into the canonical event that is forwarded.
pub fn canonicalize(item: UpstreamItem) -> (e: PostEvent)
    ensures
        e == spec_canonical(item),
{
    match item {
        UpstreamItem::Post(e) => e,
        UpstreamItem::Notification(n) => normalize(n),
    }
}

/// What one attempt to pull the next upstream item came to.
#[derive(Debug, Clone, PartialEq, Eq)]
pub enum FetchOutcome {
    /// The stream yielded its next item.
    Item(UpstreamItem),
    /// The stream failed transiently (connection drop, decode failure,
    /// transient server error). The producer backs off and retries; the
    /// item is not lost — the stream is re-read from its current position.
    TransientError,
}

/// The producer as a two-state machine: it is either fetching the next item
/// or sitting out the fixed backoff after a transient failure.
#[derive(Debug, Clone, Copy, PartialEq, Eq, Structural)]
pub enum ProducerState {
    Fetching,
    Backoff,
}

/// The producer's reaction to one fetch outcome.
#[derive(Debug, Clone, PartialEq, Eq)]
pub enum ProducerReaction {
    /// Forward this canonical event into the fan-in channel, then fetch
    /// again.
    Enqueue(PostEvent),
    /// Sleep this many seconds, then fetch again.
    BackOff(u64),
}

/// The transition of the producer's state machine on the outcome of one
/// fetch attempt: an item is normalized and forwarded and the producer keeps
/// fetching; a transient failure sends it into the fixed backoff, after
/// which it fetches again from the same position. The producer never stops
/// on a transient error.
pub fn producer_step(outcome: FetchOutcome) -> (r: (ProducerState, ProducerReaction))
    ensures
        outcome matches FetchOutcome::Item(it)
            ==> r == (ProducerState::Fetching, ProducerReaction::Enqueue(spec_canonical(it))),
        outcome is TransientError
            ==> r == (ProducerState::Backoff, ProducerReaction::BackOff(BACKOFF_SECS)),
{
    match outcome {
        FetchOutcome::Item(it) => (ProducerState::Fetching, ProducerReaction::Enqueue(canonicalize(it))),
        FetchOutcome::TransientError => (ProducerState::Backoff, ProducerReaction::BackOff(BACKOFF_SECS)),
    }
}

/// The canonical events a sequence of fetch outcomes delivers: one per
/// pulled item, in pulled order; transient failures deliver nothing.
pub open spec fn events_of(script: Seq<FetchOutcome>) -> Seq<PostEvent>
    decreases script.len(),
{
    if script.len() == 0 {
        Seq::empty()
    } else {
        events_of(script.drop_last()) + match script.last() {
            FetchOutcome::Item(it) => seq![spec_canonical(it)],
            FetchOutcome::TransientError => Seq::empty(),
        }
    }
}

/// How many transient failures — and so how many backoff sleeps — a
/// sequence of fetch outcomes contains.
pub open spec fn failures_of(script: Seq<FetchOutcome>) -> nat
    decreases script.len(),
{
    if script.len() == 0 {
        0
    } else {
        failures_of(script.drop_last()) + if script.last() is TransientError {
            1nat
        } else {
            0nat
        }
    }
}

/// A pulled item beyond a prefix means the whole script delivers strictly
/// more events than the prefix does.
proof fn lemma_events_of_prefix(script: Seq<FetchOutcome>, i: int)
    requires
        0 <= i < script.len(),
        script[i] is Item,
    ensures
        events_of(script).len() > events_of(script.take(i)).len(),
    decreases script.len(),
{
    if i == script.len() - 1 {
        assert(script.take(i) =~= script.drop_last());
    } else {
        lemma_events_of_prefix(script.drop_last(), i);
        assert(script.drop_last().take(i) =~= script.take(i));
    }
}

/// How one producer's session ended.
#[derive(Debug, Clone, Copy, PartialEq, Eq)]
pub enum ProducerStatus {
    /// Every fetch outcome was processed; all pulled items were delivered.
    Completed,
    /// The channel was at capacity when the item of outcome `i` was to be
    /// forwarded: the producer is suspended on that send — backpressure,
    /// nothing was dropped.
    Suspended(usize),
    /// The channel's receiver was gone when the item of outcome `i` was to
    /// be forwarded: fatal for this producer.
    ChannelClosed(usize),
}

/// One producer's session report: how it ended and how many backoff sleeps
/// its transient failures cost.
#[derive(Debug, Clone, Copy, PartialEq, Eq)]
pub struct ProducerReport {
    pub status: ProducerStatus,
    pub backoffs: usize,
}

/// Plays one producer's whole session: processes the fetch outcomes in
/// order, converts each pulled item to its canonical event and forwards it
/// into the channel, and backs off past each transient failure. The channel
/// receives exactly the pulled items' events, in pulled order — a retried
/// failure neither duplicates nor loses an event.
pub fn run_producer(script: &mut Vec<FetchOutcome>, chan: &mut FanInChannel) -> (r: ProducerReport)
    requires
        old(chan).inv(),
        old(chan).senders >= 1,
    ensures
        final(chan).inv(),
        final(chan).capacity == old(chan).capacity,
        final(chan).senders == old(chan).senders,
        final(chan).receiver_open == old(chan).receiver_open,
        r.status is Completed ==> final(chan).events@ == old(chan).events@
            + events_of(old(script)@) && r.backoffs as nat == failures_of(old(script)@)
            && final(script)@.len() == 0,
        r.status is Suspended ==> ({
            let ix = r.status->Suspended_0 as int;
            &&& ix < old(script)@.len()
            &&& old(script)@[ix] is Item
            &&& final(chan).events@ == old(chan).events@ + events_of(old(script)@.take(ix))
            &&& final(chan).events@.len() == old(chan).capacity
            &&& r.backoffs as nat == failures_of(old(script)@.take(ix))
            &&& final(script)@ == old(script)@.skip(ix + 1)
        }),
        r.status is ChannelClosed ==> ({
            let ix = r.status->ChannelClosed_0 as int;
            &&& ix < old(script)@.len()
            &&& old(script)@[ix] is Item
            &&& events_of(old(script)@.take(ix)).len() == 0
            &&& final(chan).events@ == old(chan).events@
            &&& r.backoffs as nat == failures_of(old(script)@.take(ix))
            &&& final(script)@ == old(script)@.skip(ix + 1)
        }),
        old(chan).receiver_open
            && old(chan).events@.len() + events_of(old(script)@).len() <= old(chan).capacity
            ==> r.status is Completed,
        old(chan).receiver_open
            && old(chan).events@.len() + events_of(old(script)@).len() > old(chan).capacity
            ==> r.status is Suspended,
        !old(chan).receiver_open && events_of(old(script)@).len() == 0 ==> r.status is Completed,
        !old(chan).receiver_open && events_of(old(script)@).len() > 0 ==> r.status is ChannelClosed,
{
    let ghost orig = old(script)@;
    let n = script.len();
    let mut backoffs: usize = 0;
    let mut i: usize = 0;
    while script.len() > 0
        invariant
            chan.inv(),
            chan.capacity == old(chan).capacity,
            chan.senders == old(chan).senders,
            chan.receiver_open == old(chan).receiver_open,
            old(chan).senders >= 1,
            old(script)@ == orig,
            n == orig.len(),
            i + script@.len() == orig.len(),
            script@ == orig.skip(i as int),
            chan.events@ == old(chan).events@ + events_of(orig.take(i as int)),
            backoffs as nat == failures_of(orig.take(i as int)),
            backoffs <= i,
            !chan.receiver_open ==> events_of(orig.take(i as int)).len() == 0,
        decreases script@.len(),
    {
        let o = script.remove(0);
        proof {
            assert(orig.skip(i as int)[0] == orig[i as int]);
            assert(script@ =~= orig.skip(i as int + 1));
            assert(orig.take(i as int + 1).drop_last() =~= orig.take(i as int));
            assert(orig.take(i as int + 1).last() == orig[i as int]);
        }
        match o {
            FetchOutcome::Item(it) => {
                let ev = canonicalize(it);
                match chan.try_send(ev) {
                    SendAttempt::Accepted => {
                        proof {
                            assert(chan.events@ =~= old(chan).events@
                                + events_of(orig.take(i as int + 1)));
                        }
                    },
                    SendAttempt::Full(_) => {
                        proof {
                            lemma_events_of_prefix(orig, i as int);
                        }
                        return ProducerReport { status: ProducerStatus::Suspended(i), backoffs };
                    },
                    SendAttempt::Closed(_) => {
                        proof {
                            lemma_events_of_prefix(orig, i as int);
                        }
                        return ProducerReport {
                            status: ProducerStatus::ChannelClosed(i),
                            backoffs,
                        };
                    },
                }
            },
            FetchOutcome::TransientError => {
                backoffs = backoffs + 1;
            },
        }
        i = i + 1;
    }
    proof {
        assert(orig.take(orig.len() as int) =~= orig);
    }
    ProducerReport { status: ProducerStatus::Completed, backoffs }
}

} // verus!
