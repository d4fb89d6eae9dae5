//! The canonical event shape and the normalizer that maps upstream
//! notifications into it.

use vstd::prelude::*;

verus! {

/// The canonical, fully populated unit that flows through the pipeline:
/// one author's post, regardless of whether it came from the post stream or
/// was derived from a notification. Every field is owned and present, so an
/// event handed to the channel is never partially constructed.
#[derive(Debug, Clone, PartialEq, Eq)]
pub struct PostEvent {
    /// Opaque identifier of the content's author.
    pub author_id: String,
    /// The textual body of the post.
    pub text: String,
    /// Timestamp of original authorship, as the upstream reported it.
    pub created_at: String,
}

/// The shape produced by the upstream notification stream. It is never
/// forwarded as-is: the normalizer converts each one into exactly one
/// [`PostEvent`].
#[derive(Debug, Clone, PartialEq, Eq)]
pub struct Notification {
    /// Identifier of the author the notification concerns.
    pub author_id: String,
    /// The textual body carried by the notification.
    pub text: String,
    /// Timestamp of original authorship.
    pub created_at: String,
}

/// What [`normalize`] returns: each canonical field is taken verbatim from
/// the notification's corresponding field.
pub open spec fn spec_normalize(n: Notification) -> PostEvent {
    PostEvent { author_id: n.author_id, text: n.text, created_at: n.created_at }
}

/// The inverse direction of the mapping, used to state losslessness.
pub open spec fn spec_denormalize(e: PostEvent) -> Notification {
    Notification { author_id: e.author_id, text: e.text, created_at: e.created_at }
}

/// The normalizer: a pure 1:1 conversion of one upstream notification into
/// one canonical post event. No error path exists: every well-typed
/// notification converts, and each output field is exactly the corresponding
/// input field.
pub fn normalize(n: Notification) -> (e: PostEvent)
    ensures
        e == spec_normalize(n),
{
    PostEvent { author_id: n.author_id, text: n.text, created_at: n.created_at }
}

/// The normalizer is deterministic and lossless: mapping a notification to a
/// canonical event and back restores the notification exactly, so no field is
/// altered or dropped on the way through.
pub proof fn lemma_normalize_round_trip(n: Notification)
    ensures
        spec_denormalize(spec_normalize(n)) == n,
{
}

} // verus!
