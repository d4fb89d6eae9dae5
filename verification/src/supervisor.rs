//! The daemon supervisor's liveness policy: the two producers and the
//! publisher run as three concurrent tasks, the supervisor waits for all of
//! them, and the whole run fails with the first error observed — a single
//! healthy task never masks a failed one.

use vstd::prelude::*;

verus! {

/// The fatal errors a pipeline task can surface to the supervisor.
/// Transient upstream errors never appear here: producers absorb them with
/// a backoff and retry.
#[derive(Debug, Clone, Copy, PartialEq, Eq, Structural)]
pub enum TaskError {
    /// A producer found the channel's receiver gone: its events can never
    /// be delivered.
    ChannelClosed,
    /// The publisher's single publish attempt for an event failed.
    PublishFailed,
}

/// The supervisor's verdict over its three tasks, examined in the order
/// post producer, notification producer, publisher: the run succeeds only
/// if every task succeeded, and otherwise fails with the first error
/// observed in that order.
pub fn supervise(
    posts: Result<(), TaskError>,
    notifications: Result<(), TaskError>,
    publisher: Result<(), TaskError>,
) -> (r: Result<(), TaskError>)
    ensures
        r is Ok <==> (posts is Ok && notifications is Ok && publisher is Ok),
        posts is Err ==> r == posts,
        posts is Ok && notifications is Err ==> r == notifications,
        posts is Ok && notifications is Ok && publisher is Err ==> r == publisher,
{
    match posts {
        Result::Err(e) => Result::Err(e),
        Result::Ok(()) => match notifications {
            Result::Err(e) => Result::Err(e),
            Result::Ok(()) => publisher,
        },
    }
}

} // verus!
