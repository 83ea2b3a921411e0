//! The work items that travel through an actor's mailbox.

use vstd::prelude::*;

verus! {

/// One entry of a mailbox. `E` is a deferred operation against the actor and
/// its context; `R` is a reason for stopping.
#[derive(Debug, PartialEq, Eq)]
pub enum WorkItem<E, R> {
    /// Run the operation against the actor. Direct messages, stream items and
    /// timer ticks all arrive in this shape.
    Exec(E),
    /// Leave the event loop at once. What is still queued is never run.
    Stop(Option<R>),
    /// Forget the cancellation handle of the stream subscription with this
    /// identifier.
    RemoveStream(usize),
}

} // verus!
