//! Addressing an actor: identifiers, the message contract, and how a
//! delivery ends for the sender.

use crate::error::ActorError;
use vstd::prelude::*;

verus! {

/// Identifies one started actor for the lifetime of the process. Two
/// addresses refer to the same actor exactly when their identifiers are
/// equal.
pub type ActorId = u64;

/// Represents a message that can be handled by an actor.
pub trait Message: 'static + Send {
    /// The type of the reply. Use `()` for a message that is a mere
    /// notification.
    type Result: 'static + Send;
}

/// The source of actor identifiers. It hands out `0`, `1`, `2` and so on,
/// and none of them twice.
pub struct ActorIds {
    next: u64,
}

impl ActorIds {
    /// How many identifiers have been handed out.
    pub closed spec fn issued(&self) -> nat {
        self.next as nat
    }

    /// A source that has handed out nothing.
    pub fn new() -> (ids: Self)
        ensures
            ids.issued() == 0,
    {
        ActorIds { next: 0 }
    }

    /// Hands out the next identifier: the number of identifiers handed out
    /// before, which therefore differs from each of them. Returns `None` once
    /// the identifiers below `u64::MAX` are used up.
    pub fn allocate(&mut self) -> (id: Option<ActorId>)
        ensures
            id == (if old(self).issued() < u64::MAX {
                Some(old(self).issued() as ActorId)
            } else {
                None
            }),
            final(self).issued() == (if old(self).issued() < u64::MAX {
                old(self).issued() + 1
            } else {
                old(self).issued()
            }),
    {
        if self.next < u64::MAX {
            let id = self.next;
            self.next = id + 1;
            Some(id)
        } else {
            None
        }
    }
}

/// How putting a work item into a mailbox ends for the sender: well where
/// the mailbox took the item, with `NotRunning` where the mailbox is closed.
pub fn send_outcome<E>(accepted: bool) -> (outcome: Result<(), ActorError<E>>)
    ensures
        outcome == (if accepted {
            Ok::<(), ActorError<E>>(())
        } else {
            Err::<(), ActorError<E>>(ActorError::NotRunning)
        }),
{
    if accepted {
        Ok(())
    } else {
        Err(ActorError::NotRunning)
    }
}

/// How a call ends for the caller, once the mailbox has taken the request
/// and the response channel has resolved: with the handler's reply, or with
/// `ResponseLost` where the channel closed without one.
pub fn call_outcome<M: Message, E>(reply: Option<M::Result>) -> (outcome: Result<
    M::Result,
    ActorError<E>,
>)
    ensures
        outcome == (match reply {
            Some(value) => Ok::<M::Result, ActorError<E>>(value),
            None => Err::<M::Result, ActorError<E>>(ActorError::ResponseLost),
        }),
{
    match reply {
        Some(value) => Ok(value),
        None => Err(ActorError::ResponseLost),
    }
}

} // verus!
