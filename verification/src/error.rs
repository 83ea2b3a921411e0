//! The failures that the runtime reports.

use vstd::prelude::*;

verus! {

/// Why an operation on an actor or on a registry failed. `E` is the error
/// type of the actor's startup hook.
#[derive(Debug, PartialEq, Eq)]
pub enum ActorError<E> {
    /// The mailbox of the target actor is closed.
    NotRunning,
    /// The actor took the request but the response channel closed before a
    /// value came: the actor stopped or failed in the handler.
    ResponseLost,
    /// The process-wide registry was asked before any service was ever
    /// started, so its storage does not exist yet.
    RegistryUninitialized,
    /// No instance is registered for the actor type.
    ServiceNotFound,
    /// The startup hook failed; this is its error.
    StartupFailed(E),
}

impl<E> ActorError<E> {
    /// The words that describe the failure.
    pub open spec fn text(&self) -> Seq<char> {
        match self {
            ActorError::NotRunning => "actor not running"@,
            ActorError::ResponseLost => "response channel closed"@,
            ActorError::RegistryUninitialized => "registry not initialized"@,
            ActorError::ServiceNotFound => "service not found"@,
            ActorError::StartupFailed(_) => "startup failed"@,
        }
    }

    /// The words that describe the failure.
    pub fn describe(&self) -> (words: &'static str)
        ensures
            words@ == self.text(),
    {
        match self {
            ActorError::NotRunning => "actor not running",
            ActorError::ResponseLost => "response channel closed",
            ActorError::RegistryUninitialized => "registry not initialized",
            ActorError::ServiceNotFound => "service not found",
            ActorError::StartupFailed(_) => "startup failed",
        }
    }
}

} // verus!
