//! The decision core of an in-process actor runtime.
//!
//! An actor owns its state and reacts to work items taken one at a time from
//! its mailbox. This crate holds the part of such a runtime that decides:
//! which identifier a subscription gets, what the event loop does with each
//! work item, in which order an actor is shut down, which address a service
//! registry hands out, and how the outcome of a delivery is reported. Channels,
//! timers and task spawning are left to the caller, who performs what these
//! functions decide.

pub mod addr;
pub mod slots;
pub mod mailbox;
pub mod context;
pub mod error;
pub mod manager;
pub mod delivery;
pub mod registry;
pub mod stream;

pub use crate::addr::ActorId;
pub use crate::addr::ActorIds;
pub use crate::addr::Message;
pub use crate::context::Context;
pub use crate::error::ActorError;
pub use crate::mailbox::WorkItem;
pub use crate::manager::Action;
pub use crate::manager::ActorManager;
pub use crate::manager::Phase;
pub use crate::manager::Stage;
pub use crate::manager::Teardown;
pub use crate::registry::Registry;
pub use crate::slots::Slots;
pub use crate::stream::StreamCall;
pub use crate::stream::StreamFeed;
