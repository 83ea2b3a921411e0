//! The life of one actor: startup, the mailbox loop, shutdown.
//!
//! The manager decides and the caller acts. The caller runs the startup
//! hook and reports how it ended; it reads the mailbox and hands each item
//! over; it runs the operation that the manager hands back and reports when
//! that operation is done; at the end it runs the shutdown hook, reports
//! that, and performs the teardown steps in the order given.

use crate::context::Context;
use crate::error::ActorError;
use crate::mailbox::WorkItem;
use vstd::prelude::*;

verus! {

/// Where an actor stands in its life.
#[derive(Clone, Copy, Debug, PartialEq, Eq, Structural)]
pub enum Phase {
    /// Built; the startup hook has not succeeded yet.
    Created,
    /// The startup hook succeeded; the event loop has not begun.
    Started,
    /// The event loop consumes the mailbox.
    Running,
    /// The event loop has ended; shutdown hook and cancellations follow.
    Stopping,
    /// The exit signal is due; nothing follows.
    Stopped,
}

/// What is due next in the life of an actor.
#[derive(Clone, Copy, Debug, PartialEq, Eq, Structural)]
pub enum Stage {
    /// The outcome of the startup hook is due.
    Created,
    /// The event loop is due to begin.
    Started,
    /// The loop runs and reads the next item.
    Idle,
    /// The loop runs; an operation has been handed out and is not done yet.
    Executing,
    /// The loop has ended; the shutdown hook is due.
    Leaving,
    /// The shutdown hook has run; the teardown is due.
    Cancelling,
    /// The actor has ended; nothing is due.
    Stopped,
}

/// The phase that a stage belongs to.
pub open spec fn phase_of(stage: Stage) -> Phase {
    match stage {
        Stage::Created => Phase::Created,
        Stage::Started => Phase::Started,
        Stage::Idle => Phase::Running,
        Stage::Executing => Phase::Running,
        Stage::Leaving => Phase::Stopping,
        Stage::Cancelling => Phase::Stopping,
        Stage::Stopped => Phase::Stopped,
    }
}

/// What the event loop does with the item it has read.
#[derive(Debug, PartialEq, Eq)]
pub enum Action<E, R> {
    /// Run this operation against the actor and its context, wait until it
    /// is done, say so, and only then read the next item.
    Execute(E),
    /// Nothing to run; read the next item.
    Continue,
    /// Leave the loop, with the reason that the stop carried, and run the
    /// shutdown hook. Items still in the mailbox are never run.
    Exit(Option<R>),
}

/// One step of the teardown that follows the shutdown hook.
#[derive(Debug, PartialEq, Eq)]
pub enum Teardown<H> {
    /// Abort the subscription task behind this handle.
    Cancel(H),
    /// Fire the exit signal.
    SignalExit,
}

/// The stage after an idle loop has read `item` (`None`: the mailbox is
/// closed), and what the loop does with the item.
pub open spec fn step_item<E, R>(item: Option<WorkItem<E, R>>) -> (Stage, Action<E, R>) {
    match item {
        Some(WorkItem::Exec(operation)) => (Stage::Executing, Action::Execute(operation)),
        Some(WorkItem::RemoveStream(_)) => (Stage::Idle, Action::Continue),
        Some(WorkItem::Stop(reason)) => (Stage::Leaving, Action::Exit(reason)),
        None => (Stage::Leaving, Action::Exit(None)),
    }
}

/// The teardown for the given stream and timer handles: cancel every stream,
/// then every timer, then fire the exit signal.
pub open spec fn teardown<H>(streams: Seq<H>, timers: Seq<H>) -> Seq<Teardown<H>> {
    streams.map_values(|handle: H| Teardown::Cancel(handle)) + timers.map_values(
        |handle: H| Teardown::Cancel(handle),
    ) + seq![Teardown::SignalExit]
}

/// Drives one actor through its life.
#[derive(Debug)]
pub struct ActorManager {
    stage: Stage,
}

impl ActorManager {
    /// What is due next.
    pub closed spec fn view(&self) -> Stage {
        self.stage
    }

    /// The manager of an actor that has been built and not started.
    pub fn new() -> (manager: Self)
        ensures
            manager@ == Stage::Created,
    {
        ActorManager { stage: Stage::Created }
    }

    /// What is due next.
    pub fn stage(&self) -> (stage: Stage)
        ensures
            stage == self@,
    {
        self.stage
    }

    /// Where the actor stands.
    pub fn phase(&self) -> (phase: Phase)
        ensures
            phase == phase_of(self@),
    {
        match self.stage {
            Stage::Created => Phase::Created,
            Stage::Started => Phase::Started,
            Stage::Idle => Phase::Running,
            Stage::Executing => Phase::Running,
            Stage::Leaving => Phase::Stopping,
            Stage::Cancelling => Phase::Stopping,
            Stage::Stopped => Phase::Stopped,
        }
    }

    /// Takes the outcome of the startup hook. On success the actor is
    /// started and its event loop may be spawned. On failure the manager is
    /// gone, no loop is ever spawned, and the hook's own error goes back to
    /// whoever started the actor.
    pub fn startup_finished<E>(self, outcome: Result<(), E>) -> (result: Result<
        ActorManager,
        ActorError<E>,
    >)
        requires
            self@ == Stage::Created,
        ensures
            match outcome {
                Ok(_) => result matches Ok(manager) && manager@ == Stage::Started,
                Err(cause) => result matches Err(error) && error == ActorError::StartupFailed(
                    cause,
                ),
            },
    {
        match outcome {
            Ok(_) => Ok(ActorManager { stage: Stage::Started }),
            Err(cause) => Err(ActorError::StartupFailed(cause)),
        }
    }

    /// Marks the begin of the event loop.
    pub fn enter_loop(&mut self)
        requires
            old(self)@ == Stage::Started,
        ensures
            final(self)@ == Stage::Idle,
    {
        self.stage = Stage::Idle;
    }

    /// Takes the item that the loop has read from the mailbox, or `None`
    /// where the mailbox is closed, and says what the loop does next.
    ///
    /// An operation is handed back to be run. A stop, or a closed mailbox,
    /// ends the loop at once. The removal of a stream subscription is done
    /// here, on `ctx`; nothing else touches `ctx`.
    pub fn on_item<H, E, R>(
        &mut self,
        ctx: &mut Context<H>,
        item: Option<WorkItem<E, R>>,
    ) -> (action: Action<E, R>)
        requires
            old(self)@ == Stage::Idle,
        ensures
            (final(self)@, action) == step_item(item),
            final(ctx).id() == old(ctx).id(),
            final(ctx).limit() == old(ctx).limit(),
            final(ctx).timers() == old(ctx).timers(),
            final(ctx).streams() == (match item {
                Some(WorkItem::RemoveStream(id)) => old(ctx).streams().remove(id),
                _ => old(ctx).streams(),
            }),
    {
        match item {
            Some(WorkItem::Exec(operation)) => {
                self.stage = Stage::Executing;
                Action::Execute(operation)
            },
            Some(WorkItem::RemoveStream(id)) => {
                let _ = ctx.remove_stream(id);
                Action::Continue
            },
            Some(WorkItem::Stop(reason)) => {
                self.stage = Stage::Leaving;
                Action::Exit(reason)
            },
            None => {
                self.stage = Stage::Leaving;
                Action::Exit(None)
            },
        }
    }

    /// Takes the news that the operation in flight is done.
    pub fn executed(&mut self)
        requires
            old(self)@ == Stage::Executing,
        ensures
            final(self)@ == Stage::Idle,
    {
        self.stage = Stage::Idle;
    }

    /// Takes the news that the shutdown hook has run.
    pub fn shutdown_finished(&mut self)
        requires
            old(self)@ == Stage::Leaving,
        ensures
            final(self)@ == Stage::Cancelling,
    {
        self.stage = Stage::Cancelling;
    }

    /// Ends the actor. Empties the subscriptions of `ctx` and returns the
    /// teardown for the caller to perform in order: cancel every stream,
    /// cancel every timer, and last fire the exit signal.
    pub fn finish<H>(&mut self, ctx: &mut Context<H>) -> (steps: Vec<Teardown<H>>)
        requires
            old(self)@ == Stage::Cancelling,
        ensures
            final(self)@ == Stage::Stopped,
            steps@ == teardown(old(ctx).stream_handles(), old(ctx).timer_handles()),
            final(ctx).id() == old(ctx).id(),
            final(ctx).limit() == old(ctx).limit(),
            final(ctx).streams() == Map::<usize, H>::empty(),
            final(ctx).timers() == Map::<usize, H>::empty(),
    {
        let streams = ctx.abort_streams();
        let timers = ctx.abort_intervals();
        let ghost stream_handles = streams@;
        let ghost timer_handles = timers@;
        let mut steps: Vec<Teardown<H>> = Vec::new();
        for handle in it: streams
            invariant
                it.seq() == stream_handles,
                steps@.len() == it.index(),
                forall|i: int|
                    0 <= i < steps@.len() ==> steps@[i] == Teardown::Cancel(stream_handles[i]),
        {
            steps.push(Teardown::Cancel(handle));
        }
        for handle in it: timers
            invariant
                it.seq() == timer_handles,
                steps@.len() == stream_handles.len() + it.index(),
                forall|i: int|
                    0 <= i < stream_handles.len() ==> steps@[i] == Teardown::Cancel(
                        stream_handles[i],
                    ),
                forall|i: int|
                    stream_handles.len() <= i < steps@.len() ==> steps@[i] == Teardown::Cancel(
                        timer_handles[i - stream_handles.len()],
                    ),
        {
            steps.push(Teardown::Cancel(handle));
        }
        steps.push(Teardown::SignalExit);
        self.stage = Stage::Stopped;
        assert(steps@ =~= teardown(stream_handles, timer_handles));
        steps
    }
}

/// The moves that a manager makes, each by one of its steps. A failed
/// startup is no move: it ends the manager.
pub open spec fn moves(from: Stage, to: Stage) -> bool {
    match from {
        Stage::Created => to == Stage::Started,
        Stage::Started => to == Stage::Idle,
        Stage::Idle => to == Stage::Executing || to == Stage::Idle || to == Stage::Leaving,
        Stage::Executing => to == Stage::Idle,
        Stage::Leaving => to == Stage::Cancelling,
        Stage::Cancelling => to == Stage::Stopped,
        Stage::Stopped => false,
    }
}

/// How far a phase is into the life of an actor.
pub open spec fn age(phase: Phase) -> nat {
    match phase {
        Phase::Created => 0,
        Phase::Started => 1,
        Phase::Running => 2,
        Phase::Stopping => 3,
        Phase::Stopped => 4,
    }
}

/// A life runs one way: created, started, running, stopping, stopped. No
/// move goes back to an earlier phase, and none skips one. The loop begins
/// once. The shutdown hook is due once, when the loop has left; the teardown
/// with its exit signal is due once, when that hook has run; after it nothing
/// is due.
pub proof fn lemma_life_runs_one_way(from: Stage, to: Stage)
    requires
        moves(from, to),
    ensures
        age(phase_of(from)) <= age(phase_of(to)) <= age(phase_of(from)) + 1,
        from != Stage::Stopped,
        to != Stage::Created,
        to == Stage::Started ==> from == Stage::Created,
        to == Stage::Idle && from != Stage::Started ==> phase_of(from) == Phase::Running,
        to == Stage::Leaving ==> from == Stage::Idle,
        to == Stage::Cancelling ==> from == Stage::Leaving,
        to == Stage::Stopped ==> from == Stage::Cancelling,
{
}

/// Every step of a manager is one of the moves: the startup that succeeds,
/// the begin of the loop, the answer to an item, whatever the item, the end
/// of an operation, the end of the shutdown hook, the teardown. The answer to
/// an item tells the move: the loop hands out an operation and waits, or
/// goes on idle, or leaves.
pub proof fn lemma_steps_are_moves<E, R>(item: Option<WorkItem<E, R>>)
    ensures
        moves(Stage::Created, Stage::Started),
        moves(Stage::Started, Stage::Idle),
        moves(Stage::Idle, step_item(item).0),
        moves(Stage::Executing, Stage::Idle),
        moves(Stage::Leaving, Stage::Cancelling),
        moves(Stage::Cancelling, Stage::Stopped),
        step_item(item).1 is Execute <==> step_item(item).0 == Stage::Executing,
        step_item(item).1 is Continue <==> step_item(item).0 == Stage::Idle,
        step_item(item).1 is Exit <==> step_item(item).0 == Stage::Leaving,
{
}

} // verus!
