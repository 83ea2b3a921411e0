//! The bookkeeping that an actor's execution context carries: the actor's
//! identifier and the cancellation handles of its live subscriptions.

use crate::addr::ActorId;
use crate::mailbox::WorkItem;
use crate::slots::ascending;
use crate::slots::Slots;
use vstd::prelude::*;

verus! {

/// What feeds a subscription.
#[derive(Clone, Copy, PartialEq, Eq, Structural)]
enum Kind {
    /// An asynchronous sequence of items.
    Stream,
    /// A periodic timer.
    Timer,
}

/// A live subscription: its kind and the handle that cancels it.
struct Subscription<H> {
    kind: Kind,
    handle: H,
}

/// The handles of the subscriptions of one kind, by identifier.
spec fn of_kind<H>(table: Map<usize, Subscription<H>>, kind: Kind) -> Map<usize, H> {
    Map::new(
        |id: usize| table.contains_key(id) && table[id].kind == kind,
        |id: usize| table[id].handle,
    )
}

/// The part of an actor's context that the runtime keeps books in.
///
/// Stream and timer subscriptions share one space of identifiers, so an
/// identifier names at most one live subscription of the actor.
pub struct Context<H> {
    actor_id: ActorId,
    subscriptions: Slots<Subscription<H>>,
}

impl<H> Context<H> {
    /// The identifier of the actor that owns this context.
    pub closed spec fn id(&self) -> ActorId {
        self.actor_id
    }

    /// The cancellation handles of the live stream subscriptions.
    pub closed spec fn streams(&self) -> Map<usize, H> {
        of_kind(self.subscriptions@, Kind::Stream)
    }

    /// The cancellation handles of the live timer subscriptions.
    pub closed spec fn timers(&self) -> Map<usize, H> {
        of_kind(self.subscriptions@, Kind::Timer)
    }

    /// A bound above every subscription identifier in use.
    pub closed spec fn limit(&self) -> nat {
        self.subscriptions.limit()
    }

    /// Whether `id` names a live subscription.
    pub open spec fn subscribed(&self, id: usize) -> bool {
        self.streams().contains_key(id) || self.timers().contains_key(id)
    }

    /// The stream handles by rising identifier.
    pub open spec fn stream_handles(&self) -> Seq<H> {
        ascending(self.streams(), self.limit())
    }

    /// The timer handles by rising identifier.
    pub open spec fn timer_handles(&self) -> Seq<H> {
        ascending(self.timers(), self.limit())
    }

    /// No identifier names both a stream and a timer, and every identifier in
    /// use lies below the limit.
    pub proof fn lemma_identifiers_unique(&self)
        ensures
            forall|id: usize| !(self.streams().contains_key(id) && self.timers().contains_key(id)),
            forall|id: usize| self.subscribed(id) ==> id < self.limit(),
    {
        self.subscriptions.lemma_bounded();
    }

    /// The context of a freshly built actor: no subscriptions.
    pub fn new(actor_id: ActorId) -> (ctx: Self)
        ensures
            ctx.id() == actor_id,
            ctx.streams() == Map::<usize, H>::empty(),
            ctx.timers() == Map::<usize, H>::empty(),
            ctx.limit() == 0,
    {
        let ctx = Context { actor_id, subscriptions: Slots::new() };
        assert(ctx.streams() =~= Map::<usize, H>::empty());
        assert(ctx.timers() =~= Map::<usize, H>::empty());
        ctx
    }

    /// The identifier of the actor that owns this context.
    pub fn actor_id(&self) -> (id: ActorId)
        ensures
            id == self.id(),
    {
        self.actor_id
    }

    /// The work item that an actor puts into its own mailbox to stop itself.
    pub fn stop<E, R>(&self, reason: Option<R>) -> (item: WorkItem<E, R>)
        ensures
            item == WorkItem::<E, R>::Stop(reason),
    {
        WorkItem::Stop(reason)
    }

    fn subscribe(&mut self, kind: Kind, handle: H) -> (id: usize)
        ensures
            !old(self).subscribed(id),
            forall|below: usize| below < id ==> old(self).subscribed(below),
            final(self).id() == old(self).id(),
            final(self).subscriptions@ == old(self).subscriptions@.insert(
                id,
                Subscription { kind, handle },
            ),
            final(self).limit() == (if id < old(self).limit() {
                old(self).limit()
            } else {
                (id + 1) as nat
            }),
    {
        let id = self.subscriptions.insert(Subscription { kind, handle });
        assert forall|below: usize| below < id implies old(self).subscribed(below) by {
            let at = old(self).subscriptions@[below];
            assert(at.kind == Kind::Stream || at.kind == Kind::Timer);
        }
        id
    }

    /// Records the cancellation handle of a new stream subscription under the
    /// smallest free identifier, and returns that identifier.
    pub fn add_stream(&mut self, handle: H) -> (id: usize)
        ensures
            !old(self).subscribed(id),
            forall|below: usize| below < id ==> old(self).subscribed(below),
            final(self).id() == old(self).id(),
            final(self).streams() == old(self).streams().insert(id, handle),
            final(self).timers() == old(self).timers(),
            final(self).limit() == (if id < old(self).limit() {
                old(self).limit()
            } else {
                (id + 1) as nat
            }),
    {
        let id = self.subscribe(Kind::Stream, handle);
        assert(self.streams() =~= old(self).streams().insert(id, handle));
        assert(self.timers() =~= old(self).timers());
        id
    }

    /// Records the cancellation handle of a new timer subscription under the
    /// smallest free identifier, and returns that identifier.
    pub fn add_interval(&mut self, handle: H) -> (id: usize)
        ensures
            !old(self).subscribed(id),
            forall|below: usize| below < id ==> old(self).subscribed(below),
            final(self).id() == old(self).id(),
            final(self).timers() == old(self).timers().insert(id, handle),
            final(self).streams() == old(self).streams(),
            final(self).limit() == (if id < old(self).limit() {
                old(self).limit()
            } else {
                (id + 1) as nat
            }),
    {
        let id = self.subscribe(Kind::Timer, handle);
        assert(self.timers() =~= old(self).timers().insert(id, handle));
        assert(self.streams() =~= old(self).streams());
        id
    }

    /// Ends the subscription `id`, of either kind, and returns its handle for
    /// the caller to abort. Returns `None`, and changes nothing, where `id`
    /// names no live subscription.
    pub fn cancel(&mut self, id: usize) -> (handle: Option<H>)
        ensures
            handle == (if old(self).streams().contains_key(id) {
                Some(old(self).streams()[id])
            } else if old(self).timers().contains_key(id) {
                Some(old(self).timers()[id])
            } else {
                None
            }),
            final(self).id() == old(self).id(),
            final(self).streams() == old(self).streams().remove(id),
            final(self).timers() == old(self).timers().remove(id),
            final(self).limit() == old(self).limit(),
    {
        let taken = self.subscriptions.remove(id);
        assert(self.streams() =~= old(self).streams().remove(id));
        assert(self.timers() =~= old(self).timers().remove(id));
        match taken {
            Some(subscription) => {
                assert(subscription.kind == Kind::Stream || subscription.kind == Kind::Timer);
                Some(subscription.handle)
            },
            None => None,
        }
    }

    /// Forgets the handle of the stream subscription `id`, when the stream
    /// has run dry. Returns whether there was such a subscription; a timer
    /// under `id` stays.
    pub fn remove_stream(&mut self, id: usize) -> (removed: bool)
        ensures
            removed == old(self).streams().contains_key(id),
            final(self).id() == old(self).id(),
            final(self).streams() == old(self).streams().remove(id),
            final(self).timers() == old(self).timers(),
            final(self).limit() == old(self).limit(),
    {
        let is_stream = match self.subscriptions.get(id) {
            Some(subscription) => subscription.kind == Kind::Stream,
            None => false,
        };
        if is_stream {
            let _ = self.subscriptions.remove(id);
        }
        assert(self.streams() =~= old(self).streams().remove(id));
        assert(self.timers() =~= old(self).timers());
        is_stream
    }

    fn take_all(&mut self, kind: Kind) -> (handles: Vec<H>)
        ensures
            handles@ == ascending(of_kind(old(self).subscriptions@, kind), old(self).limit()),
            final(self).id() == old(self).id(),
            final(self).limit() == old(self).limit(),
            forall|id: usize|
                final(self).subscriptions@.contains_key(id) <==> (old(
                    self,
                ).subscriptions@.contains_key(id) && old(self).subscriptions@[id].kind != kind),
            forall|id: usize|
                final(self).subscriptions@.contains_key(id) ==> final(self).subscriptions@[id]
                    == old(self).subscriptions@[id],
    {
        let n = self.subscriptions.bound();
        let mut handles: Vec<H> = Vec::new();
        let mut i: usize = 0;
        proof {
            old(self).subscriptions.lemma_bounded();
        }
        while i < n
            invariant
                i <= n,
                n == old(self).limit(),
                self.limit() == old(self).limit(),
                self.id() == old(self).id(),
                handles@ == ascending(of_kind(old(self).subscriptions@, kind), i as nat),
                forall|id: usize|
                    self.subscriptions@.contains_key(id) <==> (old(
                        self,
                    ).subscriptions@.contains_key(id) && !(id < i && old(
                        self,
                    ).subscriptions@[id].kind == kind)),
                forall|id: usize|
                    self.subscriptions@.contains_key(id) ==> self.subscriptions@[id] == old(
                        self,
                    ).subscriptions@[id],
                forall|id: usize| old(self).subscriptions@.contains_key(id) ==> id < n,
            decreases n - i,
        {
            let wanted = match self.subscriptions.get(i) {
                Some(subscription) => subscription.kind == kind,
                None => false,
            };
            if wanted {
                let taken = self.subscriptions.remove(i);
                match taken {
                    Some(subscription) => {
                        handles.push(subscription.handle);
                    },
                    None => {},
                }
            }
            i += 1;
        }
        handles
    }

    /// Empties the stream subscriptions and returns their handles by rising
    /// identifier, for the caller to abort. Timers stay.
    pub fn abort_streams(&mut self) -> (handles: Vec<H>)
        ensures
            handles@ == old(self).stream_handles(),
            final(self).id() == old(self).id(),
            final(self).streams() == Map::<usize, H>::empty(),
            final(self).timers() == old(self).timers(),
            final(self).limit() == old(self).limit(),
    {
        let handles = self.take_all(Kind::Stream);
        assert(self.streams() =~= Map::<usize, H>::empty());
        assert(self.timers() =~= old(self).timers());
        handles
    }

    /// Empties the timer subscriptions and returns their handles by rising
    /// identifier, for the caller to abort. Streams stay.
    pub fn abort_intervals(&mut self) -> (handles: Vec<H>)
        ensures
            handles@ == old(self).timer_handles(),
            final(self).id() == old(self).id(),
            final(self).timers() == Map::<usize, H>::empty(),
            final(self).streams() == old(self).streams(),
            final(self).limit() == old(self).limit(),
    {
        let handles = self.take_all(Kind::Timer);
        assert(self.timers() =~= Map::<usize, H>::empty());
        assert(self.streams() =~= old(self).streams());
        handles
    }
}

} // verus!
