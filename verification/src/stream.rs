//! Feeding a stream into a mailbox.
//!
//! A stream subscription is served by a task of its own, which turns what the
//! stream yields into work items for the actor. The feed decides which items
//! these are; the task awaits the stream and does the sending. A task that is
//! cancelled simply ends: it sends nothing more, and the end of the stream is
//! never announced.

use crate::delivery::answer;
use crate::delivery::executed;
use crate::delivery::first_stop;
use crate::delivery::lemma_executed_concat;
use crate::delivery::lemma_executed_of_operations;
use crate::delivery::lemma_first_stop_concat;
use crate::delivery::lemma_no_stop_among_operations;
use crate::delivery::lemma_run_answers_in_order;
use crate::delivery::lemma_stop_discards_queue;
use crate::delivery::read;
use crate::delivery::run;
use crate::mailbox::WorkItem;
use crate::manager::Action;
use crate::manager::Stage;
use vstd::prelude::*;

verus! {

/// What the actor is asked to do for a stream that it subscribed to.
#[derive(Debug, PartialEq, Eq)]
pub enum StreamCall<T> {
    /// The stream is polled for the first time.
    Started,
    /// The stream yielded this item.
    Handle(T),
    /// The stream is exhausted. Unless the actor decides otherwise it then
    /// stops itself.
    Finished,
}

/// How far a feed has come.
#[derive(Clone, Copy, Debug, PartialEq, Eq, Structural)]
pub enum FeedStage {
    /// Nothing has been announced.
    Idle,
    /// The start has been announced; items follow as they come.
    Flowing,
    /// The end has been announced.
    Done,
}

/// The work items for what the stream yielded next: one call for an item;
/// for the end of the stream the call that announces it, and then the removal
/// of the subscription `id`.
pub open spec fn announced<T, R>(id: usize, yielded: Option<T>) -> Seq<
    WorkItem<StreamCall<T>, R>,
> {
    match yielded {
        Some(item) => seq![WorkItem::Exec(StreamCall::Handle(item))],
        None => seq![WorkItem::Exec(StreamCall::Finished), WorkItem::RemoveStream(id)],
    }
}

/// The calls for the items of a stream, in the order of the items.
pub open spec fn handled<T>(items: Seq<T>) -> Seq<StreamCall<T>> {
    items.map_values(|item: T| StreamCall::Handle(item))
}

/// All that the feed of subscription `id` sends for a stream that yields
/// `items` and ends: the start, one call for each item in order, the end, and
/// the removal of the subscription.
pub open spec fn fed<T, R>(id: usize, items: Seq<T>) -> Seq<WorkItem<StreamCall<T>, R>> {
    seq![WorkItem::Exec(StreamCall::Started)] + handled(items).map_values(
        |call: StreamCall<T>| WorkItem::<StreamCall<T>, R>::Exec(call),
    ) + announced::<T, R>(id, None)
}

/// The feed of one stream subscription.
pub struct StreamFeed {
    id: usize,
    stage: FeedStage,
}

impl StreamFeed {
    /// The identifier of the subscription.
    pub closed spec fn id(&self) -> usize {
        self.id
    }

    /// How far the feed has come.
    pub closed spec fn stage(&self) -> FeedStage {
        self.stage
    }

    /// The feed of the subscription `id`, before anything is announced.
    pub fn new(id: usize) -> (feed: Self)
        ensures
            feed.id() == id,
            feed.stage() == FeedStage::Idle,
    {
        StreamFeed { id, stage: FeedStage::Idle }
    }

    /// How far the feed has come.
    pub fn current(&self) -> (stage: FeedStage)
        ensures
            stage == self.stage(),
    {
        self.stage
    }

    /// Announces the start of the stream, before the stream is polled.
    pub fn start<T, R>(&mut self) -> (item: WorkItem<StreamCall<T>, R>)
        requires
            old(self).stage() == FeedStage::Idle,
        ensures
            item == WorkItem::<StreamCall<T>, R>::Exec(StreamCall::Started),
            final(self).id() == old(self).id(),
            final(self).stage() == FeedStage::Flowing,
    {
        self.stage = FeedStage::Flowing;
        WorkItem::Exec(StreamCall::Started)
    }

    /// Takes what the stream yielded, `None` being its end, and returns the
    /// work items to send, in order. After the end nothing more is fed.
    pub fn next<T, R>(&mut self, yielded: Option<T>) -> (items: Vec<WorkItem<StreamCall<T>, R>>)
        requires
            old(self).stage() == FeedStage::Flowing,
        ensures
            items@ == announced::<T, R>(old(self).id(), yielded),
            final(self).id() == old(self).id(),
            final(self).stage() == (if yielded is Some {
                FeedStage::Flowing
            } else {
                FeedStage::Done
            }),
    {
        let mut items: Vec<WorkItem<StreamCall<T>, R>> = Vec::new();
        match yielded {
            Some(item) => {
                items.push(WorkItem::Exec(StreamCall::Handle(item)));
            },
            None => {
                items.push(WorkItem::Exec(StreamCall::Finished));
                items.push(WorkItem::RemoveStream(self.id));
                self.stage = FeedStage::Done;
            },
        }
        assert(items@ =~= announced::<T, R>(old(self).id(), yielded));
        items
    }
}

/// What a feed has sent while the stream flows: the start, and then what it
/// announced for each item that the stream yielded, in turn.
pub open spec fn flowed<T, R>(id: usize, items: Seq<T>) -> Seq<WorkItem<StreamCall<T>, R>>
    decreases items.len(),
{
    if items.len() == 0 {
        seq![WorkItem::Exec(StreamCall::Started)]
    } else {
        flowed::<T, R>(id, items.drop_last()) + announced::<T, R>(id, Some(items.last()))
    }
}

/// Step by step, a feed sends exactly the start, one call for each item in
/// the order in which the stream yielded them, the end, and the removal of
/// its subscription.
pub proof fn lemma_feed_in_order<T, R>(id: usize, items: Seq<T>)
    ensures
        flowed::<T, R>(id, items) + announced::<T, R>(id, None) == fed::<T, R>(id, items),
    decreases items.len(),
{
    lemma_flow_in_order::<T, R>(id, items);
}

/// While the stream flows, a feed has sent the start and one call for each
/// item so far, in order.
pub proof fn lemma_flow_in_order<T, R>(id: usize, items: Seq<T>)
    ensures
        flowed::<T, R>(id, items) == seq![
            WorkItem::<StreamCall<T>, R>::Exec(StreamCall::Started),
        ] + handled(items).map_values(
            |call: StreamCall<T>| WorkItem::<StreamCall<T>, R>::Exec(call),
        ),
    decreases items.len(),
{
    let wrap = |call: StreamCall<T>| WorkItem::<StreamCall<T>, R>::Exec(call);
    let start = seq![WorkItem::<StreamCall<T>, R>::Exec(StreamCall::Started)];
    if items.len() == 0 {
        assert(flowed::<T, R>(id, items) =~= start + handled(items).map_values(wrap));
    } else {
        lemma_flow_in_order::<T, R>(id, items.drop_last());
        assert(handled(items).map_values(wrap) =~= handled(items.drop_last()).map_values(wrap)
            + announced::<T, R>(id, Some(items.last())));
        assert(flowed::<T, R>(id, items) =~= start + handled(items).map_values(wrap));
    }
}

/// The life of a stream subscription. An idle loop, whose mailbox holds what
/// the feed sent for a stream of `items` and behind it the stop that the
/// default end of a stream asks for, runs the start once, then one call for
/// each item in the order of the items, then the end once, and leaves.
pub proof fn lemma_stream_lifecycle<T, R>(id: usize, items: Seq<T>)
    ensures
        executed(
            run(
                Stage::Idle,
                fed::<T, R>(id, items) + seq![WorkItem::<StreamCall<T>, R>::Stop(None)],
            ).actions,
        ) == seq![StreamCall::Started] + handled(items) + seq![StreamCall::Finished],
        run(
            Stage::Idle,
            fed::<T, R>(id, items) + seq![WorkItem::<StreamCall<T>, R>::Stop(None)],
        ).stage == Stage::Leaving,
{
    let wrap = |call: StreamCall<T>| WorkItem::<StreamCall<T>, R>::Exec(call);
    let answers = |item: WorkItem<StreamCall<T>, R>| answer(item);
    let calls = seq![StreamCall::Started] + handled(items) + seq![StreamCall::Finished];
    let head = calls.map_values(wrap);
    let gone = seq![WorkItem::<StreamCall<T>, R>::RemoveStream(id)];
    let before = fed::<T, R>(id, items);
    assert(before =~= head + gone);
    lemma_no_stop_among_operations::<StreamCall<T>, R>(calls);
    lemma_first_stop_concat(head, gone);
    assert(first_stop(gone) == 1) by {
        assert(gone[0] is RemoveStream);
        assert(gone.skip(1).len() == 0);
        assert(first_stop(gone.skip(1)) == 0);
        assert(first_stop(gone) == 1 + first_stop(gone.skip(1)));
    }
    assert(before + seq![WorkItem::<StreamCall<T>, R>::Stop(None)]
        =~= before + seq![WorkItem::<StreamCall<T>, R>::Stop(None)] + Seq::empty());
    lemma_stop_discards_queue(before, None, Seq::empty());
    lemma_run_answers_in_order(before);
    assert(read(before) =~= before);
    let done = calls.map_values(|call: StreamCall<T>| Action::<StreamCall<T>, R>::Execute(call));
    let skipped = seq![Action::<StreamCall<T>, R>::Continue];
    assert(before.map_values(answers) =~= done + skipped);
    lemma_executed_concat(done, skipped);
    lemma_executed_of_operations::<StreamCall<T>, R>(calls);
    assert(executed(skipped) =~= Seq::<StreamCall<T>>::empty()) by {
        assert(skipped.last() == Action::<StreamCall<T>, R>::Continue);
        assert(skipped.drop_last().len() == 0);
        assert(executed(skipped) == executed(skipped.drop_last()));
    }
    assert(executed(done) + Seq::<StreamCall<T>>::empty() =~= executed(done));
}

} // verus!
