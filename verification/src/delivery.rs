//! What an event loop makes of a mailbox: which items it reads, what it does
//! with each, and which operations it runs, stated for every sequence of
//! work items.

use crate::mailbox::WorkItem;
use crate::manager::step_item;
use crate::manager::Action;
use crate::manager::Stage;
use vstd::prelude::*;

verus! {

/// What the loop does with one item.
pub open spec fn answer<E, R>(item: WorkItem<E, R>) -> Action<E, R> {
    match item {
        WorkItem::Exec(operation) => Action::Execute(operation),
        WorkItem::RemoveStream(_) => Action::Continue,
        WorkItem::Stop(reason) => Action::Exit(reason),
    }
}

/// The place of the first stop in `items`, or the length of `items` where
/// they hold no stop.
pub open spec fn first_stop<E, R>(items: Seq<WorkItem<E, R>>) -> int
    decreases items.len(),
{
    if items.len() == 0 {
        0
    } else if items[0] is Stop {
        0
    } else {
        1 + first_stop(items.skip(1))
    }
}

/// The items that a loop reads: all up to the first stop, and that stop.
pub open spec fn read<E, R>(items: Seq<WorkItem<E, R>>) -> Seq<WorkItem<E, R>> {
    if first_stop(items) < items.len() {
        items.take(first_stop(items) + 1)
    } else {
        items
    }
}

/// The operations that a sequence of actions asks to run, in order.
pub open spec fn executed<E, R>(actions: Seq<Action<E, R>>) -> Seq<E>
    decreases actions.len(),
{
    if actions.len() == 0 {
        Seq::empty()
    } else {
        let before = executed(actions.drop_last());
        match actions.last() {
            Action::Execute(operation) => before.push(operation),
            _ => before,
        }
    }
}

/// How a loop ends up after a sequence of items.
pub struct Run<E, R> {
    /// The stage of the manager afterwards.
    pub stage: Stage,
    /// What the loop did, one action for each item that it read.
    pub actions: Seq<Action<E, R>>,
}

/// A loop at stage `s` takes `items` from its mailbox in order. It reads an
/// item only when it is idle, and after each operation that it hands out it
/// waits until the operation is done.
pub open spec fn run<E, R>(s: Stage, items: Seq<WorkItem<E, R>>) -> Run<E, R>
    decreases items.len(),
{
    if items.len() == 0 || s != Stage::Idle {
        Run { stage: s, actions: Seq::empty() }
    } else {
        let (taken, action) = step_item(Some(items[0]));
        let next = if taken == Stage::Executing {
            Stage::Idle
        } else {
            taken
        };
        let rest = run(next, items.skip(1));
        Run { stage: rest.stage, actions: seq![action] + rest.actions }
    }
}

/// An idle loop reads the items up to and including the first stop, and
/// answers each of them in turn. It is leaving if it met a stop, and idle,
/// ready for more, if it did not.
pub proof fn lemma_run_answers_in_order<E, R>(items: Seq<WorkItem<E, R>>)
    ensures
        run(Stage::Idle, items).actions == read(items).map_values(
            |item: WorkItem<E, R>| answer(item),
        ),
        first_stop(items) < items.len() ==> run(Stage::Idle, items).stage == Stage::Leaving,
        first_stop(items) >= items.len() ==> run(Stage::Idle, items).stage == Stage::Idle,
        0 <= first_stop(items) <= items.len(),
    decreases items.len(),
{
    let answers = |item: WorkItem<E, R>| answer(item);
    let s = Stage::Idle;
    if items.len() == 0 {
        assert(run(s, items).actions =~= read(items).map_values(answers));
    } else if items[0] is Stop {
        let (taken, action) = step_item(Some(items[0]));
        assert(run(taken, items.skip(1)).actions =~= Seq::<Action<E, R>>::empty());
        assert(read(items) =~= seq![items[0]]);
        assert(run(s, items).actions =~= read(items).map_values(answers));
    } else {
        let tail = items.skip(1);
        lemma_run_answers_in_order(tail);
        assert(read(items) =~= seq![items[0]] + read(tail));
        assert(run(s, items).actions =~= read(items).map_values(answers));
    }
}

/// The operations run are those of the actions, whatever else the actions
/// hold.
pub proof fn lemma_executed_concat<E, R>(a: Seq<Action<E, R>>, b: Seq<Action<E, R>>)
    ensures
        executed(a + b) == executed(a) + executed(b),
    decreases b.len(),
{
    if b.len() == 0 {
        assert(a + b =~= a);
        assert(executed(a) + executed(b) =~= executed(a));
    } else {
        assert((a + b).drop_last() =~= a + b.drop_last());
        lemma_executed_concat(a, b.drop_last());
        assert((a + b).last() == b.last());
        match b.last() {
            Action::Execute(operation) => {
                assert(executed(a + b) =~= executed(a) + executed(b));
            },
            _ => {},
        }
    }
}

/// First in, first run: an idle loop whose mailbox holds the messages of one
/// sender, in the order in which they were sent, runs exactly these, in that
/// order, and is idle again, ready for more.
pub proof fn lemma_fifo_delivery<E, R>(messages: Seq<E>)
    ensures
        executed(
            run(Stage::Idle, messages.map_values(|m: E| WorkItem::<E, R>::Exec(m))).actions,
        ) == messages,
        run(Stage::Idle, messages.map_values(|m: E| WorkItem::<E, R>::Exec(m))).stage
            == Stage::Idle,
{
    let s = Stage::Idle;
    let items = messages.map_values(|m: E| WorkItem::<E, R>::Exec(m));
    lemma_no_stop_among_operations::<E, R>(messages);
    lemma_run_answers_in_order(items);
    let actions = run(s, items).actions;
    assert(actions =~= messages.map_values(|m: E| Action::<E, R>::Execute(m)));
    lemma_executed_of_operations::<E, R>(messages);
}

/// A mailbox that holds operations only holds no stop.
pub proof fn lemma_no_stop_among_operations<E, R>(messages: Seq<E>)
    ensures
        first_stop(messages.map_values(|m: E| WorkItem::<E, R>::Exec(m))) == messages.len(),
    decreases messages.len(),
{
    let items = messages.map_values(|m: E| WorkItem::<E, R>::Exec(m));
    if messages.len() > 0 {
        lemma_no_stop_among_operations::<E, R>(messages.skip(1));
        assert(items.skip(1) =~= messages.skip(1).map_values(|m: E| WorkItem::<E, R>::Exec(m)));
    }
}

/// Actions that all ask for an operation run all of them, in order.
pub proof fn lemma_executed_of_operations<E, R>(messages: Seq<E>)
    ensures
        executed(messages.map_values(|m: E| Action::<E, R>::Execute(m))) == messages,
    decreases messages.len(),
{
    let actions = messages.map_values(|m: E| Action::<E, R>::Execute(m));
    if messages.len() > 0 {
        lemma_executed_of_operations::<E, R>(messages.drop_last());
        assert(actions.drop_last() =~= messages.drop_last().map_values(
            |m: E| Action::<E, R>::Execute(m),
        ));
        assert(executed(actions) =~= messages);
    } else {
        assert(executed(actions) =~= messages);
    }
}

/// A stop is a hard cut. Where a stop stands behind `before`, which holds no
/// stop itself, an idle loop answers `before`, then leaves with the stop's
/// reason. Nothing of `after` is read, so none of its operations runs, and
/// the loop leaves once: the shutdown hook is due, and nothing else.
pub proof fn lemma_stop_discards_queue<E, R>(
    before: Seq<WorkItem<E, R>>,
    reason: Option<R>,
    after: Seq<WorkItem<E, R>>,
)
    requires
        first_stop(before) == before.len(),
    ensures
        run(Stage::Idle, before + seq![WorkItem::Stop(reason)] + after).actions == run(
            Stage::Idle,
            before,
        ).actions + seq![Action::Exit(reason)],
        executed(run(Stage::Idle, before + seq![WorkItem::Stop(reason)] + after).actions)
            == executed(run(Stage::Idle, before).actions),
        run(Stage::Idle, before + seq![WorkItem::Stop(reason)] + after).stage == Stage::Leaving,
{
    let s = Stage::Idle;
    let stop = WorkItem::<E, R>::Stop(reason);
    let items = before + seq![stop] + after;
    let answers = |item: WorkItem<E, R>| answer(item);
    lemma_first_stop_concat(before, seq![stop] + after);
    assert((seq![stop] + after)[0] is Stop);
    assert(items =~= before + (seq![stop] + after));
    lemma_run_answers_in_order(items);
    lemma_run_answers_in_order(before);
    assert(read(items) =~= before + seq![stop]);
    assert(read(before) =~= before);
    assert(read(items).map_values(answers) =~= before.map_values(answers) + seq![
        Action::Exit(reason),
    ]);
    lemma_executed_concat(run(s, before).actions, seq![Action::<E, R>::Exit(reason)]);
    assert(executed(seq![Action::<E, R>::Exit(reason)]) =~= Seq::<E>::empty()) by {
        let leave = seq![Action::<E, R>::Exit(reason)];
        assert(leave.last() == Action::<E, R>::Exit(reason));
        assert(leave.drop_last().len() == 0);
        assert(executed(leave) == executed(leave.drop_last()));
    }
    assert(executed(run(s, before).actions) + Seq::<E>::empty() =~= executed(
        run(s, before).actions,
    ));
}

/// Behind a part without stops, the first stop is the first stop of what
/// follows.
pub proof fn lemma_first_stop_concat<E, R>(before: Seq<WorkItem<E, R>>, after: Seq<WorkItem<E, R>>)
    requires
        first_stop(before) == before.len(),
    ensures
        first_stop(before + after) == before.len() + first_stop(after),
    decreases before.len(),
{
    let items = before + after;
    if before.len() == 0 {
        assert(items =~= after);
    } else {
        assert(items[0] == before[0]);
        assert(!(before[0] is Stop));
        assert(items.skip(1) =~= before.skip(1) + after);
        lemma_first_stop_concat(before.skip(1), after);
    }
}

/// One thing at a time: a loop that has handed out an operation reads no
/// item until the operation is done, so no two operations of one actor
/// overlap. In a run, each operation is done before the next item is read.
pub proof fn lemma_no_overlap<E, R>(items: Seq<WorkItem<E, R>>)
    ensures
        run(Stage::Executing, items).actions == Seq::<Action<E, R>>::empty(),
        run(Stage::Executing, items).stage == Stage::Executing,
        items.len() > 0 && items[0] is Exec ==> step_item(Some(items[0])).0 == Stage::Executing
            && run(Stage::Idle, items).actions == seq![answer(items[0])] + run(
            Stage::Idle,
            items.skip(1),
        ).actions,
{
}

} // verus!
