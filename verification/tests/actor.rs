use std::collections::VecDeque;
use xactor::addr::call_outcome;
use xactor::addr::send_outcome;
use xactor::addr::ActorIds;
use xactor::addr::Message;
use xactor::context::Context;
use xactor::error::ActorError;
use xactor::mailbox::WorkItem;
use xactor::manager::Action;
use xactor::manager::ActorManager;
use xactor::manager::Phase;
use xactor::manager::Stage;
use xactor::manager::Teardown;

/// A mailbox for the tests: first in, first out, and closed on demand.
struct Mailbox<E> {
    queue: VecDeque<WorkItem<E, String>>,
    open: bool,
}

impl<E> Mailbox<E> {
    fn new() -> Self {
        Mailbox { queue: VecDeque::new(), open: true }
    }

    fn put(&mut self, item: WorkItem<E, String>) -> bool {
        if self.open {
            self.queue.push_back(item);
        }
        self.open
    }

    fn take(&mut self) -> Option<WorkItem<E, String>> {
        self.queue.pop_front()
    }
}

/// What a run of the loop looked like from outside.
struct Seen {
    reason: Option<String>,
    stopped_hook_runs: usize,
    teardown: Vec<Teardown<u32>>,
}

fn started_manager() -> ActorManager {
    let manager = ActorManager::new();
    assert_eq!(manager.stage(), Stage::Created);
    assert_eq!(manager.phase(), Phase::Created);
    let outcome: Result<(), String> = Ok(());
    match manager.startup_finished(outcome) {
        Ok(mut manager) => {
            assert_eq!(manager.stage(), Stage::Started);
            assert_eq!(manager.phase(), Phase::Started);
            manager.enter_loop();
            assert_eq!(manager.stage(), Stage::Idle);
            assert_eq!(manager.phase(), Phase::Running);
            manager
        }
        Err(error) => panic!("startup failed: {}", error.describe()),
    }
}

/// Runs the loop until it leaves, the shutdown hook, and the teardown.
fn run_actor<E>(
    manager: &mut ActorManager,
    ctx: &mut Context<u32>,
    mailbox: &mut Mailbox<E>,
    mut handle: impl FnMut(E, &mut Context<u32>, &mut Mailbox<E>, &ActorManager),
) -> Seen {
    let reason;
    loop {
        assert_eq!(manager.stage(), Stage::Idle);
        let item = mailbox.take();
        match manager.on_item(ctx, item) {
            Action::Execute(operation) => {
                assert_eq!(manager.stage(), Stage::Executing);
                handle(operation, ctx, mailbox, manager);
                manager.executed();
            }
            Action::Continue => {}
            Action::Exit(why) => {
                reason = why;
                break;
            }
        }
    }
    assert_eq!(manager.stage(), Stage::Leaving);
    assert_eq!(manager.phase(), Phase::Stopping);
    mailbox.open = false;
    let mut stopped_hook_runs = 0;
    while manager.stage() == Stage::Leaving {
        stopped_hook_runs += 1;
        manager.shutdown_finished();
    }
    assert_eq!(manager.stage(), Stage::Cancelling);
    assert_eq!(manager.phase(), Phase::Stopping);
    let teardown = manager.finish(ctx);
    assert_eq!(manager.stage(), Stage::Stopped);
    assert_eq!(manager.phase(), Phase::Stopped);
    Seen { reason, stopped_hook_runs, teardown }
}

#[test]
fn fifo_delivery_in_submission_order() {
    let mut manager = started_manager();
    let mut ctx: Context<u32> = Context::new(1);
    let mut mailbox: Mailbox<i32> = Mailbox::new();
    for n in 0..10 {
        let accepted = mailbox.put(WorkItem::Exec(n));
        let sent: Result<(), ActorError<String>> = send_outcome(accepted);
        assert_eq!(sent, Ok(()));
    }
    mailbox.put(ctx.stop(None));
    let mut log = Vec::new();
    let seen = run_actor(&mut manager, &mut ctx, &mut mailbox, |n, _, _, _| log.push(n));
    assert_eq!(log, vec![0, 1, 2, 3, 4, 5, 6, 7, 8, 9]);
    assert_eq!(seen.reason, None);
    assert_eq!(seen.stopped_hook_runs, 1);
}

#[test]
fn serialized_execution_never_overlaps() {
    let mut manager = started_manager();
    let mut ctx: Context<u32> = Context::new(1);
    let mut mailbox: Mailbox<usize> = Mailbox::new();
    mailbox.put(WorkItem::Exec(0));
    mailbox.put(WorkItem::Exec(1));
    let mut clock = 0u64;
    let mut spans = vec![(0u64, 0u64); 2];
    run_actor(&mut manager, &mut ctx, &mut mailbox, |call, _, waiting, manager| {
        clock += 1;
        let enter = clock;
        // The handler takes its time: the other call waits in the mailbox
        // and the manager takes no item meanwhile.
        assert_eq!(manager.stage(), Stage::Executing);
        if call == 0 {
            assert_eq!(waiting.queue.len(), 1);
        }
        clock += 50;
        spans[call] = (enter, clock);
    });
    let (first_enter, first_exit) = spans[0];
    let (second_enter, second_exit) = spans[1];
    assert!(first_enter < first_exit);
    assert!(second_enter >= first_exit);
    assert!(second_exit > second_enter);
}

struct Add(i32);

impl Message for Add {
    type Result = i32;
}

#[test]
fn call_round_trip_returns_running_total() {
    let mut manager = started_manager();
    let mut ctx: Context<u32> = Context::new(1);
    let mut mailbox: Mailbox<(Add, usize)> = Mailbox::new();
    let mut replies: Vec<Option<i32>> = vec![None, None];
    let first: Result<(), ActorError<String>> =
        send_outcome(mailbox.put(WorkItem::Exec((Add(1), 0))));
    let second: Result<(), ActorError<String>> =
        send_outcome(mailbox.put(WorkItem::Exec((Add(5), 1))));
    assert_eq!(first, Ok(()));
    assert_eq!(second, Ok(()));
    let mut total = 0;
    run_actor(&mut manager, &mut ctx, &mut mailbox, |(Add(n), slot), _, _, _| {
        total += n;
        replies[slot] = Some(total);
    });
    let first: Result<i32, ActorError<String>> = call_outcome::<Add, String>(replies[0].take());
    let second: Result<i32, ActorError<String>> = call_outcome::<Add, String>(replies[1].take());
    assert_eq!(first, Ok(1));
    assert_eq!(second, Ok(6));
}

#[test]
fn call_after_stop_reports_lost_response() {
    let mut manager = started_manager();
    let mut ctx: Context<u32> = Context::new(1);
    let mut mailbox: Mailbox<(Add, usize)> = Mailbox::new();
    let mut replies: Vec<Option<i32>> = vec![None];
    mailbox.put(WorkItem::Stop(Some(String::from("enough"))));
    let accepted = mailbox.put(WorkItem::Exec((Add(1), 0)));
    assert_eq!(send_outcome::<String>(accepted), Ok(()));
    let seen = run_actor(&mut manager, &mut ctx, &mut mailbox, |(Add(n), slot), _, _, _| {
        replies[slot] = Some(n);
    });
    assert_eq!(seen.reason, Some(String::from("enough")));
    assert_eq!(
        call_outcome::<Add, String>(replies[0].take()),
        Err(ActorError::ResponseLost)
    );
    // The mailbox is closed now: a later send is refused.
    let late = mailbox.put(WorkItem::Exec((Add(2), 0)));
    assert_eq!(send_outcome::<String>(late), Err(ActorError::NotRunning));
}

#[test]
fn hard_stop_discards_queue() {
    let mut manager = started_manager();
    let mut ctx: Context<u32> = Context::new(1);
    let mut mailbox: Mailbox<&'static str> = Mailbox::new();
    assert!(mailbox.put(ctx.stop(None)));
    assert!(mailbox.put(WorkItem::Exec("never")));
    let mut handled = 0;
    let seen = run_actor(&mut manager, &mut ctx, &mut mailbox, |_, _, _, _| handled += 1);
    assert_eq!(handled, 0);
    assert_eq!(seen.stopped_hook_runs, 1);
    assert_eq!(seen.teardown, vec![Teardown::SignalExit]);
    assert_eq!(mailbox.queue.len(), 1);
    assert_eq!(manager.phase(), Phase::Stopped);
}

#[test]
fn closed_mailbox_ends_the_loop() {
    let mut manager = started_manager();
    let mut ctx: Context<u32> = Context::new(1);
    let action: Action<i32, String> = manager.on_item(&mut ctx, None);
    assert_eq!(action, Action::Exit(None));
    assert_eq!(manager.stage(), Stage::Leaving);
}

#[test]
fn on_item_answers_each_kind() {
    let mut manager = started_manager();
    let mut ctx: Context<u32> = Context::new(1);
    let stream = ctx.add_stream(70);
    let timer = ctx.add_interval(80);
    let action: Action<i32, String> = manager.on_item(&mut ctx, Some(WorkItem::Exec(5)));
    assert_eq!(action, Action::Execute(5));
    assert_eq!(manager.stage(), Stage::Executing);
    assert_eq!(manager.phase(), Phase::Running);
    manager.executed();
    assert_eq!(manager.stage(), Stage::Idle);
    // A timer is not a stream: its handle stays.
    let action: Action<i32, String> =
        manager.on_item(&mut ctx, Some(WorkItem::RemoveStream(timer)));
    assert_eq!(action, Action::Continue);
    assert_eq!(ctx.cancel(timer), Some(80));
    let action: Action<i32, String> =
        manager.on_item(&mut ctx, Some(WorkItem::RemoveStream(stream)));
    assert_eq!(action, Action::Continue);
    assert_eq!(ctx.cancel(stream), None);
    let action: Action<i32, String> =
        manager.on_item(&mut ctx, Some(WorkItem::Stop(Some(String::from("bye")))));
    assert_eq!(action, Action::Exit(Some(String::from("bye"))));
    assert_eq!(manager.stage(), Stage::Leaving);
}

#[test]
fn failed_startup_hands_back_the_hook_error() {
    let manager = ActorManager::new();
    let outcome: Result<(), String> = Err(String::from("no database"));
    match manager.startup_finished(outcome) {
        Ok(_) => panic!("a failed startup must not give a started actor"),
        Err(error) => {
            assert_eq!(error, ActorError::StartupFailed(String::from("no database")));
            assert_eq!(error.describe(), "startup failed");
        }
    }
}

#[test]
fn teardown_cancels_streams_then_timers_then_signals_exit() {
    let mut manager = started_manager();
    let mut ctx: Context<u32> = Context::new(9);
    assert_eq!(ctx.add_interval(100), 0);
    assert_eq!(ctx.add_stream(200), 1);
    assert_eq!(ctx.add_interval(300), 2);
    assert_eq!(ctx.add_stream(400), 3);
    let action: Action<i32, String> = manager.on_item(&mut ctx, None);
    assert_eq!(action, Action::Exit(None));
    manager.shutdown_finished();
    let steps = manager.finish(&mut ctx);
    assert_eq!(
        steps,
        vec![
            Teardown::Cancel(200),
            Teardown::Cancel(400),
            Teardown::Cancel(100),
            Teardown::Cancel(300),
            Teardown::SignalExit,
        ]
    );
    assert_eq!(manager.phase(), Phase::Stopped);
    assert_eq!(ctx.cancel(0), None);
    assert_eq!(ctx.cancel(1), None);
    assert_eq!(ctx.actor_id(), 9);
}

#[test]
fn a_life_passes_every_stage_once() {
    let manager = ActorManager::new();
    let mut seen = vec![(manager.stage(), manager.phase())];
    let outcome: Result<(), String> = Ok(());
    let mut manager = match manager.startup_finished(outcome) {
        Ok(manager) => manager,
        Err(_) => panic!("startup failed"),
    };
    seen.push((manager.stage(), manager.phase()));
    manager.enter_loop();
    seen.push((manager.stage(), manager.phase()));
    let mut ctx: Context<u32> = Context::new(1);
    let action: Action<u8, String> = manager.on_item(&mut ctx, Some(WorkItem::Exec(1)));
    assert_eq!(action, Action::Execute(1));
    seen.push((manager.stage(), manager.phase()));
    manager.executed();
    let action: Action<u8, String> = manager.on_item(&mut ctx, Some(WorkItem::Stop(None)));
    assert_eq!(action, Action::Exit(None));
    seen.push((manager.stage(), manager.phase()));
    manager.shutdown_finished();
    seen.push((manager.stage(), manager.phase()));
    assert_eq!(manager.finish(&mut ctx), vec![Teardown::SignalExit]);
    seen.push((manager.stage(), manager.phase()));
    assert_eq!(
        seen,
        vec![
            (Stage::Created, Phase::Created),
            (Stage::Started, Phase::Started),
            (Stage::Idle, Phase::Running),
            (Stage::Executing, Phase::Running),
            (Stage::Leaving, Phase::Stopping),
            (Stage::Cancelling, Phase::Stopping),
            (Stage::Stopped, Phase::Stopped),
        ]
    );
}

#[test]
fn actor_ids_are_handed_out_once() {
    let mut ids = ActorIds::new();
    assert_eq!(ids.allocate(), Some(0));
    assert_eq!(ids.allocate(), Some(1));
    assert_eq!(ids.allocate(), Some(2));
}

#[test]
fn outcomes_of_send_and_call() {
    assert_eq!(send_outcome::<String>(true), Ok(()));
    assert_eq!(send_outcome::<String>(false), Err(ActorError::NotRunning));
    assert_eq!(call_outcome::<Add, String>(Some(7)), Ok(7));
    assert_eq!(call_outcome::<Add, String>(None), Err(ActorError::ResponseLost));
}

#[test]
fn errors_describe_themselves() {
    let not_running: ActorError<String> = ActorError::NotRunning;
    let lost: ActorError<String> = ActorError::ResponseLost;
    let uninitialized: ActorError<String> = ActorError::RegistryUninitialized;
    let not_found: ActorError<String> = ActorError::ServiceNotFound;
    let failed: ActorError<String> = ActorError::StartupFailed(String::from("x"));
    assert_eq!(not_running.describe(), "actor not running");
    assert_eq!(lost.describe(), "response channel closed");
    assert_eq!(uninitialized.describe(), "registry not initialized");
    assert_eq!(not_found.describe(), "service not found");
    assert_eq!(failed.describe(), "startup failed");
}
