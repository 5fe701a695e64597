use std::sync::atomic::{AtomicU8, Ordering};
use std::sync::Arc;

use stubborn_io::config::{Callback, CancellationToken, RetriesGenerator};
use stubborn_io::reconnect::{
    attempt_report, Action, ErrorKind, Event, Gate, Hook, IoOp, IoPoll, Reason, Reconnector, Status, Verdict,
};
use stubborn_io::strategies::Delay;
use stubborn_io::ReconnectOptions;

/// A retry schedule generator that hands out the given waits each time.
fn waits_generator(waits: Vec<Delay>) -> RetriesGenerator {
    Box::new(move || Box::new(waits.clone().into_iter()))
}

/// A callback that counts its calls in `counter`.
fn counting(counter: &Arc<AtomicU8>) -> Callback {
    let c = counter.clone();
    Box::new(move || {
        c.fetch_add(1, Ordering::Relaxed);
    })
}

/// The fresh schedule of the options: the default one has no end, so it is given as
/// an endless run of one-second waits.
fn schedule(options: &ReconnectOptions) -> Box<dyn Iterator<Item = Delay> + Send + Sync> {
    match &options.retries_to_attempt_fn {
        Some(generator) => generator(),
        None => Box::new(std::iter::repeat(Delay::from_secs(1))),
    }
}

/// Invokes the callback that the machine called for, the way a driver does.
fn run_hook(machine: &mut Reconnector, hook: Option<Hook>) {
    match hook {
        Some(Hook::Connect) => machine.options.connect_callback(),
        Some(Hook::Disconnect) => machine.options.disconnect_callback(),
        Some(Hook::ConnectFail) => machine.options.connect_fail_callback(),
        None => {}
    }
}

/// Hands an event to the machine and invokes the callback it calls for.
fn handle(machine: &mut Reconnector, event: Event) -> Action {
    let (action, hook) = machine.handle(event);
    run_hook(machine, hook);
    action
}

/// Hands an I/O result to the machine and invokes the callback it calls for.
fn after_io(machine: &mut Reconnector, op: IoOp, poll: IoPoll) -> Verdict {
    let (verdict, hook) = machine.after_io(op, poll);
    run_hook(machine, hook);
    verdict
}

/// Drives the machine the way a driver does: each attempt takes the next outcome
/// (`true` for success), each wait the next item of the schedule. Stops at any other action.
fn drive(
    machine: &mut Reconnector,
    first: Action,
    outcomes: &[bool],
    next_outcome: &mut usize,
    waits: &mut dyn Iterator<Item = Delay>,
) -> Action {
    let mut action = first;
    loop {
        match action {
            Action::Attempt(_) => {
                let ok = outcomes[*next_outcome];
                *next_outcome += 1;
                action = handle(machine, if ok {
                    Event::AttemptSucceeded
                } else {
                    Event::AttemptFailed(ErrorKind::NotConnected)
                });
            }
            Action::DrawWait => {
                action = handle(machine, Event::NextWait(waits.next()));
            }
            other => return other,
        }
    }
}

/// Connects with the options and the outcomes: gives the machine and the final action.
fn connect(options: ReconnectOptions, outcomes: &[bool], next_outcome: &mut usize) -> (Reconnector, Action) {
    let mut waits = schedule(&options);
    let (mut machine, first) = Reconnector::new(options);
    let action = drive(&mut machine, first, outcomes, next_outcome, &mut *waits);
    (machine, action)
}

/// Handles a lost connection: starts a fresh schedule and drives the reconnect attempts.
fn reconnect(machine: &mut Reconnector, outcomes: &[bool], next_outcome: &mut usize) -> Action {
    let mut waits = schedule(&machine.options);
    drive(machine, Action::DrawWait, outcomes, next_outcome, &mut *waits)
}

#[test]
fn test_compilation_for_doc_example() {
    // A custom IO item, such as a file "connected" by opening its path: with the default
    // options the first attempt is made at once, and a failure ends everything with its error.
    let options: ReconnectOptions = ReconnectOptions::new();
    let (mut machine, first) = Reconnector::new(options);
    assert_eq!(first, Action::Attempt(Delay::zero()));
    let action = handle(&mut machine, Event::AttemptFailed(ErrorKind::NotFound));
    assert_eq!(action, Action::GiveUp(Reason::AttemptFailed(ErrorKind::NotFound)));
    assert_eq!(machine.status, Status::FailedAndExhausted(Reason::AttemptFailed(ErrorKind::NotFound)));
    assert_eq!(machine.gate(), Gate::Fail(ErrorKind::NotFound));
}

#[test]
fn should_be_connected_if_initial_connect_succeeds() {
    let mut n = 0;
    let (machine, action) = connect(ReconnectOptions::new(), &[true], &mut n);
    assert_eq!(action, Action::Established);
    assert_eq!(machine.status, Status::Connected);
    assert_eq!(machine.gate(), Gate::PollIo);
}

#[test]
fn should_work_without_cancel_token() {
    let mut n = 0;
    let (_, action) = connect(ReconnectOptions::new(), &[true], &mut n);
    assert!(matches!(action, Action::Established));
}

#[test]
fn should_be_disconnected_if_initial_connect_fails_with_fail_on_first_enabled() {
    let mut n = 0;
    let (machine, action) = connect(ReconnectOptions::new(), &[false, true], &mut n);
    assert_eq!(action, Action::GiveUp(Reason::AttemptFailed(ErrorKind::NotConnected)));
    assert_eq!(machine.status, Status::FailedAndExhausted(Reason::AttemptFailed(ErrorKind::NotConnected)));
    assert_eq!(n, 1);
}

#[test]
fn should_be_disconnected_if_all_initial_connects_fail() {
    let fails = Arc::new(AtomicU8::new(0));
    let options: ReconnectOptions = ReconnectOptions::new()
        .with_retries_generator(waits_generator(vec![Delay::from_millis(100)]))
        .with_exit_if_first_connect_fails(false)
        .with_on_connect_fail_callback(counting(&fails));
    let mut n = 0;
    let (_, action) = connect(options, &[false, false], &mut n);
    assert_eq!(fails.load(Ordering::Relaxed), 2);
    assert!(matches!(action, Action::GiveUp(_)));
}

#[test]
fn should_be_connected_if_initial_connect_fails_but_then_other_succeeds() {
    let fails = Arc::new(AtomicU8::new(0));
    let options: ReconnectOptions = ReconnectOptions::new()
        .with_exit_if_first_connect_fails(false)
        .with_retries_generator(waits_generator(vec![Delay::from_millis(100)]))
        .with_on_connect_fail_callback(counting(&fails));
    let mut n = 0;
    let (machine, action) = connect(options, &[false, true], &mut n);
    assert_eq!(fails.load(Ordering::Relaxed), 1);
    assert_eq!(action, Action::Established);
    assert_eq!(machine.status, Status::Connected);
}

#[test]
fn initial_retries_wait_as_scheduled() {
    let options: ReconnectOptions = ReconnectOptions::new()
        .with_exit_if_first_connect_fails(false)
        .with_retries_generator(waits_generator(vec![Delay::from_millis(100), Delay::from_millis(250)]));
    let (mut machine, first) = Reconnector::new(options);
    assert_eq!(first, Action::Attempt(Delay::zero()));
    assert_eq!(handle(&mut machine, Event::AttemptFailed(ErrorKind::ConnectionRefused)), Action::DrawWait);
    assert_eq!(
        machine.status,
        Status::Connecting { attempts: 0, failed_with: Some(ErrorKind::ConnectionRefused) }
    );
    assert_eq!(
        handle(&mut machine, Event::NextWait(Some(Delay::from_millis(100)))),
        Action::Attempt(Delay { secs: 0, nanos: 100_000_000 })
    );
    assert_eq!(machine.status, Status::Connecting { attempts: 1, failed_with: None });
    assert_eq!(handle(&mut machine, Event::AttemptFailed(ErrorKind::TimedOut)), Action::DrawWait);
    assert_eq!(
        handle(&mut machine, Event::NextWait(Some(Delay::from_millis(250)))),
        Action::Attempt(Delay { secs: 0, nanos: 250_000_000 })
    );
    assert_eq!(handle(&mut machine, Event::AttemptFailed(ErrorKind::TimedOut)), Action::DrawWait);
    // the schedule has run out: give up with the last attempt's error
    assert_eq!(handle(&mut machine, Event::NextWait(None)), Action::GiveUp(Reason::AttemptFailed(ErrorKind::TimedOut)));
    assert_eq!(machine.status, Status::FailedAndExhausted(Reason::AttemptFailed(ErrorKind::TimedOut)));
}

#[test]
fn unexpected_events_are_ignored() {
    let (mut machine, _) = Reconnector::<Callback, RetriesGenerator, CancellationToken>::new(ReconnectOptions::new());
    assert_eq!(handle(&mut machine, Event::NextWait(Some(Delay::zero()))), Action::Ignore);
    assert_eq!(machine.status, Status::Connecting { attempts: 0, failed_with: None });
    assert_eq!(handle(&mut machine, Event::AttemptSucceeded), Action::Established);
    assert_eq!(handle(&mut machine, Event::AttemptSucceeded), Action::Ignore);
    assert_eq!(handle(&mut machine, Event::Cancelled), Action::Ignore);
    assert_eq!(machine.status, Status::Connected);
}

#[test]
fn connect_callback_runs_once_per_connection() {
    let connects = Arc::new(AtomicU8::new(0));
    let options = ReconnectOptions::new().with_on_connect_callback(counting(&connects));
    let mut n = 0;
    let (_, action) = connect(options, &[true], &mut n);
    assert_eq!(action, Action::Established);
    assert_eq!(connects.load(Ordering::Relaxed), 1);
}

#[test]
fn should_ignore_non_fatal_errors_and_continue_as_connected() {
    let mut n = 0;
    let (mut machine, _) = connect(ReconnectOptions::new(), &[true], &mut n);
    assert_eq!(after_io(&mut machine, IoOp::Read, IoPoll::Failed(ErrorKind::WouldBlock)), Verdict::Deliver);
    assert_eq!(machine.status, Status::Connected);
    assert_eq!(after_io(&mut machine, IoOp::Read, IoPoll::Done(6)), Verdict::Deliver);
    assert_eq!(after_io(&mut machine, IoOp::Read, IoPoll::Done(2)), Verdict::Deliver);
    assert_eq!(after_io(&mut machine, IoOp::Read, IoPoll::Pending), Verdict::Deliver);
    assert_eq!(machine.status, Status::Connected);
}

#[test]
fn should_be_able_to_recover_after_disconnect() {
    let disconnects = Arc::new(AtomicU8::new(0));
    let options: ReconnectOptions = ReconnectOptions::new()
        .with_on_disconnect_callback(counting(&disconnects))
        .with_retries_generator(waits_generator(vec![
            Delay::from_millis(100),
            Delay::from_millis(100),
            Delay::from_millis(100),
        ]));
    let outcomes = [true, false, true];
    let mut n = 0;
    let (mut machine, action) = connect(options, &outcomes, &mut n);
    assert_eq!(action, Action::Established);
    let verdict = after_io(&mut machine, IoOp::Read, IoPoll::Failed(ErrorKind::ConnectionAborted));
    assert_eq!(verdict, Verdict::Reconnect);
    assert_eq!(machine.gate(), Gate::AwaitReconnect);
    let action = reconnect(&mut machine, &outcomes, &mut n);
    assert_eq!(action, Action::Established);
    assert_eq!(machine.status, Status::Connected);
    assert_eq!(after_io(&mut machine, IoOp::Read, IoPoll::Done(2)), Verdict::Deliver);
    assert_eq!(disconnects.load(Ordering::Relaxed), 1);
}

#[test]
fn should_give_up_when_all_attempts_exhausted() {
    let options = ReconnectOptions::new().with_retries_generator(waits_generator(vec![
        Delay::from_millis(100),
        Delay::from_millis(100),
        Delay::from_millis(100),
    ]));
    let outcomes = [true, false, false, false];
    let mut n = 0;
    let (mut machine, _) = connect(options, &outcomes, &mut n);
    assert_eq!(
        after_io(&mut machine, IoOp::Read, IoPoll::Failed(ErrorKind::ConnectionAborted)),
        Verdict::Reconnect
    );
    let action = reconnect(&mut machine, &outcomes, &mut n);
    assert_eq!(action, Action::GiveUp(Reason::RetriesExhausted));
    assert_eq!(n, 4);
    assert_eq!(machine.status, Status::FailedAndExhausted(Reason::RetriesExhausted));
    assert_eq!(machine.gate(), Gate::Fail(ErrorKind::NotConnected));
}

#[test]
fn reconnect_failures_invoke_connect_fail_callback() {
    let fails = Arc::new(AtomicU8::new(0));
    let connects = Arc::new(AtomicU8::new(0));
    let options: ReconnectOptions = ReconnectOptions::new()
        .with_on_connect_fail_callback(counting(&fails))
        .with_on_connect_callback(counting(&connects))
        .with_retries_generator(waits_generator(vec![Delay::from_millis(5); 4]));
    let outcomes = [true, false, false, true];
    let mut n = 0;
    let (mut machine, _) = connect(options, &outcomes, &mut n);
    assert_eq!(after_io(&mut machine, IoOp::Write, IoPoll::Failed(ErrorKind::BrokenPipe)), Verdict::Reconnect);
    assert_eq!(reconnect(&mut machine, &outcomes, &mut n), Action::Established);
    assert_eq!(fails.load(Ordering::Relaxed), 2);
    assert_eq!(connects.load(Ordering::Relaxed), 2);
}

#[test]
fn end_of_stream_read_is_a_disconnect() {
    let mut n = 0;
    let (mut machine, _) = connect(ReconnectOptions::new(), &[true], &mut n);
    assert_eq!(after_io(&mut machine, IoOp::Read, IoPoll::Done(0)), Verdict::Reconnect);
    assert_eq!(machine.status, Status::Disconnected { attempts: 0, awaiting_wait: true });
}

#[test]
fn empty_write_is_not_a_disconnect() {
    let mut n = 0;
    let (mut machine, _) = connect(ReconnectOptions::new(), &[true], &mut n);
    assert_eq!(after_io(&mut machine, IoOp::Write, IoPoll::Done(0)), Verdict::Deliver);
    assert_eq!(after_io(&mut machine, IoOp::Flush, IoPoll::Failed(ErrorKind::Other)), Verdict::Deliver);
    assert_eq!(machine.status, Status::Connected);
    assert_eq!(after_io(&mut machine, IoOp::Flush, IoPoll::Failed(ErrorKind::ConnectionReset)), Verdict::Reconnect);
}

#[test]
fn back_to_back_shutdown_attempts() {
    let mut n = 0;
    let (mut machine, _) = connect(ReconnectOptions::new(), &[true], &mut n);
    assert_eq!(machine.gate(), Gate::PollIo);
    assert_eq!(after_io(&mut machine, IoOp::Shutdown, IoPoll::Done(0)), Verdict::Deliver);
    // the second shutdown fails as not connected
    assert_eq!(machine.gate(), Gate::Fail(ErrorKind::NotConnected));
}

#[test]
fn pending_shutdown_keeps_connection() {
    let mut n = 0;
    let (mut machine, _) = connect(ReconnectOptions::new(), &[true], &mut n);
    assert_eq!(after_io(&mut machine, IoOp::Shutdown, IoPoll::Pending), Verdict::Deliver);
    assert_eq!(machine.status, Status::Connected);
}

#[test]
fn should_fail_with_pre_cancelled_token() {
    let options: ReconnectOptions = ReconnectOptions::new()
        .with_exit_if_first_connect_fails(false)
        .with_retries_generator(waits_generator(vec![Delay::from_millis(50)]));
    let (mut machine, _) = Reconnector::new(options);
    assert_eq!(handle(&mut machine, Event::Cancelled), Action::GiveUp(Reason::Cancelled));
    assert_eq!(machine.status, Status::FailedAndExhausted(Reason::Cancelled));
}

#[test]
fn should_cancel_initial_connection_attempts() {
    let options: ReconnectOptions = ReconnectOptions::new()
        .with_exit_if_first_connect_fails(false)
        .with_retries_generator(waits_generator(vec![Delay::from_millis(50); 3]));
    let (mut machine, _) = Reconnector::new(options);
    assert_eq!(handle(&mut machine, Event::AttemptFailed(ErrorKind::NotConnected)), Action::DrawWait);
    assert_eq!(handle(&mut machine, Event::NextWait(Some(Delay::from_millis(50)))), Action::Attempt(Delay::from_millis(50)));
    assert_eq!(handle(&mut machine, Event::AttemptFailed(ErrorKind::NotConnected)), Action::DrawWait);
    assert_eq!(handle(&mut machine, Event::Cancelled), Action::GiveUp(Reason::Cancelled));
}

#[test]
fn should_cancel_reconnection_attempts() {
    let options = ReconnectOptions::new().with_retries_generator(waits_generator(vec![Delay::from_millis(50); 4]));
    let outcomes = [true];
    let mut n = 0;
    let (mut machine, _) = connect(options, &outcomes, &mut n);
    assert_eq!(
        after_io(&mut machine, IoOp::Read, IoPoll::Failed(ErrorKind::ConnectionAborted)),
        Verdict::Reconnect
    );
    assert_eq!(
        handle(&mut machine, Event::NextWait(Some(Delay::from_millis(50)))),
        Action::Attempt(Delay::from_millis(50))
    );
    assert_eq!(handle(&mut machine, Event::Cancelled), Action::GiveUp(Reason::Cancelled));
    assert_eq!(machine.gate(), Gate::Fail(ErrorKind::Interrupted));
}


#[test]
fn cancel_token_option_is_kept() {
    let token = CancellationToken::new();
    let options: ReconnectOptions = ReconnectOptions::new()
        .with_cancel_token(token.clone())
        .with_exit_if_first_connect_fails(false);
    assert!(!options.exit_if_first_connect_fails);
    let kept = options.cancel_token.as_ref().unwrap();
    assert!(!kept.is_cancelled());
    token.cancel();
    assert!(kept.is_cancelled());
}

#[test]
fn cancellation_wins_over_attempt_outcome() {
    assert_eq!(attempt_report(true, None), Event::Cancelled);
    assert_eq!(attempt_report(true, Some(ErrorKind::TimedOut)), Event::Cancelled);
    assert_eq!(attempt_report(false, None), Event::AttemptSucceeded);
    assert_eq!(attempt_report(false, Some(ErrorKind::TimedOut)), Event::AttemptFailed(ErrorKind::TimedOut));
}

#[test]
fn give_up_reasons_report_their_error() {
    assert_eq!(Reason::AttemptFailed(ErrorKind::ConnectionRefused).error_kind(), ErrorKind::ConnectionRefused);
    assert_eq!(Reason::RetriesExhausted.error_kind(), ErrorKind::NotConnected);
    assert_eq!(Reason::Cancelled.error_kind(), ErrorKind::Interrupted);
    assert_eq!(Reason::ShutDown.error_kind(), ErrorKind::NotConnected);
}

#[test]
fn machine_returns_the_callback_to_run() {
    let options: ReconnectOptions = ReconnectOptions::new()
        .with_exit_if_first_connect_fails(false)
        .with_retries_generator(waits_generator(vec![Delay::from_millis(5)]));
    let (mut machine, _) = Reconnector::new(options);
    assert_eq!(machine.handle(Event::AttemptFailed(ErrorKind::NotConnected)), (Action::DrawWait, Some(Hook::ConnectFail)));
    assert_eq!(
        machine.handle(Event::NextWait(Some(Delay::from_millis(5)))),
        (Action::Attempt(Delay::from_millis(5)), None)
    );
    assert_eq!(machine.handle(Event::AttemptSucceeded), (Action::Established, Some(Hook::Connect)));
    assert_eq!(machine.after_io(IoOp::Read, IoPoll::Done(3)), (Verdict::Deliver, None));
    assert_eq!(
        machine.after_io(IoOp::Read, IoPoll::Failed(ErrorKind::ConnectionReset)),
        (Verdict::Reconnect, Some(Hook::Disconnect))
    );
}

#[test]
fn shutdown_gives_up_for_good() {
    let mut n = 0;
    let (mut machine, _) = connect(ReconnectOptions::new(), &[true], &mut n);
    assert_eq!(machine.after_io(IoOp::Shutdown, IoPoll::Failed(ErrorKind::Other)), (Verdict::Deliver, None));
    assert_eq!(machine.status, Status::FailedAndExhausted(Reason::ShutDown));
    assert_eq!(handle(&mut machine, Event::AttemptSucceeded), Action::Ignore);
    assert_eq!(machine.gate(), Gate::Fail(ErrorKind::NotConnected));
}
