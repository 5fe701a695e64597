//! The decisions of a stubborn connection: when to attempt a connection, when an I/O
//! result means that the connection is lost, when to give up, and which callback the driver is to invoke.
//!
//! The waiting, the connecting and the I/O itself are done by whoever drives the machine:
//! it performs the action that a step returns and hands back what came of it.

use vstd::prelude::*;

use crate::config::{Callback, CancellationToken, ReconnectOptions, RetriesGenerator};
use crate::strategies::Delay;

verus! {

/// The kinds of I/O errors that the decisions tell apart.
#[derive(Clone, Copy, Debug, PartialEq, Eq, Structural)]
pub enum ErrorKind {
    NotFound,
    PermissionDenied,
    ConnectionRefused,
    ConnectionReset,
    ConnectionAborted,
    NotConnected,
    AddrInUse,
    AddrNotAvailable,
    BrokenPipe,
    AlreadyExists,
    WouldBlock,
    InvalidInput,
    InvalidData,
    TimedOut,
    WriteZero,
    Interrupted,
    Unsupported,
    UnexpectedEof,
    OutOfMemory,
    Other,
}

/// An error of this kind on a write (or flush) means that the connection is gone.
pub open spec fn write_disconnect_kind(kind: ErrorKind) -> bool {
    ||| kind == ErrorKind::NotFound
    ||| kind == ErrorKind::PermissionDenied
    ||| kind == ErrorKind::ConnectionRefused
    ||| kind == ErrorKind::ConnectionReset
    ||| kind == ErrorKind::ConnectionAborted
    ||| kind == ErrorKind::NotConnected
    ||| kind == ErrorKind::AddrInUse
    ||| kind == ErrorKind::AddrNotAvailable
    ||| kind == ErrorKind::BrokenPipe
    ||| kind == ErrorKind::AlreadyExists
}

/// An error of this kind on a read means that the connection is gone.
pub open spec fn read_disconnect_kind(kind: ErrorKind) -> bool {
    write_disconnect_kind(kind) || kind == ErrorKind::UnexpectedEof
}

/// Whether a write error of this kind is a disconnect.
pub fn is_write_disconnect_error(kind: ErrorKind) -> (r: bool)
    ensures
        r == write_disconnect_kind(kind),
{
    match kind {
        ErrorKind::NotFound | ErrorKind::PermissionDenied | ErrorKind::ConnectionRefused
        | ErrorKind::ConnectionReset | ErrorKind::ConnectionAborted | ErrorKind::NotConnected
        | ErrorKind::AddrInUse | ErrorKind::AddrNotAvailable | ErrorKind::BrokenPipe
        | ErrorKind::AlreadyExists => true,
        _ => false,
    }
}

/// Whether a read error of this kind is a disconnect.
pub fn is_read_disconnect_error(kind: ErrorKind) -> (r: bool)
    ensures
        r == read_disconnect_kind(kind),
{
    is_write_disconnect_error(kind) || kind == ErrorKind::UnexpectedEof
}

/// Whether a successful read of this many bytes is the last one: a read of nothing
/// means that the other end has closed the connection.
pub fn is_final_read(bytes_read: usize) -> (r: bool)
    ensures
        r == (bytes_read == 0),
{
    bytes_read == 0
}

/// The I/O operations of a connection.
#[derive(Clone, Copy, Debug, PartialEq, Eq, Structural)]
pub enum IoOp {
    Read,
    Write,
    Flush,
    Shutdown,
}

/// What polling an I/O operation gave.
#[derive(Clone, Copy, Debug, PartialEq, Eq, Structural)]
pub enum IoPoll {
    /// Not ready yet.
    Pending,
    /// Done, with the number of bytes transferred (0 for flush and shutdown).
    Done(usize),
    /// Done, with an error.
    Failed(ErrorKind),
}

/// The result of this operation means that the connection is gone.
pub open spec fn disconnect_detected(op: IoOp, poll: IoPoll) -> bool {
    match op {
        IoOp::Read => match poll {
            IoPoll::Done(n) => n == 0,
            IoPoll::Failed(k) => read_disconnect_kind(k),
            IoPoll::Pending => false,
        },
        IoOp::Write | IoOp::Flush => match poll {
            IoPoll::Failed(k) => write_disconnect_kind(k),
            _ => false,
        },
        IoOp::Shutdown => false,
    }
}

/// Whether the result of a read means that the connection is gone.
pub fn is_read_disconnect_detected(poll: IoPoll) -> (r: bool)
    ensures
        r == disconnect_detected(IoOp::Read, poll),
{
    match poll {
        IoPoll::Done(n) => is_final_read(n),
        IoPoll::Failed(k) => is_read_disconnect_error(k),
        IoPoll::Pending => false,
    }
}

/// Whether the result of a write or a flush means that the connection is gone.
pub fn is_write_disconnect_detected(poll: IoPoll) -> (r: bool)
    ensures
        r == disconnect_detected(IoOp::Write, poll),
        r == disconnect_detected(IoOp::Flush, poll),
{
    match poll {
        IoPoll::Failed(k) => is_write_disconnect_error(k),
        _ => false,
    }
}

/// Where a stubborn connection stands.
#[derive(Clone, Copy, Debug, PartialEq, Eq, Structural)]
pub enum Status {
    /// Establishing the first connection. `attempts` retries have been started;
    /// `failed_with` holds the error of the last attempt while the next wait is awaited.
    Connecting { attempts: u64, failed_with: Option<ErrorKind> },
    /// The connection is up.
    Connected,
    /// The connection was lost and is being re-established. `attempts` reconnect attempts
    /// have been started since; `awaiting_wait` is set while the next wait is awaited.
    Disconnected { attempts: u64, awaiting_wait: bool },
    /// No connection, and none will be attempted again, for this reason.
    FailedAndExhausted(Reason),
}

/// Why a connection was given up.
#[derive(Clone, Copy, Debug, PartialEq, Eq, Structural)]
pub enum Reason {
    /// The last attempt at the first connection failed with this error.
    AttemptFailed(ErrorKind),
    /// The retry schedule ran out while reconnecting.
    RetriesExhausted,
    /// The caller cancelled.
    Cancelled,
    /// The connection was shut down.
    ShutDown,
}

/// The error that operations report once the connection was given up for this reason.
pub open spec fn reason_error(reason: Reason) -> ErrorKind {
    match reason {
        Reason::AttemptFailed(e) => e,
        Reason::RetriesExhausted => ErrorKind::NotConnected,
        Reason::Cancelled => ErrorKind::Interrupted,
        Reason::ShutDown => ErrorKind::NotConnected,
    }
}

impl Reason {
    /// The error that operations report once the connection was given up for this reason.
    pub fn error_kind(self) -> (kind: ErrorKind)
        ensures
            kind == reason_error(self),
    {
        match self {
            Reason::AttemptFailed(e) => e,
            Reason::RetriesExhausted => ErrorKind::NotConnected,
            Reason::Cancelled => ErrorKind::Interrupted,
            Reason::ShutDown => ErrorKind::NotConnected,
        }
    }
}

/// What the driver hands back to the machine.
#[derive(Clone, Copy, Debug, PartialEq, Eq, Structural)]
pub enum Event {
    /// The connection attempt that the machine asked for has succeeded.
    AttemptSucceeded,
    /// The connection attempt that the machine asked for has failed with this error.
    AttemptFailed(ErrorKind),
    /// The next wait of the retry schedule, or `None` when the schedule has run out.
    NextWait(Option<Delay>),
    /// The caller cancelled the connection.
    Cancelled,
}

/// What the machine asks the driver to do.
#[derive(Clone, Copy, Debug, PartialEq, Eq, Structural)]
pub enum Action {
    /// Wait this long, then attempt a connection.
    Attempt(Delay),
    /// Draw the next wait from the retry schedule of the current connection episode.
    DrawWait,
    /// A connection is established: use it.
    Established,
    /// Stop trying, for this reason.
    GiveUp(Reason),
    /// The event does not apply in this state: nothing to do.
    Ignore,
}

/// The callbacks of the options.
#[derive(Clone, Copy, Debug, PartialEq, Eq, Structural)]
pub enum Hook {
    Connect,
    Disconnect,
    ConnectFail,
}

/// What to do before an I/O operation.
#[derive(Clone, Copy, Debug, PartialEq, Eq, Structural)]
pub enum Gate {
    /// Poll the operation on the connection.
    PollIo,
    /// The connection is being re-established: poll the reconnect attempt, and report the
    /// operation as not ready yet.
    AwaitReconnect,
    /// Fail the operation with this error.
    Fail(ErrorKind),
}

/// What to do with the result of an I/O operation on the connection.
#[derive(Clone, Copy, Debug, PartialEq, Eq, Structural)]
pub enum Verdict {
    /// Hand the result to the caller as it is.
    Deliver,
    /// The connection is lost: report the operation as not ready yet, start a fresh retry
    /// schedule and draw its first wait.
    Reconnect,
}

/// One more attempt; the count stops at its maximum.
pub open spec fn bump(attempts: u64) -> u64 {
    if attempts < u64::MAX {
        (attempts + 1) as u64
    } else {
        attempts
    }
}

/// The state, action and callback that an event leads to.
pub open spec fn step(status: Status, exit_if_first_connect_fails: bool, event: Event) -> (
    Status,
    Action,
    Option<Hook>,
) {
    match (status, event) {
        (_, Event::Cancelled) => match status {
            Status::Connecting { .. } | Status::Disconnected { .. } => (
                Status::FailedAndExhausted(Reason::Cancelled),
                Action::GiveUp(Reason::Cancelled),
                None,
            ),
            _ => (status, Action::Ignore, None),
        },
        (Status::Connecting { attempts, failed_with: None }, Event::AttemptSucceeded) => (
            Status::Connected,
            Action::Established,
            Some(Hook::Connect),
        ),
        (Status::Connecting { attempts, failed_with: None }, Event::AttemptFailed(e)) => {
            if exit_if_first_connect_fails {
                (
                    Status::FailedAndExhausted(Reason::AttemptFailed(e)),
                    Action::GiveUp(Reason::AttemptFailed(e)),
                    Some(Hook::ConnectFail),
                )
            } else {
                (
                    Status::Connecting { attempts, failed_with: Some(e) },
                    Action::DrawWait,
                    Some(Hook::ConnectFail),
                )
            }
        },
        (Status::Connecting { attempts, failed_with: Some(e) }, Event::NextWait(Some(d))) => (
            Status::Connecting { attempts: bump(attempts), failed_with: None },
            Action::Attempt(d),
            None,
        ),
        (Status::Connecting { attempts, failed_with: Some(e) }, Event::NextWait(None)) => (
            Status::FailedAndExhausted(Reason::AttemptFailed(e)),
            Action::GiveUp(Reason::AttemptFailed(e)),
            None,
        ),
        (Status::Disconnected { attempts, awaiting_wait: true }, Event::NextWait(Some(d))) => (
            Status::Disconnected { attempts: bump(attempts), awaiting_wait: false },
            Action::Attempt(d),
            None,
        ),
        (Status::Disconnected { attempts, awaiting_wait: true }, Event::NextWait(None)) => (
            Status::FailedAndExhausted(Reason::RetriesExhausted),
            Action::GiveUp(Reason::RetriesExhausted),
            None,
        ),
        (
            Status::Disconnected { attempts, awaiting_wait: false },
            Event::AttemptSucceeded,
        ) => (Status::Connected, Action::Established, Some(Hook::Connect)),
        (
            Status::Disconnected { attempts, awaiting_wait: false },
            Event::AttemptFailed(e),
        ) => (
            Status::Disconnected { attempts, awaiting_wait: true },
            Action::DrawWait,
            Some(Hook::ConnectFail),
        ),
        _ => (status, Action::Ignore, None),
    }
}

/// What to do before an I/O operation, by where the connection stands.
pub open spec fn gate_of(status: Status) -> Gate {
    match status {
        Status::Connected => Gate::PollIo,
        Status::Disconnected { .. } => Gate::AwaitReconnect,
        Status::FailedAndExhausted(reason) => Gate::Fail(reason_error(reason)),
        Status::Connecting { .. } => Gate::Fail(ErrorKind::NotConnected),
    }
}

/// The state, verdict and callback that the result of an I/O operation on an established
/// connection leads to.
pub open spec fn io_step(op: IoOp, poll: IoPoll) -> (Status, Verdict, Option<Hook>) {
    if op == IoOp::Shutdown {
        if !(poll is Pending) {
            (Status::FailedAndExhausted(Reason::ShutDown), Verdict::Deliver, None)
        } else {
            (Status::Connected, Verdict::Deliver, None)
        }
    } else if disconnect_detected(op, poll) {
        (
            Status::Disconnected { attempts: 0, awaiting_wait: true },
            Verdict::Reconnect,
            Some(Hook::Disconnect),
        )
    } else {
        (Status::Connected, Verdict::Deliver, None)
    }
}

/// The event that reports a finished connection attempt: a cancellation of the caller's
/// token takes precedence over whatever the attempt gave.
pub fn attempt_report(cancelled: bool, outcome: Option<ErrorKind>) -> (event: Event)
    ensures
        event == (if cancelled {
            Event::Cancelled
        } else {
            attempt_event(outcome)
        }),
        cancelled ==> event == Event::Cancelled,
        !cancelled && outcome is None ==> event == Event::AttemptSucceeded,
        outcome matches Some(e) ==> (!cancelled ==> event == Event::AttemptFailed(e)),
{
    if cancelled {
        Event::Cancelled
    } else {
        match outcome {
            None => Event::AttemptSucceeded,
            Some(e) => Event::AttemptFailed(e),
        }
    }
}

/// Computes `step`.
pub fn next_step(status: Status, exit_if_first_connect_fails: bool, event: Event) -> (r: (
    Status,
    Action,
    Option<Hook>,
))
    ensures
        r == step(status, exit_if_first_connect_fails, event),
{
    match event {
        Event::Cancelled => {
            return match status {
                Status::Connecting { .. } | Status::Disconnected { .. } => (
                    Status::FailedAndExhausted(Reason::Cancelled),
                    Action::GiveUp(Reason::Cancelled),
                    None,
                ),
                _ => (status, Action::Ignore, None),
            };
        },
        _ => {},
    }
    match status {
        Status::Connecting { attempts, failed_with: None } => match event {
            Event::AttemptSucceeded => (
                Status::Connected,
                Action::Established,
                Some(Hook::Connect),
            ),
            Event::AttemptFailed(e) => {
                if exit_if_first_connect_fails {
                    (
                    Status::FailedAndExhausted(Reason::AttemptFailed(e)),
                    Action::GiveUp(Reason::AttemptFailed(e)),
                    Some(Hook::ConnectFail),
                )
                } else {
                    (
                        Status::Connecting { attempts, failed_with: Some(e) },
                        Action::DrawWait,
                        Some(Hook::ConnectFail),
                    )
                }
            },
            _ => (status, Action::Ignore, None),
        },
        Status::Connecting { attempts, failed_with: Some(e) } => match event {
            Event::NextWait(Some(d)) => (
                Status::Connecting { attempts: attempts.saturating_add(1), failed_with: None },
                Action::Attempt(d),
                None,
            ),
            Event::NextWait(None) => (
                Status::FailedAndExhausted(Reason::AttemptFailed(e)),
                Action::GiveUp(Reason::AttemptFailed(e)),
                None,
            ),
            _ => (status, Action::Ignore, None),
        },
        Status::Disconnected { attempts, awaiting_wait: true } => match event {
            Event::NextWait(Some(d)) => (
                Status::Disconnected { attempts: attempts.saturating_add(1), awaiting_wait: false },
                Action::Attempt(d),
                None,
            ),
            Event::NextWait(None) => (
                Status::FailedAndExhausted(Reason::RetriesExhausted),
                Action::GiveUp(Reason::RetriesExhausted),
                None,
            ),
            _ => (status, Action::Ignore, None),
        },
        Status::Disconnected { attempts, awaiting_wait: false } => match event {
            Event::AttemptSucceeded => (
                Status::Connected,
                Action::Established,
                Some(Hook::Connect),
            ),
            Event::AttemptFailed(_) => (
                Status::Disconnected { attempts, awaiting_wait: true },
                Action::DrawWait,
                Some(Hook::ConnectFail),
            ),
            _ => (status, Action::Ignore, None),
        },
        _ => (status, Action::Ignore, None),
    }
}

/// A stubborn connection's state together with its options.
pub struct Reconnector<H = Callback, G = RetriesGenerator, K = CancellationToken> {
    pub status: Status,
    pub options: ReconnectOptions<H, G, K>,
}

impl<H, G, K> Reconnector<H, G, K> {
    /// Starts establishing the first connection: the first attempt is made at once.
    pub fn new(options: ReconnectOptions<H, G, K>) -> (r: (Self, Action))
        ensures
            r.0.status == (Status::Connecting { attempts: 0, failed_with: None }),
            r.0.options == options,
            r.1 == Action::Attempt(Delay { secs: 0, nanos: 0 }),
    {
        (
            Reconnector {
                status: Status::Connecting { attempts: 0, failed_with: None },
                options,
            },
            Action::Attempt(Delay::zero()),
        )
    }

    /// Takes an event: moves to the next state, and returns the action for the driver and
    /// the callback that the driver is to invoke, if any.
    pub fn handle(&mut self, event: Event) -> (r: (Action, Option<Hook>))
        ensures
            ({
                let (status, action, hook) = step(
                    old(self).status,
                    old(self).options.exit_if_first_connect_fails,
                    event,
                );
                &&& final(self).status == status
                &&& r == (action, hook)
            }),
            final(self).options == old(self).options,
    {
        let (status, action, hook) = next_step(
            self.status,
            self.options.exit_if_first_connect_fails,
            event,
        );
        self.status = status;
        (action, hook)
    }

    /// What to do before an I/O operation.
    pub fn gate(&self) -> (g: Gate)
        ensures
            g == gate_of(self.status),
    {
        match self.status {
            Status::Connected => Gate::PollIo,
            Status::Disconnected { .. } => Gate::AwaitReconnect,
            Status::FailedAndExhausted(reason) => Gate::Fail(reason.error_kind()),
            Status::Connecting { .. } => Gate::Fail(ErrorKind::NotConnected),
        }
    }

    /// Takes the result of an I/O operation polled on the established connection: a lost
    /// connection starts reconnecting and calls for the disconnect callback, a finished
    /// shutdown ends the connection for good, anything else goes to the caller unchanged.
    pub fn after_io(&mut self, op: IoOp, poll: IoPoll) -> (r: (Verdict, Option<Hook>))
        requires
            old(self).status == Status::Connected,
        ensures
            ({
                let (status, verdict, hook) = io_step(op, poll);
                &&& final(self).status == status
                &&& r == (verdict, hook)
            }),
            final(self).options == old(self).options,
    {
        let shutdown = match op {
            IoOp::Shutdown => true,
            _ => false,
        };
        if shutdown {
            let ready = match poll {
                IoPoll::Pending => false,
                _ => true,
            };
            if ready {
                self.status = Status::FailedAndExhausted(Reason::ShutDown);
            }
            return (Verdict::Deliver, None);
        }
        let lost = match op {
            IoOp::Read => is_read_disconnect_detected(poll),
            _ => is_write_disconnect_detected(poll),
        };
        if lost {
            self.status = Status::Disconnected { attempts: 0, awaiting_wait: true };
            (Verdict::Reconnect, Some(Hook::Disconnect))
        } else {
            (Verdict::Deliver, None)
        }
    }
}

/// The event that reports an attempt's outcome: `None` for success, else the error.
pub open spec fn attempt_event(outcome: Option<ErrorKind>) -> Event {
    match outcome {
        None => Event::AttemptSucceeded,
        Some(e) => Event::AttemptFailed(e),
    }
}

/// The callbacks that a step calls for, as a sequence.
pub open spec fn hooks_of(hook: Option<Hook>) -> Seq<Hook> {
    match hook {
        Some(h) => seq![h],
        None => Seq::empty(),
    }
}

/// Runs the machine from `status` with pending `action` the way a driver does: each
/// attempt it asks for takes the next of `outcomes`, each wait it asks for the next of
/// `waits` (`None` once they have run out). Stops at any other action, or when an attempt
/// is asked for and no outcome is left. Gives the final state and action and the callbacks
/// called for on the way, in order.
pub open spec fn drive(
    status: Status,
    exit_if_first_connect_fails: bool,
    action: Action,
    outcomes: Seq<Option<ErrorKind>>,
    waits: Seq<Delay>,
) -> (Status, Action, Seq<Hook>)
    decreases outcomes.len() + waits.len(),
{
    match action {
        Action::Attempt(_) => {
            if outcomes.len() == 0 {
                (status, action, Seq::empty())
            } else {
                let (s, a, h) = step(status, exit_if_first_connect_fails, attempt_event(outcomes[0]));
                let (s2, a2, hs) = drive(
                    s,
                    exit_if_first_connect_fails,
                    a,
                    outcomes.drop_first(),
                    waits,
                );
                (s2, a2, hooks_of(h) + hs)
            }
        },
        Action::DrawWait => {
            if waits.len() == 0 {
                let (s, a, h) = step(status, exit_if_first_connect_fails, Event::NextWait(None));
                (s, a, hooks_of(h))
            } else {
                let (s, a, h) = step(
                    status,
                    exit_if_first_connect_fails,
                    Event::NextWait(Some(waits[0])),
                );
                let (s2, a2, hs) = drive(
                    s,
                    exit_if_first_connect_fails,
                    a,
                    outcomes,
                    waits.drop_first(),
                );
                (s2, a2, hooks_of(h) + hs)
            }
        },
        _ => (status, action, Seq::empty()),
    }
}

/// The number of failed outcomes before the first success (all of them if none succeeds).
pub open spec fn failures_before_success(outcomes: Seq<Option<ErrorKind>>) -> nat
    decreases outcomes.len(),
{
    if outcomes.len() == 0 || outcomes[0] is None {
        0
    } else {
        1 + failures_before_success(outcomes.drop_first())
    }
}

/// `n` invocations of the connect-fail callback.
pub open spec fn fails(n: nat) -> Seq<Hook> {
    Seq::new(n, |i: int| Hook::ConnectFail)
}

proof fn lemma_fails_prepend(n: nat)
    ensures
        seq![Hook::ConnectFail] + fails(n) == fails(n + 1),
{
    assert(seq![Hook::ConnectFail] + fails(n) =~= fails(n + 1));
}

/// The first connection: the first attempt is made at once, and one more after each wait of
/// the retry schedule. The connection is established at the first attempt that succeeds; the
/// connect-fail callback is called for once for each failed attempt before it, and the connect
/// callback once. If no attempt succeeds, the machine gives up with the last attempt's error,
/// having called for the connect-fail callback once per attempt.
pub proof fn law_initial_connect_retries(
    attempts: u64,
    first_wait: Delay,
    outcomes: Seq<Option<ErrorKind>>,
    waits: Seq<Delay>,
)
    requires
        outcomes.len() == waits.len() + 1,
    ensures
        ({
            let (s, a, hooks) = drive(
                Status::Connecting { attempts, failed_with: None },
                false,
                Action::Attempt(first_wait),
                outcomes,
                waits,
            );
            let k = failures_before_success(outcomes);
            &&& k < outcomes.len() ==> {
                &&& s == Status::Connected
                &&& a == Action::Established
                &&& hooks == fails(k).push(Hook::Connect)
            }
            &&& k == outcomes.len() ==> {
                &&& s == Status::FailedAndExhausted(Reason::AttemptFailed(outcomes.last()->Some_0))
                &&& a == Action::GiveUp(Reason::AttemptFailed(outcomes.last()->Some_0))
                &&& hooks == fails(k)
            }
            &&& k <= outcomes.len()
        }),
    decreases waits.len(),
{
    let st = Status::Connecting { attempts, failed_with: None };
    let rest = outcomes.drop_first();
    match outcomes[0] {
        None => {
            assert(drive(Status::Connected, false, Action::Established, rest, waits) == (
                Status::Connected,
                Action::Established,
                Seq::<Hook>::empty(),
            ));
            assert(hooks_of(Some(Hook::Connect)) + Seq::<Hook>::empty() =~= fails(0).push(
                Hook::Connect,
            ));
        },
        Some(e) => {
            let st1 = Status::Connecting { attempts, failed_with: Some(e) };
            assert(step(st, false, attempt_event(outcomes[0])) == (
                st1,
                Action::DrawWait,
                Some(Hook::ConnectFail),
            ));
            if waits.len() == 0 {
                assert(rest.len() == 0);
                assert(drive(st1, false, Action::DrawWait, rest, waits) == (
                    Status::FailedAndExhausted(Reason::AttemptFailed(e)),
                    Action::GiveUp(Reason::AttemptFailed(e)),
                    Seq::<Hook>::empty(),
                ));
                assert(hooks_of(Some(Hook::ConnectFail)) + Seq::<Hook>::empty() =~= fails(1));
                assert(failures_before_success(rest) == 0);
            } else {
                let st2 = Status::Connecting { attempts: bump(attempts), failed_with: None };
                law_initial_connect_retries(bump(attempts), waits[0], rest, waits.drop_first());
                let (s2, a2, hs) = drive(
                    st2,
                    false,
                    Action::Attempt(waits[0]),
                    rest,
                    waits.drop_first(),
                );
                assert(step(st1, false, Event::NextWait(Some(waits[0]))) == (
                    st2,
                    Action::Attempt(waits[0]),
                    Option::<Hook>::None,
                ));
                assert(drive(st1, false, Action::DrawWait, rest, waits) == (
                    s2,
                    a2,
                    hooks_of(None) + hs,
                ));
                assert(hooks_of(None) + hs =~= hs);
                assert(drive(st, false, Action::Attempt(first_wait), outcomes, waits) == (
                    s2,
                    a2,
                    seq![Hook::ConnectFail] + hs,
                ));
                let k1 = failures_before_success(rest);
                assert(failures_before_success(outcomes) == k1 + 1);
                lemma_fails_prepend(k1);
                if k1 < rest.len() {
                    assert(seq![Hook::ConnectFail] + fails(k1).push(Hook::Connect) =~= fails(
                        k1 + 1,
                    ).push(Hook::Connect));
                } else {
                    assert(outcomes.last() == rest.last());
                }
            }
        },
    }
}

/// With `exit_if_first_connect_fails` set, only one attempt is made: it either establishes
/// the connection (calling for the connect callback) or ends everything with its error
/// (calling for the connect-fail callback).
pub proof fn law_exit_if_first_connect_fails(
    attempts: u64,
    first_wait: Delay,
    outcomes: Seq<Option<ErrorKind>>,
    waits: Seq<Delay>,
)
    requires
        outcomes.len() >= 1,
    ensures
        drive(
            Status::Connecting { attempts, failed_with: None },
            true,
            Action::Attempt(first_wait),
            outcomes,
            waits,
        ) == (match outcomes[0] {
            None => (Status::Connected, Action::Established, seq![Hook::Connect]),
            Some(e) => (
                Status::FailedAndExhausted(Reason::AttemptFailed(e)),
                Action::GiveUp(Reason::AttemptFailed(e)),
                seq![Hook::ConnectFail],
            ),
        }),
{
    let rest = outcomes.drop_first();
    match outcomes[0] {
        None => {
            assert(drive(Status::Connected, true, Action::Established, rest, waits) == (
                Status::Connected,
                Action::Established,
                Seq::<Hook>::empty(),
            ));
            assert(hooks_of(Some(Hook::Connect)) + Seq::<Hook>::empty() =~= seq![Hook::Connect]);
        },
        Some(e) => {
            let r = Reason::AttemptFailed(e);
            assert(drive(Status::FailedAndExhausted(r), true, Action::GiveUp(r), rest, waits) == (
                Status::FailedAndExhausted(r),
                Action::GiveUp(r),
                Seq::<Hook>::empty(),
            ));
            assert(hooks_of(Some(Hook::ConnectFail)) + Seq::<Hook>::empty() =~= seq![
                Hook::ConnectFail,
            ]);
        },
    }
}

/// Re-establishing a lost connection: one attempt is made after each wait of the fresh retry
/// schedule. The connection is back at the first attempt that succeeds; the connect-fail
/// callback is called for once for each failed attempt before it, and the connect callback once.
/// If every attempt fails, the connection is given up for good as not connected.
pub proof fn law_reconnect_retries(
    attempts: u64,
    exit_if_first_connect_fails: bool,
    outcomes: Seq<Option<ErrorKind>>,
    waits: Seq<Delay>,
)
    requires
        outcomes.len() == waits.len(),
    ensures
        ({
            let (s, a, hooks) = drive(
                Status::Disconnected { attempts, awaiting_wait: true },
                exit_if_first_connect_fails,
                Action::DrawWait,
                outcomes,
                waits,
            );
            let k = failures_before_success(outcomes);
            &&& k < outcomes.len() ==> {
                &&& s == Status::Connected
                &&& a == Action::Established
                &&& hooks == fails(k).push(Hook::Connect)
            }
            &&& k == outcomes.len() ==> {
                &&& s == Status::FailedAndExhausted(Reason::RetriesExhausted)
                &&& a == Action::GiveUp(Reason::RetriesExhausted)
                &&& hooks == fails(k)
            }
            &&& k <= outcomes.len()
        }),
    decreases waits.len(),
{
    let x = exit_if_first_connect_fails;
    let st = Status::Disconnected { attempts, awaiting_wait: true };
    if waits.len() == 0 {
        assert(step(st, x, Event::NextWait(None)) == (
            Status::FailedAndExhausted(Reason::RetriesExhausted),
            Action::GiveUp(Reason::RetriesExhausted),
            Option::<Hook>::None,
        ));
        assert(hooks_of(None) =~= fails(0));
    } else {
        let st1 = Status::Disconnected { attempts: bump(attempts), awaiting_wait: false };
        let rest = outcomes.drop_first();
        let wrest = waits.drop_first();
        assert(step(st, x, Event::NextWait(Some(waits[0]))) == (
            st1,
            Action::Attempt(waits[0]),
            Option::<Hook>::None,
        ));
        match outcomes[0] {
            None => {
                assert(drive(Status::Connected, x, Action::Established, rest, wrest) == (
                    Status::Connected,
                    Action::Established,
                    Seq::<Hook>::empty(),
                ));
                assert(drive(st1, x, Action::Attempt(waits[0]), outcomes, wrest) == (
                    Status::Connected,
                    Action::Established,
                    hooks_of(Some(Hook::Connect)) + Seq::<Hook>::empty(),
                ));
                assert(hooks_of(None) + (hooks_of(Some(Hook::Connect)) + Seq::<Hook>::empty())
                    =~= fails(0).push(Hook::Connect));
            },
            Some(e) => {
                let st2 = Status::Disconnected { attempts: bump(attempts), awaiting_wait: true };
                assert(step(st1, x, attempt_event(outcomes[0])) == (
                    st2,
                    Action::DrawWait,
                    Some(Hook::ConnectFail),
                ));
                law_reconnect_retries(bump(attempts), x, rest, wrest);
                let (s2, a2, hs) = drive(st2, x, Action::DrawWait, rest, wrest);
                assert(drive(st1, x, Action::Attempt(waits[0]), outcomes, wrest) == (
                    s2,
                    a2,
                    hooks_of(Some(Hook::ConnectFail)) + hs,
                ));
                assert(drive(st, x, Action::DrawWait, outcomes, waits) == (
                    s2,
                    a2,
                    hooks_of(None) + (hooks_of(Some(Hook::ConnectFail)) + hs),
                ));
                assert(hooks_of(None) + (hooks_of(Some(Hook::ConnectFail)) + hs) =~= seq![
                    Hook::ConnectFail,
                ] + hs);
                let k1 = failures_before_success(rest);
                assert(failures_before_success(outcomes) == k1 + 1);
                lemma_fails_prepend(k1);
                if k1 < rest.len() {
                    assert(seq![Hook::ConnectFail] + fails(k1).push(Hook::Connect) =~= fails(
                        k1 + 1,
                    ).push(Hook::Connect));
                }
            },
        }
    }
}

/// Once given up, the connection stays given up: every event is ignored without calling for
/// a callback, and every I/O operation fails with the error of the reason it was given up
/// for (not connected once the retries ran out).
pub proof fn law_exhausted_is_final(reason: Reason, exit_if_first_connect_fails: bool, event: Event)
    ensures
        step(Status::FailedAndExhausted(reason), exit_if_first_connect_fails, event) == (
            Status::FailedAndExhausted(reason),
            Action::Ignore,
            Option::<Hook>::None,
        ),
        gate_of(Status::FailedAndExhausted(reason)) == Gate::Fail(reason_error(reason)),
        gate_of(Status::FailedAndExhausted(Reason::RetriesExhausted)) == Gate::Fail(
            ErrorKind::NotConnected,
        ),
{
}

/// A finished shutdown ends the connection: any later operation, a second shutdown
/// included, fails as not connected.
pub proof fn law_shutdown_is_final(poll: IoPoll)
    requires
        !(poll is Pending),
    ensures
        gate_of(io_step(IoOp::Shutdown, poll).0) == Gate::Fail(ErrorKind::NotConnected),
{
}

/// Errors that do not mean a disconnect (such as `WouldBlock`) leave the connection up,
/// and go to the caller as they are.
pub proof fn law_non_fatal_errors_keep_connection(op: IoOp, kind: ErrorKind)
    requires
        op != IoOp::Shutdown,
        !read_disconnect_kind(kind),
    ensures
        io_step(op, IoPoll::Failed(kind)) == (
            Status::Connected,
            Verdict::Deliver,
            Option::<Hook>::None,
        ),
{
}

/// A lost connection calls for the disconnect callback once, and then comes back exactly
/// when one of the attempts of the fresh retry schedule succeeds, as in
/// `law_reconnect_retries`.
pub proof fn law_disconnect_then_reconnect(
    op: IoOp,
    poll: IoPoll,
    exit_if_first_connect_fails: bool,
    outcomes: Seq<Option<ErrorKind>>,
    waits: Seq<Delay>,
)
    requires
        op != IoOp::Shutdown,
        disconnect_detected(op, poll),
        outcomes.len() == waits.len(),
    ensures
        ({
            let (s0, v, h0) = io_step(op, poll);
            let (s, a, hooks) = drive(
                s0,
                exit_if_first_connect_fails,
                Action::DrawWait,
                outcomes,
                waits,
            );
            let k = failures_before_success(outcomes);
            &&& v == Verdict::Reconnect
            &&& h0 == Some(Hook::Disconnect)
            &&& (k < outcomes.len() ==> s == Status::Connected && hooks == fails(k).push(
                Hook::Connect,
            ))
            &&& (k == outcomes.len() ==> s == Status::FailedAndExhausted(Reason::RetriesExhausted)
                && hooks == fails(k))
        }),
{
    law_reconnect_retries(0, exit_if_first_connect_fails, outcomes, waits);
}

/// Cancelling while connecting or reconnecting gives up at once, without calling for a
/// callback; later operations fail as interrupted.
pub proof fn law_cancel_gives_up(status: Status, exit_if_first_connect_fails: bool)
    requires
        status is Connecting || status is Disconnected,
    ensures
        step(status, exit_if_first_connect_fails, Event::Cancelled) == (
            Status::FailedAndExhausted(Reason::Cancelled),
            Action::GiveUp(Reason::Cancelled),
            Option::<Hook>::None,
        ),
        gate_of(step(status, exit_if_first_connect_fails, Event::Cancelled).0) == Gate::Fail(
            ErrorKind::Interrupted,
        ),
{
}

/// Each connection attempt waits exactly the wait drawn from the retry schedule, whether
/// establishing the first connection or re-establishing a lost one, counts one more attempt,
/// and calls for no callback.
pub proof fn law_attempt_waits_drawn_delay(
    attempts: u64,
    error: ErrorKind,
    awaiting: bool,
    exit_if_first_connect_fails: bool,
    wait: Delay,
)
    ensures
        ({
            let (s, a, h) = step(
                Status::Connecting { attempts, failed_with: Some(error) },
                exit_if_first_connect_fails,
                Event::NextWait(Some(wait)),
            );
            &&& a == Action::Attempt(wait)
            &&& h is None
            &&& s matches Status::Connecting { attempts: n, failed_with: None }
            &&& (attempts < u64::MAX ==> n == attempts + 1)
        }),
        ({
            let (s, a, h) = step(
                Status::Disconnected { attempts, awaiting_wait: true },
                exit_if_first_connect_fails,
                Event::NextWait(Some(wait)),
            );
            &&& a == Action::Attempt(wait)
            &&& h is None
            &&& s matches Status::Disconnected { attempts: n, awaiting_wait: false }
            &&& (attempts < u64::MAX ==> n == attempts + 1)
        }),
{
}

/// A read, write or flush that transferred data never counts as a disconnect: the
/// connection stays up, the result goes to the caller, and no callback is called for. A write
/// or flush is only taken for a disconnect when it fails.
pub proof fn law_successful_transfer_keeps_connection(op: IoOp, n: usize)
    requires
        op != IoOp::Shutdown,
        n > 0,
    ensures
        io_step(op, IoPoll::Done(n)) == (
            Status::Connected,
            Verdict::Deliver,
            Option::<Hook>::None,
        ),
        io_step(op, IoPoll::Pending) == (
            Status::Connected,
            Verdict::Deliver,
            Option::<Hook>::None,
        ),
        !disconnect_detected(op, IoPoll::Done(n)),
        !disconnect_detected(IoOp::Write, IoPoll::Done(0)),
        !disconnect_detected(IoOp::Flush, IoPoll::Done(0)),
        disconnect_detected(IoOp::Read, IoPoll::Done(0)),
{
}

/// Which error kinds count as a lost connection: a refused, reset, aborted or missing
/// connection or a broken pipe always does, on a read, a write or a flush; a would-block,
/// an interruption, a time-out or invalid data never does; an unexpected end of file does
/// on a read only.
pub proof fn law_disconnect_error_kinds(op: IoOp)
    requires
        op != IoOp::Shutdown,
    ensures
        disconnect_detected(op, IoPoll::Failed(ErrorKind::ConnectionRefused)),
        disconnect_detected(op, IoPoll::Failed(ErrorKind::ConnectionReset)),
        disconnect_detected(op, IoPoll::Failed(ErrorKind::ConnectionAborted)),
        disconnect_detected(op, IoPoll::Failed(ErrorKind::NotConnected)),
        disconnect_detected(op, IoPoll::Failed(ErrorKind::BrokenPipe)),
        !disconnect_detected(op, IoPoll::Failed(ErrorKind::WouldBlock)),
        !disconnect_detected(op, IoPoll::Failed(ErrorKind::Interrupted)),
        !disconnect_detected(op, IoPoll::Failed(ErrorKind::TimedOut)),
        !disconnect_detected(op, IoPoll::Failed(ErrorKind::InvalidData)),
        disconnect_detected(op, IoPoll::Failed(ErrorKind::UnexpectedEof)) <==> op == IoOp::Read,
{
}

/// While a lost connection is being re-established, whether a wait is being drawn or an
/// attempt is in flight, every I/O operation waits on the reconnect; an established
/// connection is polled; one still being established for the first time fails as not
/// connected.
pub proof fn law_reconnecting_awaits(attempts: u64, awaiting_wait: bool, failed_with: Option<
    ErrorKind,
>)
    ensures
        gate_of(Status::Disconnected { attempts, awaiting_wait }) == Gate::AwaitReconnect,
        gate_of(Status::Connected) == Gate::PollIo,
        gate_of(Status::Connecting { attempts, failed_with }) == Gate::Fail(
            ErrorKind::NotConnected,
        ),
{
}

/// The only callback an I/O result calls for is the disconnect callback, exactly when the
/// result means the connection is lost; the caller's own shutdown calls for none, and ends
/// the connection once it has finished.
pub proof fn law_io_callbacks(op: IoOp, poll: IoPoll)
    ensures
        (io_step(op, poll).2 == Some(Hook::Disconnect)) <==> (op != IoOp::Shutdown
            && disconnect_detected(op, poll)),
        io_step(op, poll).2 is None || io_step(op, poll).2 == Some(Hook::Disconnect),
        (io_step(op, poll).1 == Verdict::Reconnect) <==> (io_step(op, poll).2 == Some(
            Hook::Disconnect,
        )),
        (op != IoOp::Shutdown && disconnect_detected(op, poll)) ==> io_step(op, poll).0 == (
        Status::Disconnected { attempts: 0, awaiting_wait: true }),
        (op != IoOp::Shutdown && !disconnect_detected(op, poll)) ==> io_step(op, poll).0
            == Status::Connected && io_step(op, poll).1 == Verdict::Deliver,
        io_step(IoOp::Shutdown, poll).2 is None,
        io_step(IoOp::Shutdown, poll).1 == Verdict::Deliver,
        io_step(IoOp::Shutdown, IoPoll::Pending).0 == Status::Connected,
        !(poll is Pending) ==> io_step(IoOp::Shutdown, poll).0 == Status::FailedAndExhausted(
            Reason::ShutDown,
        ),
{
}

/// An established connection ignores connection events: attempts and waits are only taken
/// while connecting or reconnecting, and cancelling no longer applies.
pub proof fn law_connected_ignores_events(exit_if_first_connect_fails: bool, event: Event)
    ensures
        step(Status::Connected, exit_if_first_connect_fails, event) == (
            Status::Connected,
            Action::Ignore,
            Option::<Hook>::None,
        ),
{
}

/// Every error kind on a read, a write or a flush: the kinds that mean the connection is
/// gone, and the kinds that do not.
pub proof fn law_every_error_kind(op: IoOp)
    requires
        op != IoOp::Shutdown,
    ensures
        disconnect_detected(op, IoPoll::Failed(ErrorKind::NotFound)),
        disconnect_detected(op, IoPoll::Failed(ErrorKind::PermissionDenied)),
        disconnect_detected(op, IoPoll::Failed(ErrorKind::ConnectionRefused)),
        disconnect_detected(op, IoPoll::Failed(ErrorKind::ConnectionReset)),
        disconnect_detected(op, IoPoll::Failed(ErrorKind::ConnectionAborted)),
        disconnect_detected(op, IoPoll::Failed(ErrorKind::NotConnected)),
        disconnect_detected(op, IoPoll::Failed(ErrorKind::AddrInUse)),
        disconnect_detected(op, IoPoll::Failed(ErrorKind::AddrNotAvailable)),
        disconnect_detected(op, IoPoll::Failed(ErrorKind::BrokenPipe)),
        disconnect_detected(op, IoPoll::Failed(ErrorKind::AlreadyExists)),
        !disconnect_detected(op, IoPoll::Failed(ErrorKind::WouldBlock)),
        !disconnect_detected(op, IoPoll::Failed(ErrorKind::InvalidInput)),
        !disconnect_detected(op, IoPoll::Failed(ErrorKind::InvalidData)),
        !disconnect_detected(op, IoPoll::Failed(ErrorKind::TimedOut)),
        !disconnect_detected(op, IoPoll::Failed(ErrorKind::WriteZero)),
        !disconnect_detected(op, IoPoll::Failed(ErrorKind::Interrupted)),
        !disconnect_detected(op, IoPoll::Failed(ErrorKind::Unsupported)),
        !disconnect_detected(op, IoPoll::Failed(ErrorKind::OutOfMemory)),
        !disconnect_detected(op, IoPoll::Failed(ErrorKind::Other)),
        disconnect_detected(op, IoPoll::Failed(ErrorKind::UnexpectedEof)) <==> op == IoOp::Read,
{
}

/// A failed attempt keeps the count of attempts, remembers (while connecting) the error to
/// report if the schedule runs out, asks for the next wait and calls for the connect-fail
/// callback; unless, for the first connection, a failed first attempt ends everything.
pub proof fn law_failed_attempt_draws_next_wait(attempts: u64, error: ErrorKind, exit_if_first_connect_fails: bool)
    ensures
        step(Status::Connecting { attempts, failed_with: None }, false, Event::AttemptFailed(error))
            == (
            Status::Connecting { attempts, failed_with: Some(error) },
            Action::DrawWait,
            Some(Hook::ConnectFail),
        ),
        step(Status::Connecting { attempts, failed_with: None }, true, Event::AttemptFailed(error))
            == (
            Status::FailedAndExhausted(Reason::AttemptFailed(error)),
            Action::GiveUp(Reason::AttemptFailed(error)),
            Some(Hook::ConnectFail),
        ),
        step(
            Status::Disconnected { attempts, awaiting_wait: false },
            exit_if_first_connect_fails,
            Event::AttemptFailed(error),
        ) == (
            Status::Disconnected { attempts, awaiting_wait: true },
            Action::DrawWait,
            Some(Hook::ConnectFail),
        ),
{
}

/// A successful attempt, first or reconnecting, establishes the connection and calls for the
/// connect callback.
pub proof fn law_successful_attempt_connects(attempts: u64, exit_if_first_connect_fails: bool)
    ensures
        step(
            Status::Connecting { attempts, failed_with: None },
            exit_if_first_connect_fails,
            Event::AttemptSucceeded,
        ) == (Status::Connected, Action::Established, Some(Hook::Connect)),
        step(
            Status::Disconnected { attempts, awaiting_wait: false },
            exit_if_first_connect_fails,
            Event::AttemptSucceeded,
        ) == (Status::Connected, Action::Established, Some(Hook::Connect)),
{
}

/// Events that were not asked for are ignored: no attempt outcome while a wait is awaited,
/// and no wait while an attempt is in flight.
pub proof fn law_unrequested_events_ignored(
    attempts: u64,
    error: ErrorKind,
    exit_if_first_connect_fails: bool,
    wait: Option<Delay>,
)
    ensures
        ({
            let st = Status::Connecting { attempts, failed_with: None };
            step(st, exit_if_first_connect_fails, Event::NextWait(wait)) == (
                st,
                Action::Ignore,
                Option::<Hook>::None,
            )
        }),
        ({
            let st = Status::Connecting { attempts, failed_with: Some(error) };
            &&& step(st, exit_if_first_connect_fails, Event::AttemptSucceeded) == (
                st,
                Action::Ignore,
                Option::<Hook>::None,
            )
            &&& step(st, exit_if_first_connect_fails, Event::AttemptFailed(error)) == (
                st,
                Action::Ignore,
                Option::<Hook>::None,
            )
        }),
        ({
            let st = Status::Disconnected { attempts, awaiting_wait: false };
            step(st, exit_if_first_connect_fails, Event::NextWait(wait)) == (
                st,
                Action::Ignore,
                Option::<Hook>::None,
            )
        }),
        ({
            let st = Status::Disconnected { attempts, awaiting_wait: true };
            &&& step(st, exit_if_first_connect_fails, Event::AttemptSucceeded) == (
                st,
                Action::Ignore,
                Option::<Hook>::None,
            )
            &&& step(st, exit_if_first_connect_fails, Event::AttemptFailed(error)) == (
                st,
                Action::Ignore,
                Option::<Hook>::None,
            )
        }),
{
}

/// The error that operations report after giving up: the failed attempt's own error, not
/// connected once the retries ran out or after a shutdown, interrupted after a cancellation.
pub proof fn law_give_up_errors(error: ErrorKind)
    ensures
        gate_of(Status::FailedAndExhausted(Reason::AttemptFailed(error))) == Gate::Fail(error),
        gate_of(Status::FailedAndExhausted(Reason::RetriesExhausted)) == Gate::Fail(
            ErrorKind::NotConnected,
        ),
        gate_of(Status::FailedAndExhausted(Reason::ShutDown)) == Gate::Fail(
            ErrorKind::NotConnected,
        ),
        gate_of(Status::FailedAndExhausted(Reason::Cancelled)) == Gate::Fail(
            ErrorKind::Interrupted,
        ),
{
}

} // verus!
