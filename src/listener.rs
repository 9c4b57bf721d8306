//! The decisions of the listener's lifecycle: starting, the startup handshake,
//! and the poll/dispatch loop. The caller supplies the value of the shared
//! "listening" flag and what happened; each step answers with the flag's next
//! value and what to do.
use vstd::prelude::*;

verus! {

/// The errno value of a call that a signal interrupted (Linux).
pub const EINTR: i32 = 4;

/// Why a start request failed.
#[derive(Clone, Copy, Debug, PartialEq, Eq, Structural)]
pub enum StartError {
    /// The device manager refused to assign the seat.
    SeatRejected,
    /// The worker ended before it answered the handshake.
    WorkerLost,
}

/// The text of a start error, as reported to the caller.
pub open spec fn error_text(e: StartError) -> Seq<char> {
    match e {
        StartError::SeatRejected => "Failed to assign seat: (). Make sure you are in the 'input' group."@,
        StartError::WorkerLost => "Failed to start listening thread"@,
    }
}

impl StartError {
    /// The human-readable message of this error.
    pub fn message(&self) -> (r: String)
        ensures
            r@ == error_text(*self),
    {
        match self {
            StartError::SeatRejected => String::from_str(
                "Failed to assign seat: (). Make sure you are in the 'input' group.",
            ),
            StartError::WorkerLost => String::from_str("Failed to start listening thread"),
        }
    }
}

/// What one readiness check came to.
#[derive(Clone, Copy, Debug, PartialEq, Eq, Structural)]
pub enum PollOutcome {
    /// Events are waiting.
    Ready,
    /// The wait timed out with nothing to read.
    Idle,
    /// A signal interrupted the wait.
    Interrupted,
    /// The wait failed for any other reason.
    Failed,
}

/// What happened, as seen by the listener.
#[derive(Clone, Copy, Debug, PartialEq, Eq, Structural)]
pub enum Signal {
    /// A caller asked to start listening.
    Start,
    /// The worker's session acquired its seat.
    SeatAssigned,
    /// The worker's session could not acquire its seat.
    SeatRejected,
    /// The worker is at the head of its loop.
    LoopHead,
    /// A readiness check finished.
    Polled(PollOutcome),
    /// Dispatching pending events succeeded (`true`) or failed.
    Dispatched(bool),
}

/// What to do next.
#[derive(Clone, Copy, Debug, PartialEq, Eq, Structural)]
pub enum Action {
    /// Answer the caller with success; no worker is started.
    AlreadyListening,
    /// Start a worker and wait for its handshake.
    SpawnWorker,
    /// Send success through the handshake, then enter the loop.
    ReportStarted,
    /// Send this failure through the handshake, then end the worker.
    ReportFailure(StartError),
    /// Wait, with a bounded timeout, until events are ready.
    Poll,
    /// Dispatch the pending events.
    Dispatch,
    /// Normalize and emit every available event, then go to the loop head.
    EmitEvents,
    /// Go to the loop head.
    NextIteration,
    /// End the worker.
    Exit,
}

/// The listener's transition: from the flag's value and a signal, the flag's
/// next value and the action.
pub open spec fn transition(listening: bool, signal: Signal) -> (bool, Action) {
    match signal {
        Signal::Start => if listening {
            (true, Action::AlreadyListening)
        } else {
            (false, Action::SpawnWorker)
        },
        Signal::SeatAssigned => (true, Action::ReportStarted),
        Signal::SeatRejected => (listening, Action::ReportFailure(StartError::SeatRejected)),
        Signal::LoopHead => if listening {
            (true, Action::Poll)
        } else {
            (false, Action::Exit)
        },
        Signal::Polled(outcome) => match outcome {
            PollOutcome::Ready => (listening, Action::Dispatch),
            PollOutcome::Idle => (listening, Action::NextIteration),
            PollOutcome::Interrupted => (listening, Action::NextIteration),
            PollOutcome::Failed => (false, Action::Exit),
        },
        Signal::Dispatched(ok) => if ok {
            (listening, Action::EmitEvents)
        } else {
            (false, Action::Exit)
        },
    }
}

/// Takes one step of the listener.
pub fn step(listening: bool, signal: Signal) -> (r: (bool, Action))
    ensures
        r == transition(listening, signal),
{
    match signal {
        Signal::Start => if listening {
            (true, Action::AlreadyListening)
        } else {
            (false, Action::SpawnWorker)
        },
        Signal::SeatAssigned => (true, Action::ReportStarted),
        Signal::SeatRejected => (listening, Action::ReportFailure(StartError::SeatRejected)),
        Signal::LoopHead => if listening {
            (true, Action::Poll)
        } else {
            (false, Action::Exit)
        },
        Signal::Polled(outcome) => match outcome {
            PollOutcome::Ready => (listening, Action::Dispatch),
            PollOutcome::Idle => (listening, Action::NextIteration),
            PollOutcome::Interrupted => (listening, Action::NextIteration),
            PollOutcome::Failed => (false, Action::Exit),
        },
        Signal::Dispatched(ok) => if ok {
            (listening, Action::EmitEvents)
        } else {
            (false, Action::Exit)
        },
    }
}

/// The outcome of a readiness check that returned the number of ready handles,
/// or failed with an errno value.
pub open spec fn outcome_of(result: Result<i32, i32>) -> PollOutcome {
    match result {
        Ok(n) => if n > 0 {
            PollOutcome::Ready
        } else {
            PollOutcome::Idle
        },
        Err(code) => if code == EINTR {
            PollOutcome::Interrupted
        } else {
            PollOutcome::Failed
        },
    }
}

/// Relies on nix::errno::Errno::from_raw and Errno::EINTR: a raw errno value
/// maps to EINTR exactly when it is libc's EINTR.
#[verifier::external_body]
fn is_interruption(code: i32) -> (r: bool)
    ensures
        r == (code == EINTR),
{
    nix::errno::Errno::from_raw(code) == nix::errno::Errno::EINTR
}

/// Classifies the result of a readiness check.
pub fn poll_outcome(result: Result<i32, i32>) -> (r: PollOutcome)
    ensures
        r == outcome_of(result),
{
    match result {
        Ok(n) => if n > 0 {
            PollOutcome::Ready
        } else {
            PollOutcome::Idle
        },
        Err(code) => if is_interruption(code) {
            PollOutcome::Interrupted
        } else {
            PollOutcome::Failed
        },
    }
}

/// What the caller of start makes of the handshake: the value received, or
/// `WorkerLost` where the worker ended without sending one.
pub open spec fn handshake_result(received: Option<Result<(), StartError>>) -> Result<(), StartError> {
    match received {
        Some(reply) => reply,
        None => Err(StartError::WorkerLost),
    }
}

/// Turns what the handshake delivered into the result of the start request.
pub fn finish_start(received: Option<Result<(), StartError>>) -> (r: Result<(), StartError>)
    ensures
        r == handshake_result(received),
{
    match received {
        Some(reply) => reply,
        None => Err(StartError::WorkerLost),
    }
}

/// The value that the worker sends through the handshake for an action, if any.
pub open spec fn handshake_of(action: Action) -> Option<Result<(), StartError>> {
    match action {
        Action::ReportStarted => Some(Ok(())),
        Action::ReportFailure(e) => Some(Err(e)),
        _ => None,
    }
}

/// The value to send through the handshake for an action, if it sends one.
pub fn handshake_message(action: Action) -> (r: Option<Result<(), StartError>>)
    ensures
        r == handshake_of(action),
{
    match action {
        Action::ReportStarted => Some(Ok(())),
        Action::ReportFailure(e) => Some(Err(e)),
        _ => None,
    }
}

/// The answer the caller of start gets at once for an action, if any; `None`
/// where it waits for the handshake instead.
pub open spec fn immediate_reply_of(action: Action) -> Option<Result<(), StartError>> {
    match action {
        Action::AlreadyListening => Some(Ok(())),
        _ => None,
    }
}

/// The answer to give the caller of start at once, if the action gives one.
pub fn immediate_reply(action: Action) -> (r: Option<Result<(), StartError>>)
    ensures
        r == immediate_reply_of(action),
{
    match action {
        Action::AlreadyListening => Some(Ok(())),
        _ => None,
    }
}

/// Asking to start while a listener is active starts no worker and answers
/// success, and a second request finds the same state and gets the same answer.
pub proof fn lemma_start_is_idempotent(listening: bool)
    requires
        listening,
    ensures
        transition(listening, Signal::Start) == (true, Action::AlreadyListening),
        immediate_reply_of(transition(listening, Signal::Start).1) == Some(Ok::<(), StartError>(())),
        transition(transition(listening, Signal::Start).0, Signal::Start) == (
            true,
            Action::AlreadyListening,
        ),
        immediate_reply_of(transition(transition(listening, Signal::Start).0, Signal::Start).1)
            == Some(Ok::<(), StartError>(())),
{
}

/// A fatal readiness-check or dispatch error ends the worker with the flag
/// cleared, and a later start then spawns a worker whose new session, once its
/// seat is assigned, sets the flag and reports success.
pub proof fn lemma_restart_after_fatal_error(listening: bool, signal: Signal)
    requires
        signal == Signal::Polled(PollOutcome::Failed) || signal == Signal::Dispatched(false),
    ensures
        transition(listening, signal) == (false, Action::Exit),
        transition(transition(listening, signal).0, Signal::Start) == (false, Action::SpawnWorker),
        transition(false, Signal::SeatAssigned) == (true, Action::ReportStarted),
        handshake_result(handshake_of(Action::ReportStarted)) == Ok::<(), StartError>(()),
{
}

/// When the seat cannot be acquired, the start request ends in an error and
/// the flag stays false.
pub proof fn lemma_acquisition_failure(listening: bool)
    requires
        !listening,
    ensures
        transition(listening, Signal::Start) == (false, Action::SpawnWorker),
        transition(false, Signal::SeatRejected) == (
            false,
            Action::ReportFailure(StartError::SeatRejected),
        ),
        handshake_result(handshake_of(transition(false, Signal::SeatRejected).1)) == Err::<
            (),
            StartError,
        >(StartError::SeatRejected),
{
}

/// An interrupted readiness check never ends the loop: the flag is kept and
/// the loop goes on. Any other failed check ends it and clears the flag.
pub proof fn lemma_only_fatal_poll_errors_end_loop(listening: bool, code: i32)
    ensures
        code == EINTR ==> transition(listening, Signal::Polled(outcome_of(Err(code)))) == (
            listening,
            Action::NextIteration,
        ),
        code == EINTR && listening ==> transition(
            transition(listening, Signal::Polled(outcome_of(Err(code)))).0,
            Signal::LoopHead,
        ) == (true, Action::Poll),
        code != EINTR ==> transition(listening, Signal::Polled(outcome_of(Err(code)))) == (
            false,
            Action::Exit,
        ),
{
}

} // verus!
