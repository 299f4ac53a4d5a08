//! Decisions of the subprocess runner: deadlines, the polling loop,
//! signal forwarding, and exit classification.
//!
//! The runner executes an external program, forwards the termination
//! signals to the child, and enforces an optional deadline. Spawning,
//! signalling and sleeping are outside work; everything the runner
//! decides — what to do on each poll tick, when a deadline has
//! passed, what a finished child means — is a function on plain
//! values and is verified here.

use crate::api::spec_joined;
use crate::mounts::views_of;
use crate::numbers::{dec_str, dec_string_u64};
use vstd::prelude::*;

verus! {

/// How long a child is given to exit after a forwarded `TERM` before
/// it is killed, in milliseconds.
pub const SHUTDOWN_GRACE_MS: u64 = 500;

/// The nap between polls of the child's status, in milliseconds.
pub const POLL_NAP_MS: u64 = 42;

/// An error of the runner.
pub enum RunError {
    /// The child died by a signal, so it has no exit code.
    ChildKilled { command: String },
    /// The child exited with this non-zero code.
    NonZeroExit { command: String, code: i32 },
    /// The deadline passed before the child exited.
    Timeout { command: String, elapsed_ms: u64 },
    /// The child could not be spawned or waited for.
    Io { command: String, message: String },
    /// The signal handler could not be installed.
    Signals(SignalsError),
}

/// A failure to install the runner's signal handlers.
pub struct SignalsError {
    pub message: String,
}

/// The absolute deadline for a command started at `now_ms` with this
/// time budget; `None` when the sum does not fit.
pub open spec fn spec_deadline(now_ms: u64, after_ms: u64) -> Option<u64> {
    if now_ms + after_ms <= u64::MAX {
        Some((now_ms + after_ms) as u64)
    } else {
        None
    }
}

/// Compute the absolute deadline, as an instant, from the start
/// instant and the budget.
pub fn deadline_after(now_ms: u64, after_ms: u64) -> (r: Option<u64>)
    ensures
        r == spec_deadline(now_ms, after_ms),
{
    now_ms.checked_add(after_ms)
}

/// What the runner does on one tick of its polling loop.
pub enum PollDecision {
    /// Forward the pending termination signal: `TERM` the child, wait
    /// the grace period, then `KILL` it — and keep polling.
    ForwardSignal,
    /// The child has exited; `code` is its exit code, `None` when it
    /// died by a signal.
    Finish { code: Option<i32> },
    /// The deadline has passed: shut the child down the same way and
    /// report a timeout.
    GiveUp,
    /// Nothing to do yet: sleep one nap and poll again.
    Nap,
}

/// The tick decision: a pending termination signal is forwarded
/// first; then a finished child finishes the run; then a passed
/// deadline gives up; otherwise the runner naps. A deadline of zero
/// budget is already passed on the first tick, so nothing is waited
/// for.
pub open spec fn spec_poll(
    signal_pending: bool,
    exited: Option<Option<i32>>,
    deadline: Option<u64>,
    now_ms: u64,
) -> PollDecision {
    if signal_pending {
        PollDecision::ForwardSignal
    } else {
        match exited {
            Some(code) => PollDecision::Finish { code },
            None => match deadline {
                Some(d) => if now_ms >= d {
                    PollDecision::GiveUp
                } else {
                    PollDecision::Nap
                },
                None => PollDecision::Nap,
            },
        }
    }
}

/// Decide one tick of the polling loop.
pub fn poll_step(
    signal_pending: bool,
    exited: Option<Option<i32>>,
    deadline: Option<u64>,
    now_ms: u64,
) -> (r: PollDecision)
    ensures
        r == spec_poll(signal_pending, exited, deadline, now_ms),
{
    if signal_pending {
        PollDecision::ForwardSignal
    } else {
        match exited {
            Some(code) => PollDecision::Finish { code },
            None => match deadline {
                Some(d) => if now_ms >= d {
                    PollDecision::GiveUp
                } else {
                    PollDecision::Nap
                },
                None => PollDecision::Nap,
            },
        }
    }
}

/// What a finished child means: a zero exit code succeeds, a non-zero
/// one is an error carrying the command and the code, and a child
/// with no exit code died by a signal.
pub fn classify_exit(command: String, code: Option<i32>) -> (r: Result<(), RunError>)
    ensures
        match code {
            Some(c) => if c == 0 {
                r is Ok
            } else {
                r matches Err(RunError::NonZeroExit { command: c2, code: code2 }) && c2@ == command@
                    && code2 == c
            },
            None => r matches Err(RunError::ChildKilled { command: c2 }) && c2@ == command@,
        },
{
    match code {
        Some(c) => if c == 0 {
            Ok(())
        } else {
            Err(RunError::NonZeroExit { command, code: c })
        },
        None => Err(RunError::ChildKilled { command }),
    }
}

/// A signed exit code in decimal.
pub open spec fn spec_code_str(code: i32) -> Seq<char> {
    if code < 0 {
        "-"@ + dec_str((-(code as int)) as nat)
    } else {
        dec_str(code as nat)
    }
}

fn code_string(code: i32) -> (r: String)
    ensures
        r@ == spec_code_str(code),
{
    if code < 0 {
        let mut s = String::from_str("-");
        let magnitude: u64 = (-(code as i64)) as u64;
        proof {
            assert(magnitude == -(code as int));
        }
        s.append(dec_string_u64(magnitude).as_str());
        s
    } else {
        dec_string_u64(code as u64)
    }
}

/// The message shown for each runner error.
pub open spec fn spec_run_error_message(e: RunError) -> Seq<char> {
    match e {
        RunError::ChildKilled { command } => "Child process killed by a signal, command was: "@
            + command@,
        RunError::NonZeroExit { command, code } => "Non-zero exit status "@ + spec_code_str(code)
            + " for command "@ + command@,
        RunError::Timeout { command, elapsed_ms } => "Deadline exceeded after "@ + dec_str(
            elapsed_ms as nat,
        ) + "ms for command: "@ + command@,
        RunError::Io { command, message } => "IO error while running "@ + command@ + ": "@
            + message@,
        RunError::Signals(se) => "Failed to install signal handlers: "@ + se.message@,
    }
}

impl RunError {
    /// Render the error for logs and callers.
    pub fn message(&self) -> (r: String)
        ensures
            r@ == spec_run_error_message(*self),
    {
        match self {
            RunError::ChildKilled { command } => {
                let mut s = String::from_str("Child process killed by a signal, command was: ");
                s.append(command.as_str());
                s
            },
            RunError::NonZeroExit { command, code } => {
                let mut s = String::from_str("Non-zero exit status ");
                s.append(code_string(*code).as_str());
                s.append(" for command ");
                s.append(command.as_str());
                s
            },
            RunError::Timeout { command, elapsed_ms } => {
                let mut s = String::from_str("Deadline exceeded after ");
                s.append(dec_string_u64(*elapsed_ms).as_str());
                s.append("ms for command: ");
                s.append(command.as_str());
                s
            },
            RunError::Io { command, message } => {
                let mut s = String::from_str("IO error while running ");
                s.append(command.as_str());
                s.append(": ");
                s.append(message.as_str());
                s
            },
            RunError::Signals(se) => {
                let mut s = String::from_str("Failed to install signal handlers: ");
                s.append(se.message.as_str());
                s
            },
        }
    }
}

/// One rendered command line: the program and its arguments joined
/// with single spaces.
pub open spec fn spec_command_line(program: Seq<char>, args: Seq<Seq<char>>) -> Seq<char> {
    if args.len() == 0 {
        program
    } else {
        program + " "@ + spec_joined(args, " "@)
    }
}

/// Render a command line for error messages.
pub fn command_line(program: &str, args: &Vec<String>) -> (r: String)
    ensures
        r@ == spec_command_line(program@, views_of(args@)),
{
    let mut s = String::from_str(program);
    if args.len() == 0 {
        return s;
    }
    s.append(" ");
    let joined = crate::api::join_strings(args, " ");
    s.append(joined.as_str());
    s
}

} // verus!
