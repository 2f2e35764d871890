//! Exit statuses of the launcher: one fixed status per failure cause, or the
//! target's own status handed through unchanged.

use vstd::prelude::*;

verus! {

/// Every cause for which the launcher ends without handing the target's status through.
#[derive(Clone, Copy, Debug, PartialEq, Eq, Structural)]
pub enum Failure {
    /// The configuration file does not exist.
    ConfigMissing,
    /// The configuration file exists but could not be read.
    ConfigUnreadable,
    /// The configuration holds more than one line.
    ConfigMultipleLines,
    /// The configuration holds nothing but whitespace.
    ConfigEmpty,
    /// The log file could not be created.
    LogCreate,
    /// The invocation line could not be written to the log.
    LogHeader,
    /// The target could not be started.
    Spawn,
    /// A chunk of the target's output could not be written to the log or to standard output.
    Relay,
    /// Waiting for the target failed.
    Wait,
    /// The target ended without a numeric status.
    NoStatus,
}

/// How a run ends.
#[derive(Clone, Copy, Debug, PartialEq, Eq, Structural)]
pub enum Termination {
    /// The target ended with this status.
    Exited(i32),
    /// The launcher gave up for this cause.
    Failed(Failure),
}

/// What waiting for the target gave.
#[derive(Debug, PartialEq, Eq)]
pub enum WaitOutcome {
    /// The target ended and reported this status.
    Status(i32),
    /// The target ended without a numeric status.
    NoStatus,
    /// The wait itself failed, with this error text.
    Failed(String),
}

/// The status that stands for a failure cause.
pub open spec fn failure_code(f: Failure) -> i32 {
    match f {
        Failure::ConfigMissing => 69002i32,
        Failure::ConfigUnreadable => 69003i32,
        Failure::Spawn => 69004i32,
        Failure::Relay => 69005i32,
        Failure::Wait => 69006i32,
        Failure::NoStatus => 69007i32,
        Failure::ConfigMultipleLines => 69008i32,
        Failure::ConfigEmpty => 69009i32,
        Failure::LogCreate => 690010i32,
        Failure::LogHeader => 69011i32,
    }
}

/// The status with which the launcher's process ends.
pub open spec fn termination_code(t: Termination) -> i32 {
    match t {
        Termination::Exited(code) => code,
        Termination::Failed(f) => failure_code(f),
    }
}

/// How a run ends once the wait for the target has returned.
pub open spec fn wait_termination(w: WaitOutcome) -> Termination {
    match w {
        WaitOutcome::Status(code) => Termination::Exited(code),
        WaitOutcome::NoStatus => Termination::Failed(Failure::NoStatus),
        WaitOutcome::Failed(_) => Termination::Failed(Failure::Wait),
    }
}

/// The error text that came with a failed wait.
pub open spec fn wait_error(w: WaitOutcome) -> Option<Seq<char>> {
    match w {
        WaitOutcome::Failed(text) => Some(text@),
        _ => None,
    }
}

impl Failure {
    /// The fixed status of this failure cause.
    pub fn code(self) -> (r: i32)
        ensures
            r == failure_code(self),
            r != 0,
    {
        match self {
            Failure::ConfigMissing => 69002i32,
            Failure::ConfigUnreadable => 69003i32,
            Failure::Spawn => 69004i32,
            Failure::Relay => 69005i32,
            Failure::Wait => 69006i32,
            Failure::NoStatus => 69007i32,
            Failure::ConfigMultipleLines => 69008i32,
            Failure::ConfigEmpty => 69009i32,
            Failure::LogCreate => 690010i32,
            Failure::LogHeader => 69011i32,
        }
    }
}

impl Termination {
    /// The status with which the launcher's process ends: the target's own
    /// status where it has one, the failure's fixed status otherwise.
    pub fn code(self) -> (r: i32)
        ensures
            r == termination_code(self),
    {
        match self {
            Termination::Exited(code) => code,
            Termination::Failed(f) => f.code(),
        }
    }

    /// Decides how the run ends from what the wait for the target gave.
    pub fn after_wait(w: &WaitOutcome) -> (r: Termination)
        ensures
            r == wait_termination(*w),
    {
        match w {
            WaitOutcome::Status(code) => Termination::Exited(*code),
            WaitOutcome::NoStatus => Termination::Failed(Failure::NoStatus),
            WaitOutcome::Failed(_) => Termination::Failed(Failure::Wait),
        }
    }
}

/// Two different failure causes never share a status, and no failure has status zero.
pub proof fn lemma_failure_codes_distinct(a: Failure, b: Failure)
    ensures
        failure_code(a) == failure_code(b) <==> a == b,
        failure_code(a) != 0,
{
}

/// When the target ends with a numeric status, the launcher ends with exactly that status.
pub proof fn lemma_status_handed_through(code: i32)
    ensures
        termination_code(wait_termination(WaitOutcome::Status(code))) == code,
{
}

} // verus!
