//! The executor's result types: what one spawned process left behind, and
//! how the report of the operating system maps to a uniform outcome.

use vstd::prelude::*;
use crate::invocation::Invocation;
use crate::text::words;

verus! {

/// How a process ended.
#[derive(Clone, Copy, Debug, PartialEq, Eq, Structural)]
pub enum ExitStatus {
    /// It exited by itself, with this code.
    Code(i32),
    /// A signal ended it before it could exit.
    Signaled,
}

/// What an [`ExecutionOutcome`] stands for.
pub struct OutcomeView {
    pub stdout: Seq<u8>,
    pub stderr: Seq<u8>,
    pub status: ExitStatus,
}

/// The captured output of one spawned process and the way it ended.
#[derive(Debug)]
pub struct ExecutionOutcome {
    stdout: Vec<u8>,
    stderr: Vec<u8>,
    status: ExitStatus,
}

impl View for ExecutionOutcome {
    type V = OutcomeView;

    closed spec fn view(&self) -> OutcomeView {
        OutcomeView { stdout: self.stdout@, stderr: self.stderr@, status: self.status }
    }
}

impl Clone for ExecutionOutcome {
    fn clone(&self) -> (out: Self)
        ensures
            out@ == self@,
    {
        ExecutionOutcome {
            stdout: self.stdout.clone(),
            stderr: self.stderr.clone(),
            status: self.status,
        }
    }
}

impl ExecutionOutcome {
    /// The outcome of a process that wrote `stdout` and `stderr` and ended
    /// with `status`.
    pub fn new(stdout: Vec<u8>, stderr: Vec<u8>, status: ExitStatus) -> (out: ExecutionOutcome)
        ensures
            out@ == (OutcomeView { stdout: stdout@, stderr: stderr@, status }),
    {
        ExecutionOutcome { stdout, stderr, status }
    }

    /// The bytes that the process wrote to its standard output.
    pub fn stdout(&self) -> (out: &Vec<u8>)
        ensures
            out@ == self@.stdout,
    {
        &self.stdout
    }

    /// The bytes that the process wrote to its standard error.
    pub fn stderr(&self) -> (out: &Vec<u8>)
        ensures
            out@ == self@.stderr,
    {
        &self.stderr
    }

    /// The way the process ended.
    pub fn status(&self) -> (out: ExitStatus)
        ensures
            out == self@.status,
    {
        self.status
    }
}

/// What the operating system reported of one attempt to run a command.
#[derive(Debug)]
pub enum ProcessReport {
    /// The program could not be found or started.
    SpawnFailed { reason: String },
    /// The process started, but waiting for its end failed.
    WaitFailed { reason: String },
    /// The process exited with `code`.
    Exited { code: i32, stdout: Vec<u8>, stderr: Vec<u8> },
    /// A signal ended the process.
    Signaled { stdout: Vec<u8>, stderr: Vec<u8> },
}

/// Why an execution did not end in success.
#[derive(Debug)]
pub enum ExecError {
    /// The program could not be found or started.
    Spawn { reason: String },
    /// The process could not be waited on to completion.
    Wait { reason: String },
    /// A signal ended the process before it exited.
    Interrupted,
    /// The process exited with a status other than zero.  This is reported,
    /// not fatal: the caller decides what it means.
    NonZeroExit { code: i32, outcome: ExecutionOutcome },
}

/// What an [`ExecError`] stands for.
pub enum ExecErrorView {
    Spawn { reason: Seq<char> },
    Wait { reason: Seq<char> },
    Interrupted,
    NonZeroExit { code: i32, outcome: OutcomeView },
}

impl View for ExecError {
    type V = ExecErrorView;

    open spec fn view(&self) -> ExecErrorView {
        match self {
            ExecError::Spawn { reason } => ExecErrorView::Spawn { reason: reason@ },
            ExecError::Wait { reason } => ExecErrorView::Wait { reason: reason@ },
            ExecError::Interrupted => ExecErrorView::Interrupted,
            ExecError::NonZeroExit { code, outcome } => ExecErrorView::NonZeroExit {
                code: *code,
                outcome: outcome@,
            },
        }
    }
}

/// What the executor owes for each report: success for a clean exit, and one
/// distinct error for each other way a run can end.
pub open spec fn concluded(report: ProcessReport) -> Result<OutcomeView, ExecErrorView> {
    match report {
        ProcessReport::SpawnFailed { reason } => Err(ExecErrorView::Spawn { reason: reason@ }),
        ProcessReport::WaitFailed { reason } => Err(ExecErrorView::Wait { reason: reason@ }),
        ProcessReport::Exited { code, stdout, stderr } => {
            let outcome = OutcomeView {
                stdout: stdout@,
                stderr: stderr@,
                status: ExitStatus::Code(code),
            };
            if code == 0 {
                Ok(outcome)
            } else {
                Err(ExecErrorView::NonZeroExit { code, outcome })
            }
        },
        ProcessReport::Signaled { stdout, stderr } => Err(ExecErrorView::Interrupted),
    }
}

/// The view of a result of the executor.
pub open spec fn result_view(r: Result<ExecutionOutcome, ExecError>) -> Result<
    OutcomeView,
    ExecErrorView,
> {
    match r {
        Ok(outcome) => Ok(outcome@),
        Err(e) => Err(e@),
    }
}

/// Maps the report of one run to the executor's result.  Nothing is run
/// again here, whatever the report says.
pub fn conclude(report: ProcessReport) -> (out: Result<ExecutionOutcome, ExecError>)
    ensures
        result_view(out) == concluded(report),
{
    match report {
        ProcessReport::SpawnFailed { reason } => Err(ExecError::Spawn { reason }),
        ProcessReport::WaitFailed { reason } => Err(ExecError::Wait { reason }),
        ProcessReport::Exited { code, stdout, stderr } => {
            let outcome = ExecutionOutcome::new(stdout, stderr, ExitStatus::Code(code));
            if code == 0 {
                Ok(outcome)
            } else {
                Err(ExecError::NonZeroExit { code, outcome })
            }
        },
        ProcessReport::Signaled { stdout, stderr } => Err(ExecError::Interrupted),
    }
}

/// Runs `inv` through `spawn` and maps what it reports to the executor's
/// result.  `spawn` is handed the full argument vector of `inv` and is
/// called once: whatever it reports, nothing is run a second time.
pub fn execute<F: FnOnce(Vec<String>) -> ProcessReport>(inv: &Invocation, spawn: F) -> (out: Result<
    ExecutionOutcome,
    ExecError,
>)
    requires
        forall|argv: Vec<String>| words(argv@) == inv@.argv() ==> spawn.requires((argv,)),
    ensures
        exists|argv: Vec<String>, report: ProcessReport|
            words(argv@) == inv@.argv() && spawn.ensures((argv,), report) && result_view(out)
                == concluded(report),
{
    let argv = inv.argv();
    let report = spawn(argv);
    let out = conclude(report);
    proof {
        assert(words(argv@) == inv@.argv() && spawn.ensures((argv,), report) && result_view(out)
            == concluded(report));
    }
    out
}

} // verus!
