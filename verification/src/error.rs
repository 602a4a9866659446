//! The error taxonomy of the library, the text each error is reported with,
//! and the exit code that the whole program ends with.

use vstd::prelude::*;
use crate::exec::{ExecError, ExecErrorView, ExecutionOutcome, OutcomeView};
use crate::text::{decimal, push_decimal};

verus! {

/// Everything that can go wrong between reading a request and relaying the
/// result of the package manager.
#[derive(Debug)]
#[non_exhaustive]
pub enum Error {
    /// The operation was malformed.
    ArgParseError { msg: String },
    /// The configuration was invalid or contradicted itself.
    ConfigError { msg: String },
    /// The task that ran the subprocess could not be joined.
    CmdJoinError(String),
    /// The subprocess could not be spawned.
    CmdSpawnError(String),
    /// The running subprocess lacked one of its standard streams.
    CmdNoHandleError { handle: String },
    /// Waiting for the subprocess failed.
    CmdWaitError(String),
    /// The subprocess exited with a status other than zero.
    CmdStatusCodeError { code: i32, output: ExecutionOutcome },
    /// A signal interrupted the subprocess.
    CmdInterruptedError,
    /// The output of the subprocess was not valid UTF-8.
    FromUtf8Error(String),
    /// Reading from or writing to the subprocess failed.
    IoError(String),
    /// The active package manager has no such operation.
    OperationUnimplementedError { op: String, pm: String },
    /// Anything else.
    OtherError(String),
}

/// What an [`Error`] stands for.
pub enum ErrorView {
    ArgParseError { msg: Seq<char> },
    ConfigError { msg: Seq<char> },
    CmdJoinError(Seq<char>),
    CmdSpawnError(Seq<char>),
    CmdNoHandleError { handle: Seq<char> },
    CmdWaitError(Seq<char>),
    CmdStatusCodeError { code: i32, output: OutcomeView },
    CmdInterruptedError,
    FromUtf8Error(Seq<char>),
    IoError(Seq<char>),
    OperationUnimplementedError { op: Seq<char>, pm: Seq<char> },
    OtherError(Seq<char>),
}

impl View for Error {
    type V = ErrorView;

    open spec fn view(&self) -> ErrorView {
        match self {
            Error::ArgParseError { msg } => ErrorView::ArgParseError { msg: msg@ },
            Error::ConfigError { msg } => ErrorView::ConfigError { msg: msg@ },
            Error::CmdJoinError(msg) => ErrorView::CmdJoinError(msg@),
            Error::CmdSpawnError(msg) => ErrorView::CmdSpawnError(msg@),
            Error::CmdNoHandleError { handle } => ErrorView::CmdNoHandleError { handle: handle@ },
            Error::CmdWaitError(msg) => ErrorView::CmdWaitError(msg@),
            Error::CmdStatusCodeError { code, output } => ErrorView::CmdStatusCodeError {
                code: *code,
                output: output@,
            },
            Error::CmdInterruptedError => ErrorView::CmdInterruptedError,
            Error::FromUtf8Error(msg) => ErrorView::FromUtf8Error(msg@),
            Error::IoError(msg) => ErrorView::IoError(msg@),
            Error::OperationUnimplementedError { op, pm } => {
                ErrorView::OperationUnimplementedError { op: op@, pm: pm@ }
            },
            Error::OtherError(msg) => ErrorView::OtherError(msg@),
        }
    }
}

impl ErrorView {
    /// The error that the library reports for an error of the executor.
    pub open spec fn of_exec(e: ExecErrorView) -> ErrorView {
        match e {
            ExecErrorView::Spawn { reason } => ErrorView::CmdSpawnError(reason),
            ExecErrorView::Wait { reason } => ErrorView::CmdWaitError(reason),
            ExecErrorView::Interrupted => ErrorView::CmdInterruptedError,
            ExecErrorView::NonZeroExit { code, outcome } => ErrorView::CmdStatusCodeError {
                code,
                output: outcome,
            },
        }
    }

    /// The line that the error is reported with.
    pub open spec fn message(self) -> Seq<char> {
        match self {
            ErrorView::ArgParseError { msg } => "Failed to parse arguments: "@ + msg,
            ErrorView::ConfigError { msg } => "Failed to handle config: "@ + msg,
            ErrorView::CmdJoinError(msg) => "Failed to get exit code of subprocess: "@ + msg,
            ErrorView::CmdSpawnError(msg) => "Failed to spawn subprocess: "@ + msg,
            ErrorView::CmdNoHandleError { handle } => "Subprocess didn't have a handle to "@
                + handle,
            ErrorView::CmdWaitError(msg) => "Subprocess failed while running: "@ + msg,
            ErrorView::CmdStatusCodeError { code, output } => "Subprocess exited with code "@
                + decimal(code as int),
            ErrorView::CmdInterruptedError => "Subprocess interrupted by signal"@,
            ErrorView::FromUtf8Error(msg) => msg,
            ErrorView::IoError(msg) => msg,
            ErrorView::OperationUnimplementedError { op, pm } => "Operation `"@ + op
                + "` is unimplemented for `"@ + pm + "`"@,
            ErrorView::OtherError(msg) => msg,
        }
    }

    /// The exit code that the program ends with after this error: the
    /// subprocess's own code where an exit code can hold it, which is from 0
    /// to 255, and 1 in every other case.
    pub open spec fn exit_code(self) -> u8 {
        match self {
            ErrorView::CmdStatusCodeError { code, output } => if 0 <= code < 256 {
                code as u8
            } else {
                1u8
            },
            _ => 1u8,
        }
    }
}

impl Error {
    /// The error of the library for an error of the executor.
    pub fn from_exec(e: ExecError) -> (out: Error)
        ensures
            out@ == ErrorView::of_exec(e@),
    {
        match e {
            ExecError::Spawn { reason } => Error::CmdSpawnError(reason),
            ExecError::Wait { reason } => Error::CmdWaitError(reason),
            ExecError::Interrupted => Error::CmdInterruptedError,
            ExecError::NonZeroExit { code, outcome } => Error::CmdStatusCodeError {
                code,
                output: outcome,
            },
        }
    }

    /// The line that this error is reported with.
    pub fn message(&self) -> (out: String)
        ensures
            out@ == self@.message(),
    {
        let mut out = String::new();
        match self {
            Error::ArgParseError { msg } => {
                out.append("Failed to parse arguments: ");
                out.append(msg.as_str());
            },
            Error::ConfigError { msg } => {
                out.append("Failed to handle config: ");
                out.append(msg.as_str());
            },
            Error::CmdJoinError(msg) => {
                out.append("Failed to get exit code of subprocess: ");
                out.append(msg.as_str());
            },
            Error::CmdSpawnError(msg) => {
                out.append("Failed to spawn subprocess: ");
                out.append(msg.as_str());
            },
            Error::CmdNoHandleError { handle } => {
                out.append("Subprocess didn't have a handle to ");
                out.append(handle.as_str());
            },
            Error::CmdWaitError(msg) => {
                out.append("Subprocess failed while running: ");
                out.append(msg.as_str());
            },
            Error::CmdStatusCodeError { code, output } => {
                out.append("Subprocess exited with code ");
                push_decimal(&mut out, *code);
            },
            Error::CmdInterruptedError => {
                out.append("Subprocess interrupted by signal");
            },
            Error::FromUtf8Error(msg) => {
                out.append(msg.as_str());
            },
            Error::IoError(msg) => {
                out.append(msg.as_str());
            },
            Error::OperationUnimplementedError { op, pm } => {
                out.append("Operation `");
                out.append(op.as_str());
                out.append("` is unimplemented for `");
                out.append(pm.as_str());
                out.append("`");
            },
            Error::OtherError(msg) => {
                out.append(msg.as_str());
            },
        }
        out
    }

    /// The exit code that the program ends with after this error.
    pub fn exit_code(&self) -> (out: u8)
        ensures
            out == self@.exit_code(),
    {
        match self {
            Error::CmdStatusCodeError { code, output } => if 0 <= *code && *code < 256 {
                *code as u8
            } else {
                1
            },
            _ => 1,
        }
    }
}

/// An [`Error`] in the form in which the program's entry point returns it: it
/// is shown by its message alone and decides the exit code.
pub struct MainError(pub Error);

impl From<Error> for MainError {
    fn from(e: Error) -> (out: MainError) {
        MainError(e)
    }
}

impl vstd::std_specs::convert::FromSpecImpl<Error> for MainError {
    open spec fn obeys_from_spec() -> bool {
        true
    }

    open spec fn from_spec(e: Error) -> MainError {
        MainError(e)
    }
}

impl MainError {
    /// The exit code to end the process with.
    pub fn exit_code(&self) -> (out: u8)
        ensures
            out == self.0@.exit_code(),
    {
        self.0.exit_code()
    }
}

} // verus!
