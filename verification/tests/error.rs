use pacaptr::error::{Error, MainError};
use pacaptr::exec::{ExecError, ExecutionOutcome, ExitStatus};
use pacaptr::pm::{unimplemented, Op};

fn outcome(code: i32) -> ExecutionOutcome {
    ExecutionOutcome::new(Vec::new(), Vec::new(), ExitStatus::Code(code))
}

fn status(code: i32) -> Error {
    Error::CmdStatusCodeError { code, output: outcome(code) }
}

#[test]
fn every_error_has_its_message() {
    let cases: Vec<(Error, &str)> = vec![
        (Error::ArgParseError { msg: "no such flag".into() }, "Failed to parse arguments: no such flag"),
        (Error::ConfigError { msg: "bad toml".into() }, "Failed to handle config: bad toml"),
        (Error::CmdJoinError("panicked".into()), "Failed to get exit code of subprocess: panicked"),
        (Error::CmdSpawnError("not found".into()), "Failed to spawn subprocess: not found"),
        (Error::CmdNoHandleError { handle: "stdout".into() }, "Subprocess didn't have a handle to stdout"),
        (Error::CmdWaitError("lost".into()), "Subprocess failed while running: lost"),
        (status(7), "Subprocess exited with code 7"),
        (status(-15), "Subprocess exited with code -15"),
        (status(0), "Subprocess exited with code 0"),
        (status(120), "Subprocess exited with code 120"),
        (status(i32::MAX), "Subprocess exited with code 2147483647"),
        (status(i32::MIN), "Subprocess exited with code -2147483648"),
        (Error::CmdInterruptedError, "Subprocess interrupted by signal"),
        (Error::FromUtf8Error("invalid utf-8".into()), "invalid utf-8"),
        (Error::IoError("pipe closed".into()), "pipe closed"),
        (
            Error::OperationUnimplementedError { op: "qc".into(), pm: "conda".into() },
            "Operation `qc` is unimplemented for `conda`",
        ),
        (Error::OtherError("something else".into()), "something else"),
    ];
    for (error, text) in cases {
        assert_eq!(error.message(), text);
    }
}

#[test]
fn the_exit_code_is_the_code_of_the_subprocess() {
    assert_eq!(status(7).exit_code(), 7);
    assert_eq!(status(0).exit_code(), 0);
    assert_eq!(status(1).exit_code(), 1);
    assert_eq!(status(127).exit_code(), 127);
    assert_eq!(status(255).exit_code(), 255);
    for code in 0..=255 {
        assert_eq!(i32::from(status(code).exit_code()), code);
    }
}

#[test]
fn a_code_that_cannot_be_passed_on_gives_the_fallback() {
    assert_eq!(status(256).exit_code(), 1);
    assert_eq!(status(257).exit_code(), 1);
    assert_eq!(status(512).exit_code(), 1);
    assert_eq!(status(-1).exit_code(), 1);
    assert_eq!(status(-256).exit_code(), 1);
    assert_eq!(status(65536).exit_code(), 1);
    assert_eq!(status(i32::MIN).exit_code(), 1);
    assert_eq!(status(i32::MAX).exit_code(), 1);
}

#[test]
fn the_captured_output_plays_no_part_in_the_exit_code() {
    let loud = Error::CmdStatusCodeError {
        code: 9,
        output: ExecutionOutcome::new(b"out".to_vec(), b"err".to_vec(), ExitStatus::Signaled),
    };
    assert_eq!(loud.exit_code(), 9);
    assert_eq!(MainError::from(loud).exit_code(), 9);
    assert_eq!(MainError::from(status(0)).exit_code(), 0);
    assert_eq!(MainError::from(status(300)).exit_code(), 1);
}

#[test]
fn every_other_error_ends_with_code_one() {
    assert_eq!(Error::CmdInterruptedError.exit_code(), 1);
    assert_eq!(Error::CmdSpawnError("x".into()).exit_code(), 1);
    assert_eq!(Error::CmdWaitError("x".into()).exit_code(), 1);
    assert_eq!(Error::ArgParseError { msg: "x".into() }.exit_code(), 1);
    assert_eq!(Error::ConfigError { msg: "x".into() }.exit_code(), 1);
    assert_eq!(Error::OtherError("x".into()).exit_code(), 1);
    assert_eq!(unimplemented(Op::Sw, "apt").exit_code(), 1);
}

#[test]
fn main_error_reports_the_code_of_its_error() {
    assert_eq!(MainError::from(status(42)).exit_code(), 42);
    assert_eq!(MainError::from(Error::CmdInterruptedError).exit_code(), 1);
}

#[test]
fn executor_errors_become_library_errors() {
    assert!(matches!(
        Error::from_exec(ExecError::Spawn { reason: "a".into() }),
        Error::CmdSpawnError(reason) if reason == "a"
    ));
    assert!(matches!(
        Error::from_exec(ExecError::Wait { reason: "b".into() }),
        Error::CmdWaitError(reason) if reason == "b"
    ));
    assert!(matches!(Error::from_exec(ExecError::Interrupted), Error::CmdInterruptedError));
    assert!(matches!(
        Error::from_exec(ExecError::NonZeroExit { code: 9, outcome: outcome(9) }),
        Error::CmdStatusCodeError { code: 9, .. }
    ));
}

#[test]
fn an_unimplemented_operation_names_itself_and_the_manager() {
    match unimplemented(Op::Rns, "brew") {
        Error::OperationUnimplementedError { op, pm } => {
            assert_eq!(op, "rns");
            assert_eq!(pm, "brew");
        }
        other => panic!("unexpected error: {:?}", other),
    }
}
