use rush::status::{ExecuteError, ExitStatus};
use rush::subshell::{execute_subshell, subshell_exit_code, WaitOutcome};

#[test]
fn success_is_raw_zero() {
    assert!(ExitStatus::from_raw(0).success());
    assert!(!ExitStatus::from_raw(1).success());
    assert!(!ExitStatus::from_raw(256).success());
    assert!(!ExitStatus::from_raw(-1).success());
    assert_eq!(ExitStatus::from_raw(5).into_raw(), 5);
}

#[test]
fn exit_code_is_there_unless_a_signal_ended_the_command() {
    assert_eq!(ExitStatus::from_raw(0).code(), Some(0));
    assert_eq!(ExitStatus::from_raw(256).code(), Some(1));
    assert_eq!(ExitStatus::from_raw(0x7f00).code(), Some(127));
    assert_eq!(ExitStatus::from_raw(0xff00).code(), Some(255));
    assert_eq!(ExitStatus::from_raw(1).code(), None);
    assert_eq!(ExitStatus::from_raw(2).code(), None);
    assert_eq!(ExitStatus::from_raw(9).code(), None);
    assert_eq!(ExitStatus::from_raw(0x80).code(), Some(0));
    assert_eq!(ExitStatus::from_raw(-1).code(), None);
    assert_eq!(ExitStatus::from_raw(-256).code(), Some(255));
}

#[test]
fn negate_gives_one_for_success_and_zero_otherwise() {
    assert_eq!(ExitStatus::from_raw(0).negate(), ExitStatus::from_raw(1));
    assert_eq!(ExitStatus::from_raw(1).negate(), ExitStatus::from_raw(0));
    assert_eq!(ExitStatus::from_raw(256).negate(), ExitStatus::from_raw(0));
}

#[test]
fn the_copy_of_the_shell_ends_with_the_exit_code() {
    assert_eq!(subshell_exit_code(&Ok(ExitStatus::from_raw(0))), 0);
    assert_eq!(subshell_exit_code(&Ok(ExitStatus::from_raw(3 << 8))), 3);
    assert_eq!(subshell_exit_code(&Ok(ExitStatus::from_raw(1))), 1);
    assert_eq!(subshell_exit_code(&Ok(ExitStatus::from_raw(2))), 1);
    assert_eq!(subshell_exit_code(&Err(ExecuteError::Empty)), 1);
    assert_eq!(subshell_exit_code(&Err(ExecuteError::Unsupported("Pipe"))), 1);
}

#[test]
fn the_shell_reports_the_exit_code_of_the_copy() {
    assert_eq!(execute_subshell(WaitOutcome::Exited(0)).unwrap(), ExitStatus::from_raw(0));
    assert_eq!(execute_subshell(WaitOutcome::Exited(3)).unwrap(), ExitStatus::from_raw(3));
    for waited in [WaitOutcome::Signaled, WaitOutcome::Stopped, WaitOutcome::Other, WaitOutcome::Failed] {
        assert!(matches!(
            execute_subshell(waited),
            Err(ExecuteError::StaticError("Failed to execute subshell"))
        ));
    }
}
