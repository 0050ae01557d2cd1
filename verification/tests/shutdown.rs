use ups_monitor::shutdown::{command_outcome, CommandShutdownExecutor, ShutdownError, ShutdownPlan};

#[test]
fn dry_run_does_not_require_real_systemctl() {
    let executor = CommandShutdownExecutor::new(true, vec!["definitely-not-real".into()]);

    match executor.plan().unwrap() {
        ShutdownPlan::DryRun { command } => assert_eq!(command, vec!["definitely-not-real"]),
        other => panic!("expected a dry run, got {other:?}"),
    }
}

#[test]
fn empty_command_is_an_error() {
    let executor = CommandShutdownExecutor::new(true, Vec::new());
    assert!(matches!(executor.plan(), Err(ShutdownError::EmptyCommand)));
}

#[test]
fn command_splits_into_program_and_arguments() {
    let executor = CommandShutdownExecutor::new(
        false,
        vec!["/sbin/shutdown".into(), "-h".into(), "+0".into()],
    );
    match executor.plan().unwrap() {
        ShutdownPlan::Execute { program, args } => {
            assert_eq!(program, "/sbin/shutdown");
            assert_eq!(args, vec!["-h", "+0"]);
        }
        other => panic!("expected a command, got {other:?}"),
    }
}

#[test]
fn failed_command_reports_trimmed_stderr() {
    assert!(command_outcome(true, "exit status: 0".into(), "ignored").is_ok());
    match command_outcome(false, "exit status: 1".into(), "  not permitted\n") {
        Err(ShutdownError::Failed { status, stderr }) => {
            assert_eq!(status, "exit status: 1");
            assert_eq!(stderr, "not permitted");
        }
        other => panic!("expected a failure, got {other:?}"),
    }
}
