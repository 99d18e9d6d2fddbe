use deploy_core::cmd::{
    CommandLine, Directive, ExecError, ExecFailure, Execution, Observation, RunState,
};

#[test]
fn command_text_quotes_the_program() {
    let c = CommandLine::new(
        "docker",
        vec!["login".to_string(), "-u".to_string(), "me".to_string()],
        vec![("DOCKER_HOST".to_string(), "tcp://host:2375".to_string())],
    );
    assert_eq!(c.to_text(), "DOCKER_HOST=tcp://host:2375 \"docker\" login -u me");
    let bare = CommandLine::new("pack", Vec::new(), Vec::new());
    assert_eq!(bare.to_text(), " \"pack\" ");
    assert_eq!(bare.timeout_minutes, None);
    assert_eq!(bare.within(30).timeout_minutes, Some(30));
}

#[test]
fn exec_error_describes_itself() {
    let e = ExecError::new(ExecFailure::ExitStatusError, "exit status: 1".to_string());
    assert_eq!(e.describe(), "ExitStatusError(exit status: 1)");
    assert!(!e.is_killed());
    let e = ExecError::new(ExecFailure::Killed, "by user".to_string());
    assert_eq!(e.describe(), "Killed(by user)");
    assert!(e.is_killed());
    let e = ExecError::new(ExecFailure::ExecutionError, "no such file".to_string());
    assert_eq!(e.describe(), "ExecutionError(no such file)");
}

#[test]
fn output_is_forwarded_while_the_command_runs() {
    let mut run = Execution::new(Some(1000));
    assert!(matches!(
        run.observe(Observation::Stdout("building".to_string()), 10, false),
        Directive::ForwardStdout(line) if line == "building"
    ));
    assert!(matches!(
        run.observe(Observation::Stderr("warning".to_string()), 20, false),
        Directive::ForwardStderr(line) if line == "warning"
    ));
    assert!(matches!(run.observe(Observation::Idle, 30, false), Directive::Wait));
    assert_eq!(run.result(), None);
    assert!(matches!(
        run.observe(Observation::Exited { success: true }, 40, false),
        Directive::Succeed
    ));
    assert_eq!(run.result(), Some(Ok(())));
}

#[test]
fn a_failed_exit_is_an_exit_status_error() {
    let mut run = Execution::new(None);
    assert!(matches!(
        run.observe(Observation::Exited { success: false }, u64::MAX, false),
        Directive::Fail
    ));
    assert_eq!(run.result(), Some(Err(ExecFailure::ExitStatusError)));
}

#[test]
fn the_time_limit_kills() {
    let mut run = Execution::new(Some(1000));
    assert!(matches!(run.observe(Observation::Idle, 1000, false), Directive::Wait));
    assert!(matches!(run.observe(Observation::Idle, 1001, false), Directive::Kill));
    assert_eq!(run.state, RunState::Failed(ExecFailure::Killed));
}

#[test]
fn cancellation_beats_the_time_limit_and_the_exit_status() {
    let mut run = Execution::new(Some(1000));
    assert!(matches!(
        run.observe(Observation::Exited { success: false }, 5000, true),
        Directive::Kill
    ));
    assert_eq!(run.result(), Some(Err(ExecFailure::Killed)));
    let mut run = Execution::new(Some(1000));
    assert!(matches!(
        run.observe(Observation::Exited { success: true }, 1, true),
        Directive::Kill
    ));
    assert_eq!(run.result(), Some(Err(ExecFailure::Killed)));
    let mut run = Execution::new(None);
    assert!(matches!(
        run.observe(Observation::Stdout("line".to_string()), 1, true),
        Directive::Kill
    ));
}

#[test]
fn an_ended_run_keeps_its_result() {
    let mut run = Execution::new(Some(10));
    run.observe(Observation::Exited { success: true }, 1, false);
    assert!(matches!(run.observe(Observation::Idle, 100, true), Directive::Succeed));
    assert_eq!(run.result(), Some(Ok(())));
    let mut run = Execution::new(Some(10));
    run.observe(Observation::Idle, 11, false);
    assert!(matches!(
        run.observe(Observation::Exited { success: true }, 12, false),
        Directive::Kill
    ));
}
