use deploy_core::backoff::{Attempt, Backoff, RetryPolicy, Verdict};
use deploy_core::cmd::{CommandLine, ExecError, ExecFailure};
use deploy_core::retried::{
    CommandSequence, SequenceEvent, SequenceNote, SequenceRequest, Step, StopReason,
};

#[test]
fn fixed_policy_repeats_its_delay() {
    let policy = RetryPolicy::fixed(5000, 24);
    assert_eq!(policy.shape, Backoff::Fixed);
    assert_eq!(policy.max_attempts(), 25);
    assert_eq!(policy.delays(), vec![5000u64; 24]);
    assert_eq!(RetryPolicy::fixed(7, 0).delays(), Vec::<u64>::new());
}

#[test]
fn fibonacci_policy_grows() {
    let policy = RetryPolicy::fibonacci(3000, 5);
    assert_eq!(policy.max_attempts(), 6);
    assert_eq!(policy.delays(), vec![3000, 3000, 6000, 9000, 15000]);
    assert_eq!(RetryPolicy::fibonacci(5000, 5).delays(), vec![5000, 5000, 10000, 15000, 25000]);
    assert_eq!(RetryPolicy::fibonacci(10, 6).delays(), vec![10, 10, 20, 30, 50, 80]);
}

#[test]
fn fibonacci_policy_stops_growing_at_the_largest_number() {
    assert_eq!(RetryPolicy::fibonacci(u64::MAX, 3).delays(), vec![u64::MAX, u64::MAX, u64::MAX]);
    let d = RetryPolicy::fibonacci(u64::MAX / 2 + 1, 4).delays();
    assert_eq!(d, vec![u64::MAX / 2 + 1, u64::MAX / 2 + 1, u64::MAX, u64::MAX]);
}

#[test]
fn an_operation_that_always_asks_for_a_retry_is_tried_max_attempts_times() {
    let policy = RetryPolicy::fibonacci(3000, 5);
    let mut driver = policy.start();
    let mut attempts: u64 = 0;
    let mut waited: Vec<u64> = Vec::new();
    let failure = loop {
        attempts += 1;
        match driver.record::<(), String>(Attempt::Again(format!("error {}", attempts))) {
            Verdict::Retry { after_millis, next, .. } => {
                waited.push(after_millis);
                driver = next;
            }
            Verdict::Failure { error, exhausted } => break (error, exhausted),
            Verdict::Success(_) => unreachable!(),
        }
    };
    assert_eq!(attempts, policy.max_attempts());
    assert_eq!(waited, policy.delays());
    assert_eq!(failure, ("error 6".to_string(), true));
}

#[test]
fn a_success_ends_the_retries() {
    let driver = RetryPolicy::fixed(10, 3).start();
    let next = match driver.record::<u32, String>(Attempt::Again("first".to_string())) {
        Verdict::Retry { after_millis, error, next } => {
            assert_eq!(after_millis, 10);
            assert_eq!(error, "first");
            next
        }
        _ => panic!("a retry was due"),
    };
    assert!(matches!(next.record::<u32, String>(Attempt::Done(7)), Verdict::Success(7)));
}

#[test]
fn a_final_failure_is_not_marked_as_exhausted() {
    let driver = RetryPolicy::fixed(10, 3).start();
    match driver.record::<u32, String>(Attempt::Fatal("no way".to_string())) {
        Verdict::Failure { error, exhausted } => {
            assert_eq!(error, "no way");
            assert!(!exhausted);
        }
        _ => panic!("a failure was due"),
    }
}

fn step(name: &str, retries: u16) -> Step {
    Step {
        command: CommandLine::new("docker", vec![name.to_string()], Vec::new()),
        policy: RetryPolicy::fixed(100, retries),
    }
}

fn failed(message: &str) -> SequenceEvent {
    SequenceEvent::Ran(Err(ExecError::new(ExecFailure::ExitStatusError, message.to_string())))
}

#[test]
fn a_sequence_runs_its_steps_in_order() {
    let mut s = CommandSequence::new(vec![step("tag", 2), step("push", 2)]);
    assert!(matches!(s.pending(), SequenceRequest::Run(c) if c.args == vec!["tag"]));
    assert!(matches!(s.absorb(SequenceEvent::Ran(Ok(()))), SequenceNote::StepDone(0)));
    assert!(matches!(s.pending(), SequenceRequest::Run(c) if c.args == vec!["push"]));
    assert!(matches!(s.absorb(SequenceEvent::Ran(Ok(()))), SequenceNote::StepDone(1)));
    assert!(matches!(s.pending(), SequenceRequest::Complete));
    assert!(s.is_finished());
    assert!(matches!(s.into_outcome(), Some(Ok(()))));
}

#[test]
fn a_failing_step_is_retried_until_its_delays_are_used() {
    let mut s = CommandSequence::new(vec![step("tag", 2), step("push", 2)]);
    let mut runs = 0;
    let mut sleeps = Vec::new();
    loop {
        match s.pending() {
            SequenceRequest::Run(c) => {
                assert_eq!(c.args, vec!["tag"]);
                runs += 1;
                s.absorb(failed(&format!("failure {}", runs)));
            }
            SequenceRequest::Sleep(millis) => {
                sleeps.push(millis);
                assert!(matches!(s.absorb(SequenceEvent::Slept), SequenceNote::Resumed));
            }
            SequenceRequest::Complete => break,
        }
    }
    assert_eq!(runs, 3);
    assert_eq!(sleeps, vec![100, 100]);
    match s.into_outcome() {
        Some(Err(f)) => {
            assert_eq!(f.step, 0);
            assert_eq!(f.error.message, "failure 3");
            assert_eq!(f.reason, StopReason::RetriesExhausted);
        }
        _ => panic!("the sequence had to fail"),
    }
}

fn timed_out() -> SequenceEvent {
    SequenceEvent::Ran(Err(ExecError::new(ExecFailure::Killed, "time is up".to_string())))
}

#[test]
fn a_command_whose_time_was_up_is_retried_like_any_other() {
    let mut s = CommandSequence::new(vec![step("push", 5)]);
    let mut runs = 0;
    loop {
        match s.pending() {
            SequenceRequest::Run(_) => {
                runs += 1;
                s.absorb(timed_out());
            }
            SequenceRequest::Sleep(_) => {
                s.absorb(SequenceEvent::Slept);
            }
            SequenceRequest::Complete => break,
        }
    }
    assert_eq!(runs, 6);
    let f = s.into_outcome().unwrap().unwrap_err();
    assert_eq!(f.error.failure, ExecFailure::Killed);
    assert_eq!(f.reason, StopReason::RetriesExhausted);
}

#[test]
fn a_timeout_does_not_keep_a_later_attempt_from_succeeding() {
    let mut s = CommandSequence::new(vec![step("tag", 5), step("push", 5)]);
    let mut commands = Vec::new();
    // The tag is set at its second attempt, the push succeeds at its third.
    let mut script = vec![
        timed_out(),
        SequenceEvent::Ran(Ok(())),
        failed("network"),
        timed_out(),
        SequenceEvent::Ran(Ok(())),
    ]
    .into_iter();
    loop {
        match s.pending() {
            SequenceRequest::Run(c) => {
                commands.push(c.args[0].clone());
                s.absorb(script.next().unwrap());
            }
            SequenceRequest::Sleep(_) => {
                s.absorb(SequenceEvent::Slept);
            }
            SequenceRequest::Complete => break,
        }
    }
    assert_eq!(commands, vec!["tag", "tag", "push", "push", "push"]);
    assert!(matches!(s.into_outcome(), Some(Ok(()))));
}

#[test]
fn a_cancellation_is_taken_up_between_attempts() {
    let mut s = CommandSequence::new(vec![step("push", 5)]);
    // A command in flight is not interrupted.
    assert!(matches!(s.absorb(SequenceEvent::Cancelled), SequenceNote::Ignored));
    assert!(matches!(s.pending(), SequenceRequest::Run(_)));
    assert!(s.last_failure().is_none());
    assert!(matches!(
        s.absorb(failed("first")),
        SequenceNote::WillRetry { step: 0, after_millis: 100 }
    ));
    assert_eq!(s.last_failure().as_ref().unwrap().message, "first");
    assert!(matches!(s.absorb(SequenceEvent::Cancelled), SequenceNote::Cancelled(0)));
    assert!(matches!(s.pending(), SequenceRequest::Complete));
    let f = s.into_outcome().unwrap().unwrap_err();
    assert_eq!(f.step, 0);
    assert_eq!(f.error.message, "first");
    assert_eq!(f.reason, StopReason::Cancelled);
}

#[test]
fn a_sequence_ignores_what_it_does_not_wait_for() {
    let mut s = CommandSequence::new(vec![step("push", 1)]);
    assert!(matches!(s.absorb(SequenceEvent::Slept), SequenceNote::Ignored));
    assert!(matches!(s.absorb(failed("x")), SequenceNote::WillRetry { step: 0, after_millis: 100, .. }));
    assert!(matches!(s.absorb(failed("y")), SequenceNote::Ignored));
    assert!(matches!(s.pending(), SequenceRequest::Sleep(100)));
    let empty = CommandSequence::new(Vec::new());
    assert!(matches!(empty.pending(), SequenceRequest::Complete));
}
