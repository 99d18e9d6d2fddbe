//! Commands run one after the other, each tried again under its own retry
//! policy when it fails.
//!
//! Nothing here runs a command or sleeps: `CommandSequence` says what to do
//! next, and takes what became of it. Every failure of a command is tried
//! again while its policy leaves a delay, a command whose time was up like
//! any other. A command in flight is not interrupted: that the task is
//! cancelled is taken up between two attempts, while the sequence waits.

use crate::backoff::RetryPolicy;
use crate::cmd::{CommandLine, CommandLineView, ExecError};
use vstd::prelude::*;

verus! {

/// A command and the policy under which it is tried again.
#[derive(Debug)]
pub struct Step {
    pub command: CommandLine,
    pub policy: RetryPolicy,
}

pub struct StepView {
    pub command: CommandLineView,
    pub delays: Seq<u64>,
}

impl View for Step {
    type V = StepView;

    open spec fn view(&self) -> StepView {
        StepView { command: self.command@, delays: self.policy.spec_delays() }
    }
}

/// The contents of a list of steps.
pub open spec fn steps(v: Seq<Step>) -> Seq<StepView> {
    v.map_values(|s: Step| s@)
}

/// What the outside world did for a sequence.
#[derive(Debug)]
pub enum SequenceEvent {
    /// How the command ended.
    Ran(Result<(), ExecError>),
    /// The delay has passed.
    Slept,
    /// The task is cancelled.
    Cancelled,
}

/// What a sequence waits for.
#[derive(Debug)]
pub enum SequenceRequest {
    /// Run the command.
    Run(CommandLine),
    /// Wait for so many milliseconds, unless the task is cancelled before.
    Sleep(u64),
    /// Nothing: the sequence has ended.
    Complete,
}

pub enum SequenceRequestView {
    Run(CommandLineView),
    Sleep(u64),
    Complete,
}

impl View for SequenceRequest {
    type V = SequenceRequestView;

    open spec fn view(&self) -> SequenceRequestView {
        match *self {
            SequenceRequest::Run(command) => SequenceRequestView::Run(command@),
            SequenceRequest::Sleep(millis) => SequenceRequestView::Sleep(millis),
            SequenceRequest::Complete => SequenceRequestView::Complete,
        }
    }
}

/// What an event meant to a sequence.
#[derive(Clone, Copy, Debug, PartialEq, Eq, Structural)]
pub enum SequenceNote {
    /// Nothing: the event did not answer what the sequence waits for.
    Ignored,
    /// The delay is over: the step is tried again.
    Resumed,
    /// The step at this position succeeded.
    StepDone(usize),
    /// The step at this position failed and is tried again after the delay.
    WillRetry { step: usize, after_millis: u64 },
    /// The step at this position failed with no retry left: the sequence
    /// has ended.
    Failed(usize),
    /// The task was cancelled while the step at this position waited for its
    /// next attempt: the sequence has ended.
    Cancelled(usize),
}

/// Why a sequence ended without success.
#[derive(Clone, Copy, Debug, PartialEq, Eq, Structural)]
pub enum StopReason {
    /// A step failed at every attempt that its policy allows.
    RetriesExhausted,
    /// The task was cancelled between two attempts of a step.
    Cancelled,
}

/// How a sequence failed: the position of the step that did not succeed, the
/// failure of its last attempt, and why no further attempt was made.
#[derive(Debug)]
pub struct SequenceFailure {
    pub step: usize,
    pub error: ExecError,
    pub reason: StopReason,
}

/// How a sequence ended.
pub type SequenceOutcome = Result<(), SequenceFailure>;

/// A sequence in progress, as the contracts see it.
pub struct SequenceState {
    pub steps: Seq<StepView>,
    /// The position of the step that is being tried.
    pub current: nat,
    /// How many delays of that step have been used.
    pub used: nat,
    /// Whether the sequence waits for a delay to pass.
    pub sleeping: bool,
    /// The failure of the last attempt of the step, where it has failed.
    pub last: Option<ExecError>,
    pub outcome: Option<SequenceOutcome>,
}

impl SequenceState {
    /// A sequence before its first command. A sequence without steps has
    /// ended with success.
    pub open spec fn initial(steps: Seq<StepView>) -> SequenceState {
        SequenceState {
            steps,
            current: 0,
            used: 0,
            sleeping: false,
            last: None,
            outcome: if steps.len() == 0 {
                Some(Ok(()))
            } else {
                None
            },
        }
    }

    /// What holds of every sequence in progress.
    pub open spec fn wf(self) -> bool {
        &&& self.outcome is None ==> self.current < self.steps.len()
        &&& self.outcome is None ==> self.used <= self.steps[self.current as int].delays.len()
        &&& self.sleeping ==> self.used >= 1 && self.last is Some
        &&& self.current <= usize::MAX
    }

    /// What the sequence waits for.
    pub open spec fn pending(self) -> SequenceRequestView {
        if self.outcome is Some {
            SequenceRequestView::Complete
        } else if self.sleeping {
            SequenceRequestView::Sleep(self.steps[self.current as int].delays[self.used - 1])
        } else {
            SequenceRequestView::Run(self.steps[self.current as int].command)
        }
    }

    /// The sequence, ended without success at its current step.
    pub open spec fn stopped(self, error: ExecError, reason: StopReason) -> SequenceState {
        SequenceState {
            sleeping: false,
            last: None,
            outcome: Some(Err(SequenceFailure { step: self.current as usize, error, reason })),
            ..self
        }
    }

    /// What becomes of the sequence when `event` is reported.
    ///
    /// A command that succeeds is followed by the next one, and ends the
    /// sequence where it is the last. A command that fails, in whatever way,
    /// is tried again after the next delay of its policy, and ends the
    /// sequence once no delay is left. A cancellation ends the sequence while
    /// it waits for a delay, with the failure of the attempt before; it does
    /// nothing to a command in flight. An event that does not answer what the
    /// sequence waits for changes nothing.
    pub open spec fn transition(self, event: SequenceEvent) -> SequenceState {
        if self.outcome is Some {
            self
        } else if self.sleeping {
            match event {
                SequenceEvent::Slept => SequenceState { sleeping: false, ..self },
                SequenceEvent::Cancelled => match self.last {
                    Some(error) => self.stopped(error, StopReason::Cancelled),
                    None => self,
                },
                SequenceEvent::Ran(_) => self,
            }
        } else {
            match event {
                SequenceEvent::Ran(Ok(_)) => if self.current + 1 >= self.steps.len() {
                    SequenceState { last: None, outcome: Some(Ok(())), ..self }
                } else {
                    SequenceState { current: self.current + 1, used: 0, last: None, ..self }
                },
                SequenceEvent::Ran(Err(e)) => if self.used
                    >= self.steps[self.current as int].delays.len() {
                    self.stopped(e, StopReason::RetriesExhausted)
                } else {
                    SequenceState { sleeping: true, used: self.used + 1, last: Some(e), ..self }
                },
                _ => self,
            }
        }
    }
}

/// Commands that are run one after the other, each under its retry policy.
#[derive(Debug)]
pub struct CommandSequence {
    steps: Vec<Step>,
    delays: Vec<Vec<u64>>,
    current: usize,
    used: usize,
    sleeping: bool,
    last: Option<ExecError>,
    outcome: Option<SequenceOutcome>,
}

impl View for CommandSequence {
    type V = SequenceState;

    closed spec fn view(&self) -> SequenceState {
        SequenceState {
            steps: steps(self.steps@),
            current: self.current as nat,
            used: self.used as nat,
            sleeping: self.sleeping,
            last: self.last,
            outcome: self.outcome,
        }
    }
}

impl CommandSequence {
    #[verifier::type_invariant]
    spec fn inv(self) -> bool {
        &&& self.delays@.len() == self.steps@.len()
        &&& forall|i: int|
            0 <= i < self.steps@.len() ==> (#[trigger] self.delays@[i])@
                == self.steps@[i].policy.spec_delays()
        &&& self@.wf()
    }

    /// The sequence of `steps`, before its first command.
    pub fn new(steps: Vec<Step>) -> (r: Self)
        ensures
            r@ == SequenceState::initial(self::steps(steps@)),
            r@.wf(),
    {
        let mut delays: Vec<Vec<u64>> = Vec::new();
        let n: usize = steps.len();
        let mut i: usize = 0;
        while i < n
            invariant
                i <= n == steps.len(),
                delays@.len() == i,
                forall|k: int|
                    0 <= k < i ==> (#[trigger] delays@[k])@ == steps@[k].policy.spec_delays(),
            decreases n - i,
        {
            delays.push(steps[i].policy.delays());
            i = i + 1;
        }
        let outcome: Option<SequenceOutcome> = if n == 0 {
            Some(Ok(()))
        } else {
            None
        };
        CommandSequence { steps, delays, current: 0, used: 0, sleeping: false, last: None, outcome }
    }

    /// Whether the sequence has ended.
    pub fn is_finished(&self) -> (r: bool)
        ensures
            r == self@.outcome is Some,
    {
        self.outcome.is_some()
    }

    /// The failure of the last attempt of the step that is being tried, where
    /// it has failed.
    pub fn last_failure(&self) -> (r: &Option<ExecError>)
        ensures
            *r == self@.last,
    {
        &self.last
    }

    /// What the sequence waits for.
    #[verifier::rlimit(40)]
    pub fn pending(&self) -> (r: SequenceRequest)
        ensures
            r@ == self@.pending(),
            self@.wf(),
    {
        proof {
            use_type_invariant(self);
        }
        if self.outcome.is_some() {
            SequenceRequest::Complete
        } else if self.sleeping {
            SequenceRequest::Sleep(self.delays[self.current][self.used - 1])
        } else {
            SequenceRequest::Run(self.steps[self.current].command.clone())
        }
    }

    /// Takes what the outside world did, and says what it meant.
    #[verifier::rlimit(40)]
    pub fn absorb(&mut self, event: SequenceEvent) -> (r: SequenceNote)
        ensures
            final(self)@ == old(self)@.transition(event),
            final(self)@.wf(),
            r == note_of(old(self)@, event),
    {
        proof {
            use_type_invariant(&*self);
        }
        if self.outcome.is_some() {
            return SequenceNote::Ignored;
        }
        if self.sleeping {
            return match event {
                SequenceEvent::Slept => {
                    self.sleeping = false;
                    SequenceNote::Resumed
                },
                SequenceEvent::Cancelled => {
                    let at: usize = self.current;
                    let kept = match &self.last {
                        Some(e) => Some(ExecError { failure: e.failure, message: e.message.clone() }),
                        None => None,
                    };
                    match kept {
                        Some(error) => {
                            self.sleeping = false;
                            self.last = None;
                            self.outcome = Some(
                                Err(
                                    SequenceFailure {
                                        step: at,
                                        error,
                                        reason: StopReason::Cancelled,
                                    },
                                ),
                            );
                            SequenceNote::Cancelled(at)
                        },
                        None => SequenceNote::Ignored,
                    }
                },
                SequenceEvent::Ran(_) => SequenceNote::Ignored,
            };
        }
        match event {
            SequenceEvent::Ran(outcome) => {
                assert(steps(self.steps@).len() == self.steps@.len());
                match outcome {
                    Ok(_) => {
                        let done: usize = self.current;
                        let n: usize = self.steps.len();
                        self.last = None;
                        if self.current + 1 >= n {
                            self.outcome = Some(Ok(()));
                        } else {
                            self.used = 0;
                            self.current = self.current + 1;
                        }
                        SequenceNote::StepDone(done)
                    },
                    Err(e) => {
                        if self.used >= self.delays[self.current].len() {
                            let at: usize = self.current;
                            self.last = None;
                            self.outcome = Some(
                                Err(
                                    SequenceFailure {
                                        step: at,
                                        error: e,
                                        reason: StopReason::RetriesExhausted,
                                    },
                                ),
                            );
                            SequenceNote::Failed(at)
                        } else {
                            let after_millis: u64 = self.delays[self.current][self.used];
                            self.last = Some(e);
                            self.used = self.used + 1;
                            self.sleeping = true;
                            SequenceNote::WillRetry { step: self.current, after_millis }
                        }
                    },
                }
            },
            _ => SequenceNote::Ignored,
        }
    }

    /// How the sequence ended, once it has.
    pub fn into_outcome(self) -> (r: Option<SequenceOutcome>)
        ensures
            r == self@.outcome,
    {
        self.outcome
    }
}

/// What an event means to a sequence: the note that `absorb` gives for it.
pub open spec fn note_of(s: SequenceState, event: SequenceEvent) -> SequenceNote {
    if s.outcome is Some {
        SequenceNote::Ignored
    } else if s.sleeping {
        match event {
            SequenceEvent::Slept => SequenceNote::Resumed,
            SequenceEvent::Cancelled => if s.last is Some {
                SequenceNote::Cancelled(s.current as usize)
            } else {
                SequenceNote::Ignored
            },
            SequenceEvent::Ran(_) => SequenceNote::Ignored,
        }
    } else {
        match event {
            SequenceEvent::Ran(Ok(_)) => SequenceNote::StepDone(s.current as usize),
            SequenceEvent::Ran(Err(_)) => if s.used >= s.steps[s.current as int].delays.len() {
                SequenceNote::Failed(s.current as usize)
            } else {
                SequenceNote::WillRetry {
                    step: s.current as usize,
                    after_millis: s.steps[s.current as int].delays[s.used as int],
                }
            },
            _ => SequenceNote::Ignored,
        }
    }
}

/// What becomes of a sequence over a series of events, the first event first.
pub open spec fn after(s: SequenceState, events: Seq<SequenceEvent>) -> SequenceState
    decreases events.len(),
{
    if events.len() == 0 {
        s
    } else {
        after(s, events.drop_last()).transition(events.last())
    }
}

/// A sequence in progress stays well formed, and keeps its steps.
pub proof fn lemma_sequence_stays_well_formed(s: SequenceState, event: SequenceEvent)
    requires
        s.wf(),
        s.steps.len() <= usize::MAX,
    ensures
        s.transition(event).wf(),
        s.transition(event).steps == s.steps,
        SequenceState::initial(s.steps).wf(),
{
}

/// A sequence that has ended stays as it is.
pub proof fn lemma_ended_sequence_stays(s: SequenceState, events: Seq<SequenceEvent>)
    requires
        s.outcome is Some,
    ensures
        after(s, events) == s,
    decreases events.len(),
{
    if events.len() > 0 {
        lemma_ended_sequence_stays(s, events.drop_last());
    }
}

/// Events taken one series after the other are taken as one series.
pub proof fn lemma_after_append(
    s: SequenceState,
    first: Seq<SequenceEvent>,
    second: Seq<SequenceEvent>,
)
    ensures
        after(s, first + second) == after(after(s, first), second),
    decreases second.len(),
{
    if second.len() == 0 {
        assert(first + second =~= first);
    } else {
        lemma_after_append(s, first, second.drop_last());
        assert((first + second).drop_last() =~= first + second.drop_last());
    }
}

/// The events of a step that fails `errors.len()` times, with the delay
/// passing after each failure but the last.
pub open spec fn failing(errors: Seq<ExecError>) -> Seq<SequenceEvent>
    decreases errors.len(),
{
    if errors.len() == 0 {
        Seq::empty()
    } else if errors.len() == 1 {
        seq![SequenceEvent::Ran(Err(errors[0]))]
    } else {
        failing(errors.drop_last()).push(SequenceEvent::Slept).push(
            SequenceEvent::Ran(Err(errors.last())),
        )
    }
}

/// How many commands a series of events reports as run.
pub open spec fn runs_in(events: Seq<SequenceEvent>) -> nat
    decreases events.len(),
{
    if events.len() == 0 {
        0
    } else {
        runs_in(events.drop_last()) + if events.last() is Ran {
            1nat
        } else {
            0nat
        }
    }
}

/// The events of `errors.len()` failures report that many runs.
pub proof fn lemma_runs_in_failing(errors: Seq<ExecError>)
    ensures
        runs_in(failing(errors)) == errors.len(),
    decreases errors.len(),
{
    if errors.len() == 0 {
    } else if errors.len() == 1 {
        assert(failing(errors).drop_last() =~= Seq::<SequenceEvent>::empty());
        assert(runs_in(failing(errors).drop_last()) == 0);
    } else {
        lemma_runs_in_failing(errors.drop_last());
        let a = failing(errors.drop_last());
        let b = a.push(SequenceEvent::Slept);
        let c = b.push(SequenceEvent::Ran(Err(errors.last())));
        assert(c.drop_last() =~= b);
        assert(b.drop_last() =~= a);
        assert(runs_in(b) == runs_in(a));
        assert(runs_in(c) == runs_in(b) + 1);
    }
}

/// While a step fails, in whatever way, and delays are left to it, the
/// sequence waits for the next delay of the step: after `errors.len()`
/// failures of a step that had used no delay, it has used that many, keeps
/// the last failure, and asks for the delay at position `errors.len() - 1`.
#[verifier::rlimit(40)]
pub proof fn lemma_retries_follow_policy(s: SequenceState, errors: Seq<ExecError>)
    requires
        s.wf(),
        s.outcome is None,
        !s.sleeping,
        s.used == 0,
        0 < errors.len() <= s.steps[s.current as int].delays.len(),
    ensures
        after(s, failing(errors)) == (SequenceState {
            sleeping: true,
            used: errors.len(),
            last: Some(errors.last()),
            ..s
        }),
        after(s, failing(errors)).pending() == SequenceRequestView::Sleep(
            s.steps[s.current as int].delays[errors.len() - 1],
        ),
    decreases errors.len(),
{
    if errors.len() == 1 {
        let only = failing(errors);
        assert(only.drop_last() =~= Seq::<SequenceEvent>::empty());
        assert(after(s, only.drop_last()) == s);
        assert(only.last() == SequenceEvent::Ran(Err(errors[0])));
        assert(after(s, only) == s.transition(only.last()));
    } else {
        let shorter = errors.drop_last();
        lemma_retries_follow_policy(s, shorter);
        let a = failing(shorter);
        let b = a.push(SequenceEvent::Slept);
        let c = b.push(SequenceEvent::Ran(Err(errors.last())));
        assert(c.drop_last() =~= b);
        assert(b.drop_last() =~= a);
        assert(errors.last() == errors[errors.len() - 1]);
        assert(after(s, b) == after(s, a).transition(SequenceEvent::Slept));
        assert(after(s, c) == after(s, b).transition(SequenceEvent::Ran(Err(errors.last()))));
        assert(failing(errors) == c);
    }
}

/// Retry exhaustion: a step that fails every time, in whatever way (a
/// command whose time was up is a failure like any other), is attempted once
/// and then once more after each delay of its policy; then the sequence ends
/// with the failure of the last attempt, marked as retries exhausted. No later
/// step is ever tried.
#[verifier::rlimit(40)]
pub proof fn lemma_step_exhaustion(s: SequenceState, errors: Seq<ExecError>, later: Seq<SequenceEvent>)
    requires
        s.wf(),
        s.outcome is None,
        !s.sleeping,
        s.used == 0,
        errors.len() == s.steps[s.current as int].delays.len() + 1,
    ensures
        runs_in(failing(errors)) == s.steps[s.current as int].delays.len() + 1,
        after(s, failing(errors)).outcome == Some(
            Err::<(), SequenceFailure>(
                SequenceFailure {
                    step: s.current as usize,
                    error: errors.last(),
                    reason: StopReason::RetriesExhausted,
                },
            ),
        ),
        after(s, failing(errors) + later) == after(s, failing(errors)),
{
    lemma_runs_in_failing(errors);
    let last = errors.last();
    assert(last == errors[errors.len() - 1]);
    if errors.len() == 1 {
        let only = failing(errors);
        assert(only.drop_last() =~= Seq::<SequenceEvent>::empty());
        assert(after(s, only.drop_last()) == s);
        assert(only.last() == SequenceEvent::Ran(Err(errors[0])));
        assert(after(s, only) == s.transition(only.last()));
    } else {
        let shorter = errors.drop_last();
        lemma_retries_follow_policy(s, shorter);
        let a = failing(shorter);
        let b = a.push(SequenceEvent::Slept);
        let c = b.push(SequenceEvent::Ran(Err(last)));
        assert(c.drop_last() =~= b);
        assert(b.drop_last() =~= a);
        assert(after(s, b) == after(s, a).transition(SequenceEvent::Slept));
        assert(after(s, c) == after(s, b).transition(SequenceEvent::Ran(Err(last))));
        assert(failing(errors) == c);
    }
    lemma_after_append(s, failing(errors), later);
    lemma_ended_sequence_stays(after(s, failing(errors)), later);
}

/// The events of a step that fails `errors.len()` times and then succeeds.
pub open spec fn succeeding_after(errors: Seq<ExecError>) -> Seq<SequenceEvent> {
    if errors.len() == 0 {
        seq![SequenceEvent::Ran(Ok(()))]
    } else {
        failing(errors).push(SequenceEvent::Slept).push(SequenceEvent::Ran(Ok(())))
    }
}

/// The sequence once its current step has succeeded: at its next step, with
/// every delay of that step unused, or ended with success where the step was
/// the last.
pub open spec fn step_done(s: SequenceState) -> SequenceState {
    if s.current + 1 >= s.steps.len() {
        SequenceState { sleeping: false, last: None, outcome: Some(Ok(())), ..s }
    } else {
        SequenceState { current: s.current + 1, used: 0, sleeping: false, last: None, ..s }
    }
}

/// A step that succeeds at a later attempt: where a step fails a number of
/// times that its policy allows, in whatever way, and then succeeds, the
/// sequence goes on to the next step, or ends with success after the last.
/// The step was run once more than it failed, and it is not run again.
#[verifier::rlimit(40)]
pub proof fn lemma_step_succeeds_after_retries(s: SequenceState, errors: Seq<ExecError>)
    requires
        s.wf(),
        s.outcome is None,
        !s.sleeping,
        s.used == 0,
        errors.len() <= s.steps[s.current as int].delays.len(),
    ensures
        after(s, succeeding_after(errors)) == step_done(
            SequenceState { used: errors.len(), ..s },
        ),
        runs_in(succeeding_after(errors)) == errors.len() + 1,
{
    let done = SequenceEvent::Ran(Ok(()));
    if errors.len() == 0 {
        let only = succeeding_after(errors);
        assert(only.drop_last() =~= Seq::<SequenceEvent>::empty());
        assert(after(s, only.drop_last()) == s);
        assert(after(s, only) == s.transition(done));
        assert(runs_in(only.drop_last()) == 0);
        assert(SequenceState { used: errors.len(), ..s } == s);
    } else {
        lemma_retries_follow_policy(s, errors);
        lemma_runs_in_failing(errors);
        let a = failing(errors);
        let b = a.push(SequenceEvent::Slept);
        let c = b.push(done);
        assert(c.drop_last() =~= b);
        assert(b.drop_last() =~= a);
        assert(after(s, b) == after(s, a).transition(SequenceEvent::Slept));
        assert(after(s, c) == after(s, b).transition(done));
        assert(runs_in(b) == runs_in(a));
        assert(runs_in(c) == runs_in(b) + 1);
    }
}

/// Two steps are retried independently: where the step before the last one
/// succeeds at some attempt and the last step at some attempt, each within
/// what its policy allows, the sequence ends with success. The first of the
/// two is run once more than it failed and never again once it has
/// succeeded; then the last is run once more than it failed.
#[verifier::rlimit(40)]
pub proof fn lemma_two_steps_succeed_independently(
    s: SequenceState,
    first_errors: Seq<ExecError>,
    second_errors: Seq<ExecError>,
)
    requires
        s.wf(),
        s.outcome is None,
        !s.sleeping,
        s.used == 0,
        s.current + 2 == s.steps.len(),
        s.steps.len() <= usize::MAX,
        first_errors.len() <= s.steps[s.current as int].delays.len(),
        second_errors.len() <= s.steps[s.current as int + 1].delays.len(),
    ensures
        after(s, succeeding_after(first_errors)).pending() == SequenceRequestView::Run(
            s.steps[s.current as int + 1].command,
        ),
        after(s, succeeding_after(first_errors) + succeeding_after(second_errors)).outcome
            == Some(Ok::<(), SequenceFailure>(())),
        runs_in(succeeding_after(first_errors)) == first_errors.len() + 1,
        runs_in(succeeding_after(second_errors)) == second_errors.len() + 1,
{
    lemma_step_succeeds_after_retries(s, first_errors);
    let middle = after(s, succeeding_after(first_errors));
    lemma_step_succeeds_after_retries(middle, second_errors);
    lemma_after_append(s, succeeding_after(first_errors), succeeding_after(second_errors));
}

/// Cancellation between attempts: a sequence that waits for the next attempt
/// of a step ends when the task is cancelled, with the failure of the attempt
/// before and marked as cancelled; a command in flight is not interrupted.
pub proof fn lemma_cancellation_between_attempts(s: SequenceState)
    requires
        s.wf(),
        s.outcome is None,
    ensures
        s.sleeping ==> s.transition(SequenceEvent::Cancelled).outcome == Some(
            Err::<(), SequenceFailure>(
                SequenceFailure {
                    step: s.current as usize,
                    error: s.last->0,
                    reason: StopReason::Cancelled,
                },
            ),
        ),
        !s.sleeping ==> s.transition(SequenceEvent::Cancelled) == s,
{
}

} // verus!
