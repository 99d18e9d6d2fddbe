//! External commands: how one is described, how its failure is reported, and
//! the decisions taken while one runs under a time limit and a cancellation
//! request.
//!
//! Nothing here starts a process. The caller runs the command and reports what
//! it observes; `Execution` decides what follows.

use crate::text::{join, joined, lemma_pairs_push, lemma_texts_push, pairs, push_texts, texts};
use vstd::prelude::*;
use vstd::string::*;

verus! {

/// A command to run: the program, its arguments, the environment variables to
/// add, and the time it may take, in minutes, where that is limited.
#[derive(Debug)]
pub struct CommandLine {
    pub binary: String,
    pub args: Vec<String>,
    pub envs: Vec<(String, String)>,
    pub timeout_minutes: Option<u64>,
}

pub struct CommandLineView {
    pub binary: Seq<char>,
    pub args: Seq<Seq<char>>,
    pub envs: Seq<(Seq<char>, Seq<char>)>,
    pub timeout_minutes: Option<u64>,
}

impl View for CommandLine {
    type V = CommandLineView;

    open spec fn view(&self) -> CommandLineView {
        CommandLineView {
            binary: self.binary@,
            args: texts(self.args@),
            envs: pairs(self.envs@),
            timeout_minutes: self.timeout_minutes,
        }
    }
}

/// A copy of a list of pairs.
pub fn copy_pairs(v: &Vec<(String, String)>) -> (r: Vec<(String, String)>)
    ensures
        pairs(r@) == pairs(v@),
{
    let mut out: Vec<(String, String)> = Vec::new();
    let n: usize = v.len();
    let mut i: usize = 0;
    assert(pairs(out@) =~= pairs(v@).take(0));
    while i < n
        invariant
            i <= n == v.len(),
            pairs(out@) == pairs(v@).take(i as int),
        decreases n - i,
    {
        let pair = (v[i].0.clone(), v[i].1.clone());
        proof {
            lemma_pairs_push(out@, pair);
            assert(pairs(v@).take(i + 1) =~= pairs(v@).take(i as int).push((pair.0@, pair.1@)));
        }
        out.push(pair);
        i = i + 1;
    }
    assert(pairs(v@).take(n as int) =~= pairs(v@));
    out
}

impl Clone for CommandLine {
    fn clone(&self) -> (r: Self)
        ensures
            r@ == self@,
    {
        let mut args: Vec<String> = Vec::new();
        assert(texts(args@) =~= Seq::<Seq<char>>::empty());
        push_texts(&mut args, &self.args);
        assert(texts(args@) =~= texts(self.args@));
        CommandLine {
            binary: self.binary.clone(),
            args,
            envs: copy_pairs(&self.envs),
            timeout_minutes: self.timeout_minutes,
        }
    }
}

/// The variable and its value, with `=` between them.
pub open spec fn assignment(p: (Seq<char>, Seq<char>)) -> Seq<char> {
    p.0 + "="@ + p.1
}

/// A command on one line: the added environment, the program in double
/// quotes, then the arguments, with one space between each two parts.
pub open spec fn command_text(c: CommandLineView) -> Seq<char> {
    join(c.envs.map_values(|p: (Seq<char>, Seq<char>)| assignment(p)), " "@) + " \""@ + c.binary
        + "\" "@ + join(c.args, " "@)
}

impl CommandLine {
    pub fn new(binary: &str, args: Vec<String>, envs: Vec<(String, String)>) -> (r: Self)
        ensures
            r@ == (CommandLineView {
                binary: binary@,
                args: texts(args@),
                envs: pairs(envs@),
                timeout_minutes: None,
            }),
    {
        CommandLine { binary: String::from_str(binary), args, envs, timeout_minutes: None }
    }

    /// The same command, allowed to run for `minutes`.
    pub fn within(self, minutes: u64) -> (r: Self)
        ensures
            r@ == (CommandLineView { timeout_minutes: Some(minutes), ..self@ }),
    {
        CommandLine {
            binary: self.binary,
            args: self.args,
            envs: self.envs,
            timeout_minutes: Some(minutes),
        }
    }

    /// The command on one line, for messages. It holds every argument, secrets
    /// included.
    #[verifier::rlimit(40)]
    pub fn to_text(&self) -> (r: String)
        ensures
            r@ == command_text(self@),
    {
        let mut assignments: Vec<String> = Vec::new();
        let n: usize = self.envs.len();
        let mut i: usize = 0;
        let ghost f = |p: (Seq<char>, Seq<char>)| assignment(p);
        while i < n
            invariant
                i <= n == self.envs.len(),
                f == |p: (Seq<char>, Seq<char>)| assignment(p),
                texts(assignments@) == pairs(self.envs@).take(i as int).map_values(f),
            decreases n - i,
        {
            let mut a = self.envs[i].0.clone();
            a.append("=");
            a.append(self.envs[i].1.as_str());
            proof {
                lemma_texts_push(assignments@, a);
                assert(pairs(self.envs@).take(i + 1).map_values(f) =~= pairs(self.envs@).take(
                    i as int,
                ).map_values(f).push(a@));
            }
            assignments.push(a);
            i = i + 1;
        }
        assert(pairs(self.envs@).take(n as int) =~= pairs(self.envs@));
        let mut out = joined(&assignments, " ");
        out.append(" \"");
        out.append(self.binary.as_str());
        out.append("\" ");
        out.append(joined(&self.args, " ").as_str());
        out
    }
}

/// Why a command failed.
#[derive(Clone, Copy, Debug, PartialEq, Eq, Structural)]
pub enum ExecFailure {
    /// The command could not be started, or its output could not be read.
    ExecutionError,
    /// The command ended with a status other than success.
    ExitStatusError,
    /// The command was stopped before it ended: it was cancelled, or its time
    /// was up.
    Killed,
}

/// The failure of a command: why it failed, and what the executor said of it.
#[derive(Debug)]
pub struct ExecError {
    pub failure: ExecFailure,
    pub message: String,
}

impl ExecError {
    pub fn new(failure: ExecFailure, message: String) -> (r: Self)
        ensures
            r.failure == failure,
            r.message@ == message@,
    {
        ExecError { failure, message }
    }

    /// The name of a failure.
    pub open spec fn failure_name(failure: ExecFailure) -> Seq<char> {
        match failure {
            ExecFailure::ExecutionError => "ExecutionError"@,
            ExecFailure::ExitStatusError => "ExitStatusError"@,
            ExecFailure::Killed => "Killed"@,
        }
    }

    /// The failure as text: its name, and its message in round brackets.
    pub open spec fn spec_describe(failure: ExecFailure, message: Seq<char>) -> Seq<char> {
        Self::failure_name(failure) + "("@ + message + ")"@
    }

    pub fn describe(&self) -> (r: String)
        ensures
            r@ == Self::spec_describe(self.failure, self.message@),
    {
        let mut out = match self.failure {
            ExecFailure::ExecutionError => String::from_str("ExecutionError"),
            ExecFailure::ExitStatusError => String::from_str("ExitStatusError"),
            ExecFailure::Killed => String::from_str("Killed"),
        };
        out.append("(");
        out.append(self.message.as_str());
        out.append(")");
        out
    }

    /// Whether the command was stopped before it ended.
    pub fn is_killed(&self) -> (r: bool)
        ensures
            r == (self.failure == ExecFailure::Killed),
    {
        self.failure == ExecFailure::Killed
    }
}

/// What the caller observes of a running command.
#[derive(Debug)]
pub enum Observation {
    /// The command wrote a line to its standard output.
    Stdout(String),
    /// The command wrote a line to its standard error.
    Stderr(String),
    /// Nothing happened for a while.
    Idle,
    /// The command ended, with success or not.
    Exited { success: bool },
}

/// What the caller does after an observation.
#[derive(Debug)]
pub enum Directive {
    /// Hand the line of standard output to its callback, and go on.
    ForwardStdout(String),
    /// Hand the line of standard error to its callback, and go on.
    ForwardStderr(String),
    /// Go on.
    Wait,
    /// Stop the process: the command has failed with `Killed`.
    Kill,
    /// The command has ended with success.
    Succeed,
    /// The command has ended without success.
    Fail,
}

/// How a run stands.
#[derive(Clone, Copy, Debug, PartialEq, Eq, Structural)]
pub enum RunState {
    Running,
    Succeeded,
    Failed(ExecFailure),
}

/// One run of a command under a time limit, in milliseconds, where there is
/// one.
#[derive(Debug)]
pub struct Execution {
    pub timeout_millis: Option<u64>,
    pub state: RunState,
}

impl Execution {
    pub fn new(timeout_millis: Option<u64>) -> (r: Self)
        ensures
            r.timeout_millis == timeout_millis,
            r.state == RunState::Running,
    {
        Execution { timeout_millis, state: RunState::Running }
    }

    /// Whether the time of the run is up after `elapsed_millis`.
    pub open spec fn timed_out(&self, elapsed_millis: u64) -> bool {
        match self.timeout_millis {
            Some(limit) => elapsed_millis > limit,
            None => false,
        }
    }

    /// The state after an observation made `elapsed_millis` after the start,
    /// with the cancellation request sampled as `cancelled`. A cancellation
    /// comes before the time limit, and the time limit before what the process
    /// did.
    pub open spec fn next_state(
        &self,
        observation: Observation,
        elapsed_millis: u64,
        cancelled: bool,
    ) -> RunState {
        if self.state != RunState::Running {
            self.state
        } else if cancelled || self.timed_out(elapsed_millis) {
            RunState::Failed(ExecFailure::Killed)
        } else {
            match observation {
                Observation::Exited { success } => if success {
                    RunState::Succeeded
                } else {
                    RunState::Failed(ExecFailure::ExitStatusError)
                },
                _ => RunState::Running,
            }
        }
    }

    /// Takes one observation and says what to do. Once the run has ended,
    /// nothing changes any more.
    #[verifier::rlimit(40)]
    pub fn observe(&mut self, observation: Observation, elapsed_millis: u64, cancelled: bool) -> (r:
        Directive)
        ensures
            final(self).timeout_millis == old(self).timeout_millis,
            final(self).state == old(self).next_state(observation, elapsed_millis, cancelled),
            match r {
                Directive::ForwardStdout(line) => final(self).state == RunState::Running
                    && observation == Observation::Stdout(line),
                Directive::ForwardStderr(line) => final(self).state == RunState::Running
                    && observation == Observation::Stderr(line),
                Directive::Wait => final(self).state == RunState::Running && observation
                    == Observation::Idle,
                Directive::Kill => final(self).state == RunState::Failed(ExecFailure::Killed),
                Directive::Succeed => final(self).state == RunState::Succeeded,
                Directive::Fail => final(self).state is Failed && final(self).state
                    != RunState::Failed(ExecFailure::Killed),
            },
    {
        match self.state {
            RunState::Running => {},
            RunState::Succeeded => {
                return Directive::Succeed;
            },
            RunState::Failed(f) => {
                return if f == ExecFailure::Killed {
                    Directive::Kill
                } else {
                    Directive::Fail
                };
            },
        }
        let late = match self.timeout_millis {
            Some(limit) => elapsed_millis > limit,
            None => false,
        };
        if cancelled || late {
            self.state = RunState::Failed(ExecFailure::Killed);
            return Directive::Kill;
        }
        match observation {
            Observation::Stdout(line) => Directive::ForwardStdout(line),
            Observation::Stderr(line) => Directive::ForwardStderr(line),
            Observation::Idle => Directive::Wait,
            Observation::Exited { success } => {
                if success {
                    self.state = RunState::Succeeded;
                    Directive::Succeed
                } else {
                    self.state = RunState::Failed(ExecFailure::ExitStatusError);
                    Directive::Fail
                }
            },
        }
    }

    /// The result of the run, once it has ended.
    pub fn result(&self) -> (r: Option<Result<(), ExecFailure>>)
        ensures
            r == match self.state {
                RunState::Running => None::<Result<(), ExecFailure>>,
                RunState::Succeeded => Some(Ok(())),
                RunState::Failed(f) => Some(Err(f)),
            },
    {
        match self.state {
            RunState::Running => None,
            RunState::Succeeded => Some(Ok(())),
            RunState::Failed(f) => Some(Err(f)),
        }
    }
}

/// The state of a run after a series of observations, each with the time
/// elapsed and the cancellation request as sampled with it.
pub open spec fn state_after(start: Execution, seen: Seq<(Observation, u64, bool)>) -> RunState
    decreases seen.len(),
{
    if seen.len() == 0 {
        start.state
    } else {
        let before = Execution {
            timeout_millis: start.timeout_millis,
            state: state_after(start, seen.drop_last()),
        };
        before.next_state(seen.last().0, seen.last().1, seen.last().2)
    }
}

/// A run that has ended keeps its result, whatever is observed afterwards.
pub proof fn lemma_ended_run_stays(start: Execution, seen: Seq<(Observation, u64, bool)>)
    requires
        start.state != RunState::Running,
    ensures
        state_after(start, seen) == start.state,
    decreases seen.len(),
{
    if seen.len() > 0 {
        lemma_ended_run_stays(start, seen.drop_last());
    }
}

/// Cancellation comes first: if the cancellation request is seen while the
/// command runs, the run fails with `Killed`, whether or not its time is up
/// and whatever the process did at that moment, and it stays so.
pub proof fn lemma_cancellation_precedence(
    start: Execution,
    before: Seq<(Observation, u64, bool)>,
    observation: Observation,
    elapsed_millis: u64,
    after: Seq<(Observation, u64, bool)>,
)
    requires
        state_after(start, before) == RunState::Running,
    ensures
        state_after(start, before.push((observation, elapsed_millis, true)) + after)
            == RunState::Failed(ExecFailure::Killed),
    decreases after.len(),
{
    let hit = before.push((observation, elapsed_millis, true));
    if after.len() == 0 {
        assert(hit + after =~= hit);
        assert(hit.drop_last() =~= before);
    } else {
        lemma_cancellation_precedence(start, before, observation, elapsed_millis, after.drop_last());
        assert((hit + after).drop_last() =~= hit + after.drop_last());
    }
}

/// The time limit comes before what the process did: an observation made
/// after the limit, while the command runs, fails the run with `Killed`.
pub proof fn lemma_timeout_kills(
    start: Execution,
    before: Seq<(Observation, u64, bool)>,
    observation: Observation,
    elapsed_millis: u64,
    cancelled: bool,
)
    requires
        state_after(start, before) == RunState::Running,
        start.timeout_millis is Some,
        elapsed_millis > start.timeout_millis->0,
    ensures
        state_after(start, before.push((observation, elapsed_millis, cancelled)))
            == RunState::Failed(ExecFailure::Killed),
{
    let hit = before.push((observation, elapsed_millis, cancelled));
    assert(hit.drop_last() =~= before);
}

} // verus!
