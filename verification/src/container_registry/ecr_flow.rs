//! The course of one operation on the registry of AWS: making sure that a
//! repository exists, pushing an image, or pulling one.
//!
//! The registry is reached over the network and through Docker. None of
//! that happens here: `RegistryMachine` says which request it waits for, and
//! takes what the request gave.

use crate::backoff::{Attempt, RetryDriver, RetryPolicy, Verdict};
use crate::build_platform::local_docker::docker_host_envs;
use crate::build_platform::Image;
use crate::cmd::{CommandLine, CommandLineView, ExecError};
use crate::container_registry::docker::{
    docker_pull_steps, docker_tag_and_push_steps, pull_steps, tag_and_push_steps,
};
use crate::container_registry::ecr::{
    credentials_of, lifecycle_policy, lifecycle_policy_text, AuthorizationProbe, ECRCredentials,
    ECRCredentialsView, Repository, ECR,
};
use crate::container_registry::{PullResult, PushResult};
use crate::errors::{CommandError, CommandErrorView, EngineError, EngineErrorView, Tag};
use crate::events::{
    EventDetails, EventMessage, EventMessageView, Level, ProgressKind, ProgressLevel,
};
use crate::notice::{
    application_progress, no_notices, notices, push_notice, safe_log, Notice, NoticeView,
};
use crate::retried::{steps, SequenceFailure, SequenceOutcome, Step, StepView, StopReason};
use crate::text::{concat2, concat3, decimal, decimal_text, push_text, texts};
use vstd::prelude::*;
use vstd::string::*;

verus! {

/// What is asked of the registry.
#[derive(Clone, Copy, Debug, PartialEq, Eq, Structural)]
pub enum RegistryGoal {
    /// Create the repository of the image, whether or not it exists.
    CreateRepository,
    /// Find the repository of the image, and create it where it is missing.
    GetOrCreateRepository,
    /// Pull the image.
    Pull,
    /// Push the image; with `force_push` also where the registry holds it.
    Push { force_push: bool },
}

/// Where an operation stands: the request that it waits for.
#[derive(Clone, Copy, Debug, PartialEq, Eq, Structural)]
pub enum RegistryPhase {
    /// Whether the registry holds the image.
    CheckingImage,
    /// The authorization to log Docker in.
    Authorizing,
    /// The login of Docker.
    LoggingIn,
    /// The repository, where it exists.
    LookingUpRepository,
    /// The repository, while it is being created.
    Describing,
    /// The creation of the repository.
    Creating,
    /// The delay before the repository is looked at again.
    Sleeping,
    /// The retention policy of the repository.
    SettingPolicy,
    /// The repository, once it is created.
    FetchingRepository,
    /// The transfer of the image.
    Transferring,
    /// Nothing: the operation has ended.
    Finished,
}

/// What the registry answered to the request for a repository.
#[derive(Debug)]
pub enum DescribeOutcome {
    /// An answer, with the repository or without.
    Found(Option<Repository>),
    /// The registry has no such repository.
    NotFound,
    /// The request failed; the text says how.
    Failed(String),
}

/// What a request gave.
#[derive(Debug)]
pub enum RegistryEvent {
    /// Whether the registry holds the image.
    ImageDescribed(bool),
    /// What the request for an authorization gave.
    Authorization(AuthorizationProbe),
    /// How the command ended.
    Ran(Result<(), ExecError>),
    /// What the registry answered to the request for the repository.
    Described(DescribeOutcome),
    /// The repository is created, or why it is not.
    Created(Result<(), String>),
    /// The delay has passed.
    Slept,
    /// The retention policy is set, or why it is not.
    PolicySet(Result<(), String>),
    /// How the steps of the transfer ended.
    SequenceEnded(SequenceOutcome),
}

/// The request that an operation waits for.
#[derive(Debug)]
pub enum RegistryRequest {
    /// Ask the registry whether it holds the image with this tag.
    DescribeImage { repository_name: String, image_tag: String },
    /// Ask the registry for an authorization.
    FetchAuthorization,
    /// Run the command.
    Run(CommandLine),
    /// Ask the registry for the repository.
    DescribeRepository { repository_name: String },
    /// Ask the registry to create the repository.
    CreateRepository { repository_name: String },
    /// Wait for so many milliseconds.
    Sleep(u64),
    /// Set the retention policy of the repository.
    PutLifecyclePolicy { repository_name: String, policy_text: String },
    /// Run the steps one after the other, each under its retry policy.
    RunSequence(Vec<Step>),
    /// Nothing: the operation has ended.
    Complete,
}

pub enum RegistryRequestView {
    DescribeImage { repository_name: Seq<char>, image_tag: Seq<char> },
    FetchAuthorization,
    Run(CommandLineView),
    DescribeRepository { repository_name: Seq<char> },
    CreateRepository { repository_name: Seq<char> },
    Sleep(u64),
    PutLifecyclePolicy { repository_name: Seq<char>, policy_text: Seq<char> },
    RunSequence(Seq<StepView>),
    Complete,
}

impl View for RegistryRequest {
    type V = RegistryRequestView;

    open spec fn view(&self) -> RegistryRequestView {
        match *self {
            RegistryRequest::DescribeImage {
                repository_name,
                image_tag,
            } => RegistryRequestView::DescribeImage {
                repository_name: repository_name@,
                image_tag: image_tag@,
            },
            RegistryRequest::FetchAuthorization => RegistryRequestView::FetchAuthorization,
            RegistryRequest::Run(command) => RegistryRequestView::Run(command@),
            RegistryRequest::DescribeRepository {
                repository_name,
            } => RegistryRequestView::DescribeRepository { repository_name: repository_name@ },
            RegistryRequest::CreateRepository {
                repository_name,
            } => RegistryRequestView::CreateRepository { repository_name: repository_name@ },
            RegistryRequest::Sleep(millis) => RegistryRequestView::Sleep(millis),
            RegistryRequest::PutLifecyclePolicy {
                repository_name,
                policy_text,
            } => RegistryRequestView::PutLifecyclePolicy {
                repository_name: repository_name@,
                policy_text: policy_text@,
            },
            RegistryRequest::RunSequence(s) => RegistryRequestView::RunSequence(steps(s@)),
            RegistryRequest::Complete => RegistryRequestView::Complete,
        }
    }
}

/// How an operation ended.
pub enum EndingView {
    /// The repository exists.
    Repository,
    /// The registry holds the image.
    Pushed,
    /// The image was pulled.
    Pulled,
    /// There was nothing to pull: the registry does not hold the image.
    Absent,
    /// The operation failed at a request that is not tried again, or before
    /// its retries were used up.
    Failed(EngineErrorView),
    /// The operation failed after it had used up the retries of its policy.
    Exhausted(EngineErrorView),
}

/// What an operation gave.
#[derive(Debug)]
pub enum RegistryOutcome {
    Repository(Repository),
    Pushed(PushResult),
    Pulled(PullResult),
}

/// How an operation failed: the error, and whether the operation had used
/// up the retries of its policy when it failed. The mark tells a failure
/// after the last retry from a failure that ended the operation at once.
#[derive(Debug)]
pub struct RegistryFailure {
    pub error: EngineError,
    pub exhausted: bool,
}

/// The policy under which the creation of a repository is tried again: a
/// delay of five seconds, 24 retries.
pub open spec fn creation_policy() -> RetryPolicy {
    RetryPolicy { shape: crate::backoff::Backoff::Fixed, base_millis: 5000, retries: 24 }
}

/// An operation in progress, as the contracts see it.
pub struct RegistryState {
    pub registry: ECR,
    pub image: Image,
    pub goal: RegistryGoal,
    pub phase: RegistryPhase,
    /// What Docker logs in with, once the registry has handed it out.
    pub credentials: Option<ECRCredentialsView>,
    /// The repository, once it is known.
    pub repository: Option<Repository>,
    /// The delays that are left to the creation, and how many are used.
    pub delays: Seq<u64>,
    pub used: nat,
    /// The delay that is being waited for.
    pub pending_delay: u64,
    /// How often the registry has said that the repository is not there.
    pub misses: u64,
    pub ending: Option<EndingView>,
}

impl RegistryState {
    /// The phase in which an operation with this goal begins.
    pub open spec fn first_phase(goal: RegistryGoal) -> RegistryPhase {
        match goal {
            RegistryGoal::CreateRepository => RegistryPhase::Describing,
            RegistryGoal::GetOrCreateRepository => RegistryPhase::LookingUpRepository,
            RegistryGoal::Pull => RegistryPhase::CheckingImage,
            RegistryGoal::Push { .. } => RegistryPhase::Authorizing,
        }
    }

    /// An operation before its first request.
    pub open spec fn initial(registry: ECR, image: Image, goal: RegistryGoal) -> RegistryState {
        RegistryState {
            registry,
            image,
            goal,
            phase: Self::first_phase(goal),
            credentials: None,
            repository: None,
            delays: creation_policy().spec_delays(),
            used: 0,
            pending_delay: 0,
            misses: 0,
            ending: None,
        }
    }

    /// What is told when an operation with this goal begins.
    pub open spec fn opening(registry: ECR, image: Image, goal: RegistryGoal) -> Seq<NoticeView> {
        if goal == RegistryGoal::CreateRepository {
            seq![Self::initial(registry, image, goal).creating_notice()]
        } else {
            Seq::empty()
        }
    }

    pub open spec fn details(self) -> EventDetails {
        self.registry.spec_event_details()
    }

    /// The address of the repository; nothing while it is not known.
    pub open spec fn uri(self) -> Seq<char> {
        match self.repository {
            Some(repository) => match repository.repository_uri {
                Some(uri) => uri@,
                None => Seq::empty(),
            },
            None => Seq::empty(),
        }
    }

    /// The place of the image in the repository.
    pub open spec fn dest(self) -> Seq<char> {
        self.uri() + ":"@ + self.image.tag@
    }

    /// The place of the newest image in the repository.
    pub open spec fn dest_latest(self) -> Seq<char> {
        self.uri() + ":latest"@
    }

    /// What Docker logs in with; nothing while it is not known.
    pub open spec fn login(self) -> ECRCredentialsView {
        match self.credentials {
            Some(c) => c,
            None => ECRCredentialsView {
                access_token: Seq::empty(),
                password: Seq::empty(),
                endpoint_url: Seq::empty(),
            },
        }
    }

    pub open spec fn login_command(self) -> CommandLineView {
        CommandLineView {
            binary: "docker"@,
            args: seq![
                "login"@,
                "-u"@,
                self.login().access_token,
                "-p"@,
                self.login().password,
                self.login().endpoint_url,
            ],
            envs: docker_host_envs(&self.registry.context),
            timeout_minutes: None,
        }
    }

    /// The steps of the transfer: the pull of the image, or tagging and
    /// pushing it under its tag and then as the newest.
    pub open spec fn transfer_steps(self) -> Seq<StepView> {
        if self.goal == RegistryGoal::Pull {
            pull_steps(docker_host_envs(&self.registry.context), self.dest())
        } else {
            tag_and_push_steps(
                docker_host_envs(&self.registry.context),
                self.image.name@,
                self.image.tag@,
                self.dest(),
            ) + tag_and_push_steps(
                docker_host_envs(&self.registry.context),
                self.image.name@,
                self.image.tag@,
                self.dest_latest(),
            )
        }
    }

    /// The number of days after which images expire.
    pub open spec fn retention_days(self) -> u32 {
        if self.registry.context.test_cluster {
            1
        } else {
            365
        }
    }

    /// The request that the operation waits for.
    pub open spec fn pending(self) -> RegistryRequestView {
        match self.phase {
            RegistryPhase::CheckingImage => RegistryRequestView::DescribeImage {
                repository_name: self.image.name@,
                image_tag: self.image.tag@,
            },
            RegistryPhase::Authorizing => RegistryRequestView::FetchAuthorization,
            RegistryPhase::LoggingIn => RegistryRequestView::Run(self.login_command()),
            RegistryPhase::LookingUpRepository => RegistryRequestView::DescribeRepository {
                repository_name: self.image.name@,
            },
            RegistryPhase::Describing => RegistryRequestView::DescribeRepository {
                repository_name: self.image.name@,
            },
            RegistryPhase::Creating => RegistryRequestView::CreateRepository {
                repository_name: self.image.name@,
            },
            RegistryPhase::Sleeping => RegistryRequestView::Sleep(self.pending_delay),
            RegistryPhase::SettingPolicy => RegistryRequestView::PutLifecyclePolicy {
                repository_name: self.image.name@,
                policy_text: lifecycle_policy_text(self.retention_days()),
            },
            RegistryPhase::FetchingRepository => RegistryRequestView::DescribeRepository {
                repository_name: self.image.name@,
            },
            RegistryPhase::Transferring => RegistryRequestView::RunSequence(self.transfer_steps()),
            RegistryPhase::Finished => RegistryRequestView::Complete,
        }
    }

    pub open spec fn to(self, phase: RegistryPhase) -> RegistryState {
        RegistryState { phase, ..self }
    }

    pub open spec fn end(self, ending: EndingView) -> RegistryState {
        RegistryState { phase: RegistryPhase::Finished, ending: Some(ending), ..self }
    }

    pub open spec fn fail(self, error: EngineErrorView) -> (RegistryState, Seq<NoticeView>) {
        (self.end(EndingView::Failed(error)), Seq::empty())
    }

    /// The operation, failed with `error` after its retries were used up.
    pub open spec fn exhaust(self, error: EngineErrorView) -> (RegistryState, Seq<NoticeView>) {
        (self.end(EndingView::Exhausted(error)), Seq::empty())
    }

    /// The two notices with the same text: one for the log, and one for the
    /// listeners of the application of the image.
    pub open spec fn told(self, text: Seq<char>) -> Seq<NoticeView> {
        seq![
            safe_log(Level::Info, self.details(), text),
            application_progress(
                ProgressKind::DeploymentInProgress,
                self.image.application_id@,
                ProgressLevel::Info,
                text,
                self.registry.context.execution_id@,
            ),
        ]
    }

    pub open spec fn creating_notice(self) -> NoticeView {
        safe_log(Level::Info, self.details(), "Creating ECR repository "@ + self.image.name@)
    }

    pub open spec fn uploading_text(self) -> Seq<char> {
        "image `"@ + self.image.spec_name_with_tag() + "` does not exist on ECR "@
            + self.registry.name@ + " repository, starting image upload"@
    }

    pub open spec fn namespace_error(self, cause: CommandErrorView) -> EngineErrorView {
        EngineError::described(
            Tag::ContainerRegistryNamespaceCreationError,
            self.details(),
            "Error, trying to create registry `"@ + self.image.name@ + "` in namespace `"@
                + self.registry.spec_name_with_id() + "`."@,
            Some(cause),
            None,
        )
    }

    pub open spec fn policy_error(self, why: Seq<char>) -> EngineErrorView {
        EngineError::described(
            Tag::ContainerRegistryRepositorySetLifecycleError,
            self.details(),
            "Error, trying to set lifecycle policy repository `"@ + self.image.name@ + "`."@,
            Some(CommandErrorView { message: why, message_safe: Some(why) }),
            None,
        )
    }

    /// The error of a transfer that failed as `f` says.
    pub open spec fn transfer_error(self, f: SequenceFailure) -> EngineErrorView {
        if self.goal == RegistryGoal::Pull {
            self.registry.pull_image_error(&self.image, self.dest(), f)
        } else {
            self.registry.push_image_error(&self.image, self.dest(), f)
        }
    }

    /// The operation as it goes on to create the repository.
    pub open spec fn begin_creation(self) -> (RegistryState, Seq<NoticeView>) {
        (self.to(RegistryPhase::Describing), seq![self.creating_notice()])
    }

    /// The operation once the repository is known: it ends where the
    /// repository was all that was asked for, and goes on to the image
    /// otherwise. A repository without an address cannot be pushed to or
    /// pulled from.
    pub open spec fn have_repository(self, repository: Repository) -> (
        RegistryState,
        Seq<NoticeView>,
    ) {
        let known = RegistryState { repository: Some(repository), ..self };
        match self.goal {
            RegistryGoal::CreateRepository => (known.end(EndingView::Repository), Seq::empty()),
            RegistryGoal::GetOrCreateRepository => (known.end(EndingView::Repository), Seq::empty()),
            RegistryGoal::Pull => if repository.repository_uri is None {
                known.fail(
                    known.namespace_error(crate::errors::raw_cause("repository has no URI"@)),
                )
            } else {
                (known.to(RegistryPhase::Transferring), Seq::empty())
            },
            RegistryGoal::Push { force_push } => if repository.repository_uri is None {
                known.fail(
                    known.namespace_error(crate::errors::raw_cause("repository has no URI"@)),
                )
            } else if force_push {
                (known.to(RegistryPhase::Transferring), known.told(known.uploading_text()))
            } else {
                (known.to(RegistryPhase::CheckingImage), Seq::empty())
            },
        }
    }

    /// What the creation of the repository said, as the cause of an error.
    pub open spec fn creation_cause(self, created: Result<(), String>) -> CommandErrorView {
        CommandErrorView {
            message: match created {
                Ok(_) => "repository "@ + self.image.name@ + " created"@,
                Err(why) => why@,
            },
            message_safe: Some("Can't create ECR repository"@),
        }
    }

    /// What becomes of the operation when `event` is reported, and what is
    /// told on that occasion. An event that does not answer the request that
    /// the operation waits for changes nothing.
    pub open spec fn transition(self, event: RegistryEvent) -> (RegistryState, Seq<NoticeView>) {
        match (self.phase, event) {
            (RegistryPhase::CheckingImage, RegistryEvent::ImageDescribed(exists)) => self.on_image(
                exists,
            ),
            (RegistryPhase::Authorizing, RegistryEvent::Authorization(probe)) => match credentials_of(
                probe,
            ) {
                Some(c) => (
                    RegistryState { credentials: Some(c), phase: RegistryPhase::LoggingIn, ..self },
                    Seq::empty(),
                ),
                None => self.fail(self.registry.credentials_error()),
            },
            (RegistryPhase::LoggingIn, RegistryEvent::Ran(outcome)) => if outcome is Ok {
                if self.goal == (RegistryGoal::Push { force_push: true }) {
                    self.begin_creation()
                } else {
                    (self.to(RegistryPhase::LookingUpRepository), Seq::empty())
                }
            } else {
                self.fail(self.registry.invalid_credentials())
            },
            (RegistryPhase::LookingUpRepository, RegistryEvent::Described(outcome)) => match outcome {
                DescribeOutcome::Found(Some(repository)) => (
                    self.have_repository(repository).0,
                    seq![
                        safe_log(
                            Level::Info,
                            self.details(),
                            "ECR repository "@ + self.image.name@ + " already exists"@,
                        ),
                    ] + self.have_repository(repository).1,
                ),
                _ => self.begin_creation(),
            },
            (RegistryPhase::Describing, RegistryEvent::Described(outcome)) => self.on_describe(
                outcome,
            ),
            (RegistryPhase::Creating, RegistryEvent::Created(created)) => if self.used
                < self.delays.len() {
                (
                    RegistryState {
                        used: self.used + 1,
                        pending_delay: self.delays[self.used as int],
                        phase: RegistryPhase::Sleeping,
                        ..self
                    },
                    Seq::empty(),
                )
            } else {
                self.exhaust(self.namespace_error(self.creation_cause(created)))
            },
            (RegistryPhase::Sleeping, RegistryEvent::Slept) => (
                self.to(RegistryPhase::Describing),
                Seq::empty(),
            ),
            (RegistryPhase::SettingPolicy, RegistryEvent::PolicySet(set)) => match set {
                Ok(_) => (self.to(RegistryPhase::FetchingRepository), Seq::empty()),
                Err(why) => self.fail(self.policy_error(why@)),
            },
            (RegistryPhase::FetchingRepository, RegistryEvent::Described(outcome)) => match outcome {
                DescribeOutcome::Found(Some(repository)) => self.have_repository(repository),
                _ => self.fail(
                    self.namespace_error(crate::errors::raw_cause("cannot get repository"@)),
                ),
            },
            (RegistryPhase::Transferring, RegistryEvent::SequenceEnded(outcome)) => match outcome {
                Ok(_) => (
                    self.end(
                        if self.goal == RegistryGoal::Pull {
                            EndingView::Pulled
                        } else {
                            EndingView::Pushed
                        },
                    ),
                    Seq::empty(),
                ),
                Err(f) => if f.reason == StopReason::RetriesExhausted {
                    self.exhaust(self.transfer_error(f))
                } else {
                    self.fail(self.transfer_error(f))
                },
            },
            _ => (self, Seq::empty()),
        }
    }

    /// What follows the answer to whether the registry holds the image. A
    /// pull of an image that is not there ends with nothing pulled. A push of
    /// an image that is there ends without a transfer.
    pub open spec fn on_image(self, exists: bool) -> (RegistryState, Seq<NoticeView>) {
        match self.goal {
            RegistryGoal::Pull => if exists {
                (
                    self.to(RegistryPhase::Authorizing),
                    self.told(
                        "pull image `\""@ + self.image.spec_name_with_tag() + "\"` from ECR "@
                            + self.registry.name@ + " repository"@,
                    ),
                )
            } else {
                (
                    self.end(EndingView::Absent),
                    self.told(
                        "image `"@ + self.image.spec_name_with_tag() + "` does not exist in ECR "@
                            + self.registry.name@ + " repository"@,
                    ),
                )
            },
            RegistryGoal::Push { .. } => if exists {
                (
                    self.end(EndingView::Pushed),
                    self.told(
                        "image "@ + self.image.spec_name_with_tag() + " found on ECR "@
                            + self.registry.name@
                            + " repository, container build is not required"@,
                    ),
                )
            } else {
                (self.to(RegistryPhase::Transferring), self.told(self.uploading_text()))
            },
            _ => (self, Seq::empty()),
        }
    }

    /// What follows the answer to the request for the repository while it is
    /// being created: an answer means that the repository is there, and the
    /// retention policy is set next; anything else is followed by a request to
    /// create it.
    pub open spec fn on_describe(self, outcome: DescribeOutcome) -> (RegistryState, Seq<NoticeView>) {
        match outcome {
            DescribeOutcome::Found(_) => (
                self.to(RegistryPhase::SettingPolicy),
                seq![
                    safe_log(
                        Level::Info,
                        self.details(),
                        "repository "@ + self.image.name@ + " created after "@ + decimal(
                            self.misses as nat,
                        ) + " attempt(s)"@,
                    ),
                ],
            ),
            DescribeOutcome::NotFound => (
                RegistryState {
                    misses: if self.misses < u64::MAX {
                        (self.misses + 1) as u64
                    } else {
                        self.misses
                    },
                    phase: RegistryPhase::Creating,
                    ..self
                },
                if self.misses != 0 {
                    seq![
                        safe_log(
                            Level::Warning,
                            self.details(),
                            "Repository "@ + self.image.name@ + " was not found, "@ + decimal(
                                self.misses as nat,
                            ) + "x retrying..."@,
                        ),
                    ]
                } else {
                    Seq::empty()
                },
            ),
            DescribeOutcome::Failed(why) => (
                self.to(RegistryPhase::Creating),
                seq![
                    NoticeView::Log {
                        level: Level::Warning,
                        details: self.details(),
                        message: EventMessageView {
                            raw: "Error while trying to create repository."@,
                            safe: Some(why@),
                        },
                    },
                ],
            ),
        }
    }
}

/// How an operation ended.
#[derive(Debug)]
pub enum Ending {
    Repository,
    Pushed,
    Pulled,
    Absent,
    Failed(EngineError),
    Exhausted(EngineError),
}

impl View for Ending {
    type V = EndingView;

    open spec fn view(&self) -> EndingView {
        match *self {
            Ending::Repository => EndingView::Repository,
            Ending::Pushed => EndingView::Pushed,
            Ending::Pulled => EndingView::Pulled,
            Ending::Absent => EndingView::Absent,
            Ending::Failed(e) => EndingView::Failed(e@),
            Ending::Exhausted(e) => EndingView::Exhausted(e@),
        }
    }
}

/// One operation on the registry, from the request to its result.
#[derive(Debug)]
pub struct RegistryMachine {
    registry: ECR,
    image: Image,
    goal: RegistryGoal,
    phase: RegistryPhase,
    credentials: Option<ECRCredentials>,
    repository: Option<Repository>,
    driver: Option<RetryDriver>,
    pending_delay: u64,
    misses: u64,
    ending: Option<Ending>,
}

impl View for RegistryMachine {
    type V = RegistryState;

    closed spec fn view(&self) -> RegistryState {
        RegistryState {
            registry: self.registry,
            image: self.image,
            goal: self.goal,
            phase: self.phase,
            credentials: match self.credentials {
                Some(c) => Some(c@),
                None => None,
            },
            repository: self.repository,
            delays: match self.driver {
                Some(d) => d.delays@,
                None => Seq::empty(),
            },
            used: match self.driver {
                Some(d) => d.used as nat,
                None => 0,
            },
            pending_delay: self.pending_delay,
            misses: self.misses,
            ending: match self.ending {
                Some(e) => Some(e@),
                None => None,
            },
        }
    }
}

/// The repository of which nothing is known.
pub open spec fn unknown_repository() -> Repository {
    Repository { repository_name: None, repository_uri: None }
}

impl RegistryMachine {
    /// An operation with the goal `goal` for `image` on `registry`, and what
    /// is told when it begins.
    pub fn new(registry: ECR, image: Image, goal: RegistryGoal) -> (r: (Self, Vec<Notice>))
        ensures
            r.0@ == RegistryState::initial(registry, image, goal),
            notices(r.1@) == RegistryState::opening(registry, image, goal),
    {
        let phase = match goal {
            RegistryGoal::CreateRepository => RegistryPhase::Describing,
            RegistryGoal::GetOrCreateRepository => RegistryPhase::LookingUpRepository,
            RegistryGoal::Pull => RegistryPhase::CheckingImage,
            RegistryGoal::Push { .. } => RegistryPhase::Authorizing,
        };
        let machine = RegistryMachine {
            registry,
            image,
            goal,
            phase,
            credentials: None,
            repository: None,
            driver: Some(RetryPolicy::fixed(5000, 24).start()),
            pending_delay: 0,
            misses: 0,
            ending: None,
        };
        let mut out = no_notices();
        if goal == RegistryGoal::CreateRepository {
            push_notice(&mut out, machine.creating_notice());
            assert(notices(out@) =~= RegistryState::opening(registry, image, goal));
        }
        (machine, out)
    }

    /// Where the operation stands.
    pub fn phase(&self) -> (r: RegistryPhase)
        ensures
            r == self@.phase,
    {
        self.phase
    }

    /// Whether the operation has ended.
    pub fn is_finished(&self) -> (r: bool)
        ensures
            r == (self@.phase == RegistryPhase::Finished),
    {
        self.phase == RegistryPhase::Finished
    }

    fn details(&self) -> (r: EventDetails)
        ensures
            r == self@.details(),
    {
        self.registry.get_event_details()
    }

    fn creating_notice(&self) -> (r: Notice)
        ensures
            r@ == self@.creating_notice(),
    {
        Notice::log(
            Level::Info,
            self.details(),
            concat2("Creating ECR repository ", self.image.name.as_str()),
        )
    }

    fn uri(&self) -> (r: String)
        ensures
            r@ == self@.uri(),
    {
        match &self.repository {
            Some(repository) => match &repository.repository_uri {
                Some(uri) => uri.clone(),
                None => String::new(),
            },
            None => String::new(),
        }
    }

    fn dest(&self) -> (r: String)
        ensures
            r@ == self@.dest(),
    {
        concat3(self.uri().as_str(), ":", self.image.tag.as_str())
    }

    fn dest_latest(&self) -> (r: String)
        ensures
            r@ == self@.dest_latest(),
    {
        concat2(self.uri().as_str(), ":latest")
    }

    #[verifier::rlimit(40)]
    fn login_command(&self) -> (r: CommandLine)
        ensures
            r@ == self@.login_command(),
    {
        let mut args: Vec<String> = Vec::new();
        assert(texts(args@) =~= Seq::<Seq<char>>::empty());
        push_text(&mut args, "login");
        push_text(&mut args, "-u");
        match &self.credentials {
            Some(c) => {
                push_text(&mut args, c.access_token.as_str());
                push_text(&mut args, "-p");
                push_text(&mut args, c.password.as_str());
                push_text(&mut args, c.endpoint_url.as_str());
            },
            None => {
                push_text(&mut args, "");
                push_text(&mut args, "-p");
                push_text(&mut args, "");
                push_text(&mut args, "");
                proof {
                    reveal_strlit("");
                    assert(""@ =~= Seq::<char>::empty());
                }
            },
        }
        assert(texts(args@) =~= self@.login_command().args);
        CommandLine::new("docker", args, self.registry.docker_envs())
    }

    #[verifier::rlimit(40)]
    fn transfer_steps(&self) -> (r: Vec<Step>)
        ensures
            steps(r@) == self@.transfer_steps(),
    {
        let envs = self.registry.docker_envs();
        if self.goal == RegistryGoal::Pull {
            docker_pull_steps(&envs, self.dest().as_str())
        } else {
            let mut first = docker_tag_and_push_steps(
                &envs,
                self.image.name.as_str(),
                self.image.tag.as_str(),
                self.dest().as_str(),
            );
            let mut second = docker_tag_and_push_steps(
                &envs,
                self.image.name.as_str(),
                self.image.tag.as_str(),
                self.dest_latest().as_str(),
            );
            let ghost a = first@;
            let ghost b = second@;
            first.append(&mut second);
            assert(steps(first@) =~= steps(a) + steps(b));
            first
        }
    }

    /// The request that the operation waits for. The caller makes it and
    /// hands what it gave to `absorb`.
    #[verifier::rlimit(40)]
    pub fn pending(&self) -> (r: RegistryRequest)
        ensures
            r@ == self@.pending(),
    {
        match self.phase {
            RegistryPhase::CheckingImage => RegistryRequest::DescribeImage {
                repository_name: self.image.name.clone(),
                image_tag: self.image.tag.clone(),
            },
            RegistryPhase::Authorizing => RegistryRequest::FetchAuthorization,
            RegistryPhase::LoggingIn => RegistryRequest::Run(self.login_command()),
            RegistryPhase::LookingUpRepository => RegistryRequest::DescribeRepository {
                repository_name: self.image.name.clone(),
            },
            RegistryPhase::Describing => RegistryRequest::DescribeRepository {
                repository_name: self.image.name.clone(),
            },
            RegistryPhase::Creating => RegistryRequest::CreateRepository {
                repository_name: self.image.name.clone(),
            },
            RegistryPhase::Sleeping => RegistryRequest::Sleep(self.pending_delay),
            RegistryPhase::SettingPolicy => RegistryRequest::PutLifecyclePolicy {
                repository_name: self.image.name.clone(),
                policy_text: lifecycle_policy(self.registry.retention_policy_in_days()),
            },
            RegistryPhase::FetchingRepository => RegistryRequest::DescribeRepository {
                repository_name: self.image.name.clone(),
            },
            RegistryPhase::Transferring => RegistryRequest::RunSequence(self.transfer_steps()),
            RegistryPhase::Finished => RegistryRequest::Complete,
        }
    }

    fn finish(&mut self, ending: Ending)
        ensures
            final(self)@ == old(self)@.end(ending@),
    {
        self.phase = RegistryPhase::Finished;
        self.ending = Some(ending);
    }

    fn tell(&self, text: String, out: &mut Vec<Notice>)
        ensures
            notices(final(out)@) == notices(old(out)@) + self@.told(text@),
    {
        let copy = text.clone();
        push_notice(out, Notice::log(Level::Info, self.details(), text));
        push_notice(
            out,
            Notice::progress(
                ProgressKind::DeploymentInProgress,
                self.image.application_id.as_str(),
                ProgressLevel::Info,
                copy,
                self.registry.context.execution_id.as_str(),
            ),
        );
        assert(notices(out@) =~= notices(old(out)@) + self@.told(text@));
    }

    fn uploading_text(&self) -> (r: String)
        ensures
            r@ == self@.uploading_text(),
    {
        let mut text = String::from_str("image `");
        text.append(self.image.name_with_tag().as_str());
        text.append("` does not exist on ECR ");
        text.append(self.registry.name.as_str());
        text.append(" repository, starting image upload");
        text
    }

    fn namespace_error(&self, cause: CommandError) -> (r: EngineError)
        ensures
            r@ == self@.namespace_error(cause@),
    {
        EngineError::new_container_registry_namespace_creation_error(
            self.details(),
            self.image.name.as_str(),
            self.registry.name_with_id().as_str(),
            cause,
        )
    }

    fn begin_creation(&mut self, out: &mut Vec<Notice>)
        ensures
            final(self)@ == old(self)@.begin_creation().0,
            notices(final(out)@) == notices(old(out)@) + old(self)@.begin_creation().1,
    {
        push_notice(out, self.creating_notice());
        self.phase = RegistryPhase::Describing;
        assert(notices(out@) =~= notices(old(out)@) + old(self)@.begin_creation().1);
    }

    #[verifier::rlimit(40)]
    fn have_repository(&mut self, repository: Repository, out: &mut Vec<Notice>)
        ensures
            final(self)@ == old(self)@.have_repository(repository).0,
            notices(final(out)@) == notices(old(out)@) + old(self)@.have_repository(repository).1,
    {
        let has_uri = repository.repository_uri.is_some();
        self.repository = Some(repository);
        match self.goal {
            RegistryGoal::CreateRepository => {
                self.finish(Ending::Repository);
            },
            RegistryGoal::GetOrCreateRepository => {
                self.finish(Ending::Repository);
            },
            RegistryGoal::Pull => {
                if !has_uri {
                    let error = self.namespace_error(
                        CommandError::new(String::from_str("repository has no URI"), None),
                    );
                    self.finish(Ending::Failed(error));
                } else {
                    self.phase = RegistryPhase::Transferring;
                }
            },
            RegistryGoal::Push { force_push } => {
                if !has_uri {
                    let error = self.namespace_error(
                        CommandError::new(String::from_str("repository has no URI"), None),
                    );
                    self.finish(Ending::Failed(error));
                } else if force_push {
                    let text = self.uploading_text();
                    self.tell(text, out);
                    self.phase = RegistryPhase::Transferring;
                } else {
                    self.phase = RegistryPhase::CheckingImage;
                }
            },
        }
        assert(notices(out@) =~= notices(old(out)@) + old(self)@.have_repository(repository).1);
    }

    #[verifier::rlimit(40)]
    fn on_image(&mut self, exists: bool) -> (told: Vec<Notice>)
        requires
            old(self)@.phase == RegistryPhase::CheckingImage,
        ensures
            final(self)@ == old(self)@.transition(RegistryEvent::ImageDescribed(exists)).0,
            notices(told@) == old(self)@.transition(RegistryEvent::ImageDescribed(exists)).1,
    {
        let mut out = no_notices();
        match self.goal {
            RegistryGoal::Pull => {
                if exists {
                    let mut text = String::from_str("pull image `\"");
                    text.append(self.image.name_with_tag().as_str());
                    text.append("\"` from ECR ");
                    text.append(self.registry.name.as_str());
                    text.append(" repository");
                    self.tell(text, &mut out);
                    self.phase = RegistryPhase::Authorizing;
                } else {
                    let mut text = String::from_str("image `");
                    text.append(self.image.name_with_tag().as_str());
                    text.append("` does not exist in ECR ");
                    text.append(self.registry.name.as_str());
                    text.append(" repository");
                    self.tell(text, &mut out);
                    self.finish(Ending::Absent);
                }
            },
            RegistryGoal::Push { .. } => {
                if exists {
                    let mut text = String::from_str("image ");
                    text.append(self.image.name_with_tag().as_str());
                    text.append(" found on ECR ");
                    text.append(self.registry.name.as_str());
                    text.append(" repository, container build is not required");
                    self.tell(text, &mut out);
                    self.finish(Ending::Pushed);
                } else {
                    let text = self.uploading_text();
                    self.tell(text, &mut out);
                    self.phase = RegistryPhase::Transferring;
                }
            },
            _ => {},
        }
        assert(notices(out@) =~= old(self)@.transition(RegistryEvent::ImageDescribed(exists)).1);
        out
    }

    #[verifier::rlimit(40)]
    fn on_authorization(&mut self, probe: AuthorizationProbe) -> (told: Vec<Notice>)
        requires
            old(self)@.phase == RegistryPhase::Authorizing,
        ensures
            final(self)@ == old(self)@.transition(RegistryEvent::Authorization(probe)).0,
            notices(told@) == old(self)@.transition(RegistryEvent::Authorization(probe)).1,
    {
        match self.registry.get_credentials(probe) {
            Ok(c) => {
                self.credentials = Some(c);
                self.phase = RegistryPhase::LoggingIn;
            },
            Err(e) => {
                self.finish(Ending::Failed(e));
            },
        }
        no_notices()
    }

    #[verifier::rlimit(40)]
    fn on_login(&mut self, outcome: Result<(), ExecError>) -> (told: Vec<Notice>)
        requires
            old(self)@.phase == RegistryPhase::LoggingIn,
        ensures
            final(self)@ == old(self)@.transition(RegistryEvent::Ran(outcome)).0,
            notices(told@) == old(self)@.transition(RegistryEvent::Ran(outcome)).1,
    {
        let mut out = no_notices();
        match self.registry.exec_docker_login(&outcome) {
            Ok(_) => {
                if self.goal == (RegistryGoal::Push { force_push: true }) {
                    self.begin_creation(&mut out);
                    assert(notices(out@) =~= old(self)@.transition(RegistryEvent::Ran(outcome)).1);
                } else {
                    self.phase = RegistryPhase::LookingUpRepository;
                }
            },
            Err(e) => {
                self.finish(Ending::Failed(e));
            },
        }
        out
    }

    #[verifier::rlimit(40)]
    fn on_lookup(&mut self, outcome: DescribeOutcome) -> (told: Vec<Notice>)
        requires
            old(self)@.phase == RegistryPhase::LookingUpRepository,
        ensures
            final(self)@ == old(self)@.transition(RegistryEvent::Described(outcome)).0,
            notices(told@) == old(self)@.transition(RegistryEvent::Described(outcome)).1,
    {
        let mut out = no_notices();
        match outcome {
            DescribeOutcome::Found(Some(repository)) => {
                push_notice(
                    &mut out,
                    Notice::log(
                        Level::Info,
                        self.details(),
                        concat3("ECR repository ", self.image.name.as_str(), " already exists"),
                    ),
                );
                self.have_repository(repository, &mut out);
            },
            _ => {
                self.begin_creation(&mut out);
            },
        }
        assert(notices(out@) =~= old(self)@.transition(RegistryEvent::Described(outcome)).1);
        out
    }

    #[verifier::rlimit(40)]
    fn on_describe(&mut self, outcome: DescribeOutcome) -> (told: Vec<Notice>)
        requires
            old(self)@.phase == RegistryPhase::Describing,
        ensures
            final(self)@ == old(self)@.transition(RegistryEvent::Described(outcome)).0,
            notices(told@) == old(self)@.transition(RegistryEvent::Described(outcome)).1,
    {
        let mut out = no_notices();
        match outcome {
            DescribeOutcome::Found(_) => {
                let mut text = String::from_str("repository ");
                text.append(self.image.name.as_str());
                text.append(" created after ");
                text.append(decimal_text(self.misses).as_str());
                text.append(" attempt(s)");
                push_notice(&mut out, Notice::log(Level::Info, self.details(), text));
                self.phase = RegistryPhase::SettingPolicy;
            },
            DescribeOutcome::NotFound => {
                if self.misses != 0 {
                    let mut text = String::from_str("Repository ");
                    text.append(self.image.name.as_str());
                    text.append(" was not found, ");
                    text.append(decimal_text(self.misses).as_str());
                    text.append("x retrying...");
                    push_notice(&mut out, Notice::log(Level::Warning, self.details(), text));
                }
                if self.misses < u64::MAX {
                    self.misses = self.misses + 1;
                }
                self.phase = RegistryPhase::Creating;
            },
            DescribeOutcome::Failed(why) => {
                push_notice(
                    &mut out,
                    Notice::Log {
                        level: Level::Warning,
                        details: self.details(),
                        message: EventMessage::new(
                            String::from_str("Error while trying to create repository."),
                            Some(why),
                        ),
                    },
                );
                self.phase = RegistryPhase::Creating;
            },
        }
        assert(notices(out@) =~= old(self)@.transition(RegistryEvent::Described(outcome)).1);
        out
    }

    #[verifier::rlimit(40)]
    fn on_created(&mut self, created: Result<(), String>) -> (told: Vec<Notice>)
        requires
            old(self)@.phase == RegistryPhase::Creating,
        ensures
            final(self)@ == old(self)@.transition(RegistryEvent::Created(created)).0,
            notices(told@) == old(self)@.transition(RegistryEvent::Created(created)).1,
    {
        let message = match created {
            Ok(_) => concat3("repository ", self.image.name.as_str(), " created"),
            Err(why) => why,
        };
        let error = self.namespace_error(
            CommandError::new(message, Some(String::from_str("Can't create ECR repository"))),
        );
        let can_retry = match &self.driver {
            Some(driver) => driver.used < driver.delays.len(),
            None => false,
        };
        if !can_retry {
            self.finish(Ending::Exhausted(error));
            return no_notices();
        }
        if let Some(driver) = self.driver.take() {
            if let Verdict::Retry { after_millis, error, next } = driver.record::<(), EngineError>(
                Attempt::Again(error),
            ) {
                self.driver = Some(next);
                self.pending_delay = after_millis;
                self.phase = RegistryPhase::Sleeping;
            }
        }
        no_notices()
    }

    #[verifier::rlimit(40)]
    fn on_policy(&mut self, set: Result<(), String>) -> (told: Vec<Notice>)
        requires
            old(self)@.phase == RegistryPhase::SettingPolicy,
        ensures
            final(self)@ == old(self)@.transition(RegistryEvent::PolicySet(set)).0,
            notices(told@) == old(self)@.transition(RegistryEvent::PolicySet(set)).1,
    {
        match set {
            Ok(_) => {
                self.phase = RegistryPhase::FetchingRepository;
            },
            Err(why) => {
                let error = EngineError::new_container_registry_repository_set_lifecycle_policy_error(
                    self.details(),
                    self.image.name.as_str(),
                    CommandError::new_from_safe_message(why),
                );
                self.finish(Ending::Failed(error));
            },
        }
        no_notices()
    }

    #[verifier::rlimit(40)]
    fn on_fetch(&mut self, outcome: DescribeOutcome) -> (told: Vec<Notice>)
        requires
            old(self)@.phase == RegistryPhase::FetchingRepository,
        ensures
            final(self)@ == old(self)@.transition(RegistryEvent::Described(outcome)).0,
            notices(told@) == old(self)@.transition(RegistryEvent::Described(outcome)).1,
    {
        let mut out = no_notices();
        match outcome {
            DescribeOutcome::Found(Some(repository)) => {
                self.have_repository(repository, &mut out);
            },
            _ => {
                let error = self.namespace_error(
                    CommandError::new(String::from_str("cannot get repository"), None),
                );
                self.finish(Ending::Failed(error));
            },
        }
        assert(notices(out@) =~= old(self)@.transition(RegistryEvent::Described(outcome)).1);
        out
    }

    #[verifier::rlimit(40)]
    fn on_transfer(&mut self, outcome: SequenceOutcome) -> (told: Vec<Notice>)
        requires
            old(self)@.phase == RegistryPhase::Transferring,
        ensures
            final(self)@ == old(self)@.transition(RegistryEvent::SequenceEnded(outcome)).0,
            notices(told@) == old(self)@.transition(RegistryEvent::SequenceEnded(outcome)).1,
    {
        match outcome {
            Ok(_) => {
                if self.goal == RegistryGoal::Pull {
                    self.finish(Ending::Pulled);
                } else {
                    self.finish(Ending::Pushed);
                }
            },
            Err(f) => {
                let dest = self.dest();
                let exhausted = f.reason == StopReason::RetriesExhausted;
                let failed = if self.goal == RegistryGoal::Pull {
                    match self.registry.pull_image(dest, &self.image, Err(f)) {
                        Err(error) => Some(error),
                        Ok(_) => None,
                    }
                } else {
                    match self.registry.push_image(dest, &self.image, Err(f)) {
                        Err(error) => Some(error),
                        Ok(_) => None,
                    }
                };
                if let Some(error) = failed {
                    if exhausted {
                        self.finish(Ending::Exhausted(error));
                    } else {
                        self.finish(Ending::Failed(error));
                    }
                }
            },
        }
        no_notices()
    }

    /// Takes what a request gave. An event that does not answer the request
    /// that the operation waits for is ignored. Returns what is to be told,
    /// in order.
    #[verifier::rlimit(40)]
    pub fn absorb(&mut self, event: RegistryEvent) -> (told: Vec<Notice>)
        ensures
            final(self)@ == old(self)@.transition(event).0,
            notices(told@) == old(self)@.transition(event).1,
    {
        match (self.phase, event) {
            (RegistryPhase::CheckingImage, RegistryEvent::ImageDescribed(exists)) => self.on_image(
                exists,
            ),
            (RegistryPhase::Authorizing, RegistryEvent::Authorization(probe)) => {
                self.on_authorization(probe)
            },
            (RegistryPhase::LoggingIn, RegistryEvent::Ran(outcome)) => self.on_login(outcome),
            (RegistryPhase::LookingUpRepository, RegistryEvent::Described(outcome)) => {
                self.on_lookup(outcome)
            },
            (RegistryPhase::Describing, RegistryEvent::Described(outcome)) => self.on_describe(
                outcome,
            ),
            (RegistryPhase::Creating, RegistryEvent::Created(created)) => self.on_created(created),
            (RegistryPhase::Sleeping, RegistryEvent::Slept) => {
                self.phase = RegistryPhase::Describing;
                no_notices()
            },
            (RegistryPhase::SettingPolicy, RegistryEvent::PolicySet(set)) => self.on_policy(set),
            (RegistryPhase::FetchingRepository, RegistryEvent::Described(outcome)) => self.on_fetch(
                outcome,
            ),
            (RegistryPhase::Transferring, RegistryEvent::SequenceEnded(outcome)) => {
                self.on_transfer(outcome)
            },
            _ => no_notices(),
        }
    }

    /// The result of the operation, once it has ended: the repository, the
    /// image at its place in the repository, nothing where there was nothing
    /// to pull, or the error that ended it, marked as exhausted where the
    /// operation had used up its retries.
    #[verifier::rlimit(40)]
    pub fn into_result(self) -> (r: Option<Result<RegistryOutcome, RegistryFailure>>)
        ensures
            match self@.ending {
                None => r is None,
                Some(EndingView::Repository) => r == Some(
                    Ok::<RegistryOutcome, RegistryFailure>(
                        RegistryOutcome::Repository(
                            match self@.repository {
                                Some(repository) => repository,
                                None => unknown_repository(),
                            },
                        ),
                    ),
                ),
                Some(EndingView::Pushed) => r matches Some(Ok(RegistryOutcome::Pushed(pushed)))
                    && pushed.image.registry_url matches Some(url) && url@ == self@.dest()
                    && pushed.image == (Image { registry_url: Some(url), ..self@.image }),
                Some(EndingView::Pulled) => r matches Some(
                    Ok(RegistryOutcome::Pulled(PullResult::Pulled(image))),
                ) && image.registry_url matches Some(url) && url@ == self@.dest() && image == (Image {
                    registry_url: Some(url),
                    ..self@.image
                }),
                Some(EndingView::Absent) => r == Some(
                    Ok::<RegistryOutcome, RegistryFailure>(RegistryOutcome::Pulled(PullResult::Absent)),
                ),
                Some(EndingView::Failed(v)) => r matches Some(Err(f)) && f.error@ == v
                    && !f.exhausted,
                Some(EndingView::Exhausted(v)) => r matches Some(Err(f)) && f.error@ == v
                    && f.exhausted,
            },
    {
        let dest = self.dest();
        match self.ending {
            None => None,
            Some(Ending::Repository) => Some(
                Ok(
                    RegistryOutcome::Repository(
                        match self.repository {
                            Some(repository) => repository,
                            None => Repository { repository_name: None, repository_uri: None },
                        },
                    ),
                ),
            ),
            Some(Ending::Pushed) => Some(
                Ok(RegistryOutcome::Pushed(PushResult { image: self.image.located_at(dest) })),
            ),
            Some(Ending::Pulled) => Some(
                Ok(RegistryOutcome::Pulled(PullResult::Pulled(self.image.located_at(dest)))),
            ),
            Some(Ending::Absent) => Some(Ok(RegistryOutcome::Pulled(PullResult::Absent))),
            Some(Ending::Failed(error)) => Some(Err(RegistryFailure { error, exhausted: false })),
            Some(Ending::Exhausted(error)) => Some(
                Err(RegistryFailure { error, exhausted: true }),
            ),
        }
    }
}

impl ECR {
    /// Begins the creation of the repository of `image`, whether or not it
    /// exists. The repository is looked for, created where it is missing, and
    /// looked for again after a delay, until it is there or the retries are
    /// used up; then its retention policy is set.
    pub fn create_repository(self, image: Image) -> (r: (RegistryMachine, Vec<Notice>))
        ensures
            r.0@ == RegistryState::initial(self, image, RegistryGoal::CreateRepository),
            notices(r.1@) == RegistryState::opening(self, image, RegistryGoal::CreateRepository),
    {
        RegistryMachine::new(self, image, RegistryGoal::CreateRepository)
    }

    /// Begins the look for the repository of `image`, which is created where
    /// it does not exist.
    pub fn get_or_create_repository(self, image: Image) -> (r: (RegistryMachine, Vec<Notice>))
        ensures
            r.0@ == RegistryState::initial(self, image, RegistryGoal::GetOrCreateRepository),
            notices(r.1@) == RegistryState::opening(
                self,
                image,
                RegistryGoal::GetOrCreateRepository,
            ),
    {
        RegistryMachine::new(self, image, RegistryGoal::GetOrCreateRepository)
    }

    /// Begins the pull of `image`.
    pub fn pull(self, image: Image) -> (r: (RegistryMachine, Vec<Notice>))
        ensures
            r.0@ == RegistryState::initial(self, image, RegistryGoal::Pull),
            notices(r.1@) == RegistryState::opening(self, image, RegistryGoal::Pull),
    {
        RegistryMachine::new(self, image, RegistryGoal::Pull)
    }

    /// Begins the push of `image`; with `force_push` the image is pushed
    /// also where the registry holds it already.
    pub fn push(self, image: Image, force_push: bool) -> (r: (RegistryMachine, Vec<Notice>))
        ensures
            r.0@ == RegistryState::initial(self, image, RegistryGoal::Push { force_push }),
            notices(r.1@) == RegistryState::opening(self, image, RegistryGoal::Push { force_push }),
    {
        RegistryMachine::new(self, image, RegistryGoal::Push { force_push })
    }
}

/// What becomes of an operation when `event` is reported.
#[verifier::opaque]
pub open spec fn step(s: RegistryState, event: RegistryEvent) -> RegistryState {
    s.transition(event).0
}

/// What becomes of an operation over a series of events, the first event
/// first.
pub open spec fn after(s: RegistryState, events: Seq<RegistryEvent>) -> RegistryState
    decreases events.len(),
{
    if events.len() == 0 {
        s
    } else {
        step(after(s, events.drop_last()), events.last())
    }
}

/// An operation that has ended stays as it is and tells nothing more.
pub proof fn lemma_ended_operation_stays(s: RegistryState, events: Seq<RegistryEvent>)
    requires
        s.phase == RegistryPhase::Finished,
    ensures
        after(s, events) == s,
        forall|e: RegistryEvent| (#[trigger] s.transition(e)).1 == Seq::<NoticeView>::empty(),
    decreases events.len(),
{
    reveal(step);
    if events.len() > 0 {
        lemma_ended_operation_stays(s, events.drop_last());
    }
}

/// Creating is idempotent: where the repository exists, getting or creating
/// it ends with that repository after the one request that found it. The
/// registry is never asked to create it.
pub proof fn lemma_existing_repository_is_kept(
    registry: ECR,
    image: Image,
    repository: Repository,
    later: Seq<RegistryEvent>,
)
    ensures
        ({
            let start = RegistryState::initial(
                registry,
                image,
                RegistryGoal::GetOrCreateRepository,
            );
            let found = start.transition(
                RegistryEvent::Described(DescribeOutcome::Found(Some(repository))),
            ).0;
            &&& start.pending() == RegistryRequestView::DescribeRepository {
                repository_name: image.name@,
            }
            &&& found.pending() == RegistryRequestView::Complete
            &&& found.ending == Some(EndingView::Repository)
            &&& found.repository == Some(repository)
            &&& after(found, later) == found
        }),
{
    let start = RegistryState::initial(registry, image, RegistryGoal::GetOrCreateRepository);
    let found = start.transition(
        RegistryEvent::Described(DescribeOutcome::Found(Some(repository))),
    ).0;
    lemma_ended_operation_stays(found, later);
}

/// A pull of an image that the registry does not hold ends with nothing
/// pulled after the one request that said so: Docker is not logged in, and no
/// command is run.
pub proof fn lemma_absent_image_is_not_pulled(registry: ECR, image: Image, later: Seq<RegistryEvent>)
    ensures
        ({
            let start = RegistryState::initial(registry, image, RegistryGoal::Pull);
            let asked = start.transition(RegistryEvent::ImageDescribed(false)).0;
            &&& start.pending() == RegistryRequestView::DescribeImage {
                repository_name: image.name@,
                image_tag: image.tag@,
            }
            &&& asked.pending() == RegistryRequestView::Complete
            &&& asked.ending == Some(EndingView::Absent)
            &&& after(asked, later) == asked
        }),
{
    let start = RegistryState::initial(registry, image, RegistryGoal::Pull);
    let asked = start.transition(RegistryEvent::ImageDescribed(false)).0;
    lemma_ended_operation_stays(asked, later);
}

/// A push that is not forced, of an image that the registry holds, ends with
/// the image at its place in the repository and without a transfer.
pub proof fn lemma_held_image_is_not_pushed_again(s: RegistryState, later: Seq<RegistryEvent>)
    requires
        s.goal == (RegistryGoal::Push { force_push: false }),
        s.phase == RegistryPhase::CheckingImage,
    ensures
        s.transition(RegistryEvent::ImageDescribed(true)).0.ending == Some(EndingView::Pushed),
        s.transition(RegistryEvent::ImageDescribed(true)).0.pending()
            == RegistryRequestView::Complete,
        after(s.transition(RegistryEvent::ImageDescribed(true)).0, later) == s.transition(
            RegistryEvent::ImageDescribed(true),
        ).0,
{
    lemma_ended_operation_stays(s.transition(RegistryEvent::ImageDescribed(true)).0, later);
}

/// A login that fails is final: the operation ends with the error of invalid
/// credentials, and the login is not tried again.
pub proof fn lemma_failed_login_is_final(s: RegistryState, e: ExecError, later: Seq<RegistryEvent>)
    requires
        s.phase == RegistryPhase::LoggingIn,
    ensures
        s.transition(RegistryEvent::Ran(Err(e))).0.ending == Some(
            EndingView::Failed(s.registry.invalid_credentials()),
        ),
        after(s.transition(RegistryEvent::Ran(Err(e))).0, later) == s.transition(
            RegistryEvent::Ran(Err(e)),
        ).0,
{
    lemma_ended_operation_stays(s.transition(RegistryEvent::Ran(Err(e))).0, later);
}

/// Whether the registry did not answer with an answer to the request for the
/// repository.
pub open spec fn is_miss(outcome: DescribeOutcome) -> bool {
    !(outcome is Found)
}

/// The events of rounds in which the repository is not there: each round is
/// the answer to the request for the repository, the answer to the request to
/// create it, and the delay.
pub open spec fn rounds_of(rounds: Seq<(DescribeOutcome, Result<(), String>)>) -> Seq<RegistryEvent>
    decreases rounds.len(),
{
    if rounds.len() == 0 {
        Seq::empty()
    } else {
        rounds_of(rounds.drop_last()).push(RegistryEvent::Described(rounds.last().0)).push(
            RegistryEvent::Created(rounds.last().1),
        ).push(RegistryEvent::Slept)
    }
}

/// While the repository is not there and delays are left, each round uses one
/// delay and is followed by another look at the repository.
#[verifier::rlimit(40)]
pub proof fn lemma_creation_rounds(s: RegistryState, rounds: Seq<(DescribeOutcome, Result<(), String>)>)
    requires
        s.phase == RegistryPhase::Describing,
        s.used + rounds.len() <= s.delays.len(),
        forall|i: int| 0 <= i < rounds.len() ==> is_miss((#[trigger] rounds[i]).0),
    ensures
        after(s, rounds_of(rounds)).phase == RegistryPhase::Describing,
        after(s, rounds_of(rounds)).used == s.used + rounds.len(),
        after(s, rounds_of(rounds)).delays == s.delays,
        after(s, rounds_of(rounds)).registry == s.registry,
        after(s, rounds_of(rounds)).image == s.image,
        after(s, rounds_of(rounds)).goal == s.goal,
        after(s, rounds_of(rounds)).ending == s.ending,
        rounds.len() > 0 ==> after(s, rounds_of(rounds)).pending_delay == s.delays[s.used
            + rounds.len() - 1],
    decreases rounds.len(),
{
    reveal(step);
    if rounds.len() > 0 {
        let shorter = rounds.drop_last();
        lemma_creation_rounds(s, shorter);
        let a = rounds_of(shorter);
        let b = a.push(RegistryEvent::Described(rounds.last().0));
        let c = b.push(RegistryEvent::Created(rounds.last().1));
        let d = c.push(RegistryEvent::Slept);
        assert(d.drop_last() =~= c);
        assert(c.drop_last() =~= b);
        assert(b.drop_last() =~= a);
        assert(rounds.last() == rounds[rounds.len() - 1]);
        let s0 = after(s, a);
        let s1 = step(s0, RegistryEvent::Described(rounds.last().0));
        let s2 = step(s1, RegistryEvent::Created(rounds.last().1));
        let s3 = step(s2, RegistryEvent::Slept);
        assert(after(s, b) == s1);
        assert(after(s, c) == s2);
        assert(after(s, d) == s3);
        assert(s1.phase == RegistryPhase::Creating);
        assert(s2.phase == RegistryPhase::Sleeping);
    }
}

/// Retry exhaustion for the creation of a repository: where the repository
/// is never there, the registry is asked to create it once, and once more
/// after each delay of the policy; then the operation fails with the error of
/// a repository that could not be created, which holds what the last request
/// to create it said, and the failure is marked as one that used up the
/// retries. The retention policy is never asked for.
#[verifier::rlimit(40)]
pub proof fn lemma_creation_exhaustion(
    s: RegistryState,
    rounds: Seq<(DescribeOutcome, Result<(), String>)>,
    last: (DescribeOutcome, Result<(), String>),
)
    requires
        s.phase == RegistryPhase::Describing,
        s.used == 0,
        rounds.len() == s.delays.len(),
        forall|i: int| 0 <= i < rounds.len() ==> is_miss((#[trigger] rounds[i]).0),
        is_miss(last.0),
    ensures
        after(
            s,
            rounds_of(rounds).push(RegistryEvent::Described(last.0)).push(
                RegistryEvent::Created(last.1),
            ),
        ).ending == Some(EndingView::Exhausted(s.namespace_error(s.creation_cause(last.1)))),
        after(
            s,
            rounds_of(rounds).push(RegistryEvent::Described(last.0)).push(
                RegistryEvent::Created(last.1),
            ),
        ).phase == RegistryPhase::Finished,
{
    reveal(step);
    lemma_creation_rounds(s, rounds);
    let a = rounds_of(rounds);
    let b = a.push(RegistryEvent::Described(last.0));
    let c = b.push(RegistryEvent::Created(last.1));
    assert(c.drop_last() =~= b);
    assert(b.drop_last() =~= a);
    let s0 = after(s, a);
    let s1 = step(s0, RegistryEvent::Described(last.0));
    let s2 = step(s1, RegistryEvent::Created(last.1));
    assert(after(s, b) == s1);
    assert(after(s, c) == s2);
    assert(s1.phase == RegistryPhase::Creating);
    assert(s1.used == s.delays.len());
    assert(s1.namespace_error(s1.creation_cause(last.1)) == s.namespace_error(
        s.creation_cause(last.1),
    ));
}

/// The creation of a repository is tried at most 25 times: the policy has 24
/// delays of five seconds each.
pub proof fn lemma_creation_policy()
    ensures
        creation_policy().spec_delays().len() == 24,
        creation_policy().spec_max_attempts() == 25,
        forall|i: int| 0 <= i < 24 ==> creation_policy().spec_delays()[i] == 5000,
{
}

} // verus!
