//! The course of one build with the local Docker daemon.
//!
//! A build alternates between work that only the outside world can do (ask
//! whether the task is cancelled, run a command, clone a repository, read a
//! file) and decisions. `BuildMachine` takes the decisions: it says which
//! piece of outside work it waits for, takes what that work gave, and in the
//! end holds the result of the build. The caller does the work.

use crate::build_platform::docker::{match_used_env_var_args, spec_match_used_env_var_args};
use crate::build_platform::local_docker::{
    asks_for_worker, buildpack_name, buildpack_of, check_docker_space_usage_and_clean,
    disables_cache, disk_notice, docker_host_envs, docker_prune_command, docker_prune_images,
    env_var_args, is_default_dockerfile, normalized_dockerfile_path, prune_command,
    spec_docker_prune_images,
    spec_normalized_dockerfile_path, split_env_vars, DiskUsage, LocalDocker, PRUNE_COMMANDS,
};
use crate::build_platform::{Build, BuildResult};
use crate::cmd::{CommandLine, CommandLineView, ExecError, ExecFailure};
use crate::errors::{
    raw_cause, shown_message, CommandError, CommandErrorView, EngineError, EngineErrorView, Tag,
};
use crate::events::{
    opt_text, EventDetails, EventMessage, EventMessageView, Level, ProgressKind, ProgressLevel,
};
use crate::notice::{
    application_progress, no_notices, notices, push_notice, safe_log, Notice, NoticeView,
};
use crate::text::{concat2, concat3, contains, texts};
use vstd::prelude::*;
use vstd::string::*;

verus! {

/// Where a build stands: the outside work that it waits for.
#[derive(Clone, Copy, Debug, PartialEq, Eq, Structural)]
pub enum BuildPhase {
    /// Whether the task is cancelled, before anything is done.
    CheckingCancellation,
    /// Whether Docker holds the image already.
    LookingUpImage,
    /// The directory to clone into.
    AllocatingWorkspace,
    /// The removal of what an earlier build left in that directory.
    ResettingWorkspace,
    /// Whether the task is cancelled, before the repository is cloned.
    CheckingCancellationBeforeClone,
    /// The clone of the repository at the commit of the build.
    Cloning,
    /// The free space of the Docker directory.
    ProbingDisk,
    /// One of the clean-up commands.
    Pruning,
    /// Whether the Dockerfile exists.
    LocatingDockerfile,
    /// The bytes of the Dockerfile.
    ReadingDockerfile,
    /// The build from the Dockerfile.
    BuildingWithDocker,
    /// The Procfile of the repository, if it has one.
    ReadingProcfile,
    /// The buildpack build with the builder at this position.
    BuildingWithBuildpacks(usize),
    /// Nothing: the build has ended.
    Finished,
}

/// What a look at the Docker directory gave.
#[derive(Clone, Copy, Debug, PartialEq, Eq, Structural)]
pub enum DiskProbe {
    /// The engine runs under continuous integration: disks are not looked at.
    ContinuousIntegration,
    /// No disk is mounted at the Docker directory.
    NotMounted,
    /// The disk mounted at the Docker directory.
    Mounted(DiskUsage),
}

/// What the outside world did for a build.
#[derive(Debug)]
pub enum BuildEvent {
    /// Whether the task is cancelled.
    Cancellation(bool),
    /// How the command ended.
    Ran(Result<(), ExecError>),
    /// The directory to clone into, or why there is none.
    Workspace(Result<String, String>),
    /// The directory to clone into holds nothing any more.
    WorkspaceReset,
    /// The repository is cloned, or why it is not.
    Cloned(Result<(), String>),
    /// What the look at the Docker directory gave.
    Disk(DiskProbe),
    /// Whether the file exists.
    Located(bool),
    /// The bytes of the file, or why it could not be read.
    FileBytes(Result<Vec<u8>, String>),
    /// The text of the Procfile, where there is one that can be read.
    Procfile(Option<String>),
}

/// What is to be done with a path.
#[derive(Clone, Copy, Debug, PartialEq, Eq, Structural)]
pub enum PathWork {
    /// Remove the directory with all it holds, if it exists.
    ResetDirectory,
    /// Find the disk that is mounted there, unless the engine runs under
    /// continuous integration.
    ProbeDisk,
    /// Say whether the file exists.
    Locate,
    /// Read the file as bytes.
    ReadBytes,
    /// Read the file as text, if it exists.
    ReadText,
}

/// The outside work that a build waits for.
#[derive(Debug)]
pub enum BuildRequest {
    /// Ask whether the task is cancelled.
    PollCancellation,
    /// Ask Docker, with this command, whether it holds the image.
    LookUpImage { command: CommandLine },
    /// Run the command; where `abortable`, stop it once the task is cancelled.
    Run { command: CommandLine, abortable: bool },
    /// Set up the directory for this execution and purpose below the root.
    AllocateWorkspace { root_dir: String, execution_id: String, suffix: String },
    /// Clone the repository at the commit into the directory.
    CloneRepository { url: String, commit_id: String, into_dir: String },
    /// Do `work` with `path`.
    OnPath { work: PathWork, path: String },
    /// Nothing: the build has ended.
    Complete,
}

pub enum BuildRequestView {
    PollCancellation,
    LookUpImage { command: CommandLineView },
    Run { command: CommandLineView, abortable: bool },
    AllocateWorkspace { root_dir: Seq<char>, execution_id: Seq<char>, suffix: Seq<char> },
    CloneRepository { url: Seq<char>, commit_id: Seq<char>, into_dir: Seq<char> },
    OnPath { work: PathWork, path: Seq<char> },
    Complete,
}

impl View for BuildRequest {
    type V = BuildRequestView;

    open spec fn view(&self) -> BuildRequestView {
        match *self {
            BuildRequest::PollCancellation => BuildRequestView::PollCancellation,
            BuildRequest::LookUpImage { command } => BuildRequestView::LookUpImage {
                command: command@,
            },
            BuildRequest::Run { command, abortable } => BuildRequestView::Run {
                command: command@,
                abortable,
            },
            BuildRequest::AllocateWorkspace {
                root_dir,
                execution_id,
                suffix,
            } => BuildRequestView::AllocateWorkspace {
                root_dir: root_dir@,
                execution_id: execution_id@,
                suffix: suffix@,
            },
            BuildRequest::CloneRepository {
                url,
                commit_id,
                into_dir,
            } => BuildRequestView::CloneRepository {
                url: url@,
                commit_id: commit_id@,
                into_dir: into_dir@,
            },
            BuildRequest::OnPath { work, path } => BuildRequestView::OnPath { work, path: path@ },
            BuildRequest::Complete => BuildRequestView::Complete,
        }
    }
}

/// The directory of the Docker daemon, whose disk is looked at before a build.
pub open spec fn docker_directory() -> Seq<char> {
    "/var/lib/docker"@
}

/// A build in progress, as the contracts see it.
pub struct BuildState {
    pub platform: LocalDocker,
    pub build: Build,
    pub force_build: bool,
    pub phase: BuildPhase,
    /// The directory into which the repository is cloned, once it is known.
    pub workspace: Seq<char>,
    /// The variables that the Dockerfile uses, once it is read.
    pub forwarded: Seq<Seq<char>>,
    /// Whether the Procfile asks for the process type `worker`.
    pub worker: bool,
    /// How the clean-up commands that have run so far ended.
    pub prune_outcomes: Seq<Result<(), ExecError>>,
    /// How the build ended, once it has.
    pub result: Option<Result<(), EngineErrorView>>,
}

impl BuildState {
    /// A build before anything is done.
    pub open spec fn initial(platform: LocalDocker, build: Build, force_build: bool) -> BuildState {
        BuildState {
            platform,
            build,
            force_build,
            phase: BuildPhase::CheckingCancellation,
            workspace: Seq::empty(),
            forwarded: Seq::empty(),
            worker: false,
            prune_outcomes: Seq::empty(),
            result: None,
        }
    }

    /// Whether the build has not come to the clean-up yet.
    pub open spec fn before_clean_up(self) -> bool {
        self.phase == BuildPhase::CheckingCancellation || self.phase == BuildPhase::LookingUpImage
            || self.phase == BuildPhase::AllocatingWorkspace || self.phase
            == BuildPhase::ResettingWorkspace || self.phase
            == BuildPhase::CheckingCancellationBeforeClone || self.phase == BuildPhase::Cloning
            || self.phase == BuildPhase::ProbingDisk
    }

    /// What holds of every build in progress: the builder that is tried
    /// exists, no clean-up command has run before the clean-up and one is left
    /// while it runs, and a build has a result exactly when it has ended.
    pub open spec fn wf(self) -> bool {
        &&& self.phase matches BuildPhase::BuildingWithBuildpacks(i) ==> i
            < self.platform.builders@.len()
        &&& self.before_clean_up() ==> self.prune_outcomes.len() == 0
        &&& self.phase == BuildPhase::Pruning ==> self.prune_outcomes.len() < PRUNE_COMMANDS
        &&& (self.phase == BuildPhase::Finished) == (self.result is Some)
    }

    pub open spec fn details(self) -> EventDetails {
        self.platform.spec_event_details()
    }

    /// Whether the build may use the cache of earlier builds.
    pub open spec fn use_cache(self) -> bool {
        !disables_cache(self.build.options.environment_variables@)
    }

    /// The variables handed to the build, each as `KEY=VALUE`.
    pub open spec fn env_args(self) -> Seq<Seq<char>> {
        env_var_args(self.build.options.environment_variables@)
    }

    /// The directory of the application within the clone.
    pub open spec fn context_dir(self) -> Seq<char> {
        self.workspace + "/"@ + self.build.git_repository.root_path@ + "/."@
    }

    /// The name of the Dockerfile as it is used; the usual name where the
    /// build names none.
    pub open spec fn dockerfile_name(self) -> Seq<char> {
        match self.build.git_repository.dockerfile_path {
            Some(path) => spec_normalized_dockerfile_path(path@),
            None => "Dockerfile"@,
        }
    }

    /// The Dockerfile, from the root of the repository.
    pub open spec fn dockerfile_relative(self) -> Seq<char> {
        self.build.git_repository.root_path@ + "/"@ + self.dockerfile_name()
    }

    /// The Dockerfile, from the root of the file system.
    pub open spec fn dockerfile_absolute(self) -> Seq<char> {
        self.workspace + "/"@ + self.dockerfile_relative()
    }

    /// The Procfile of the application.
    pub open spec fn procfile(self) -> Seq<char> {
        self.context_dir() + "/Procfile"@
    }

    /// The buildpack that the build names, where it names one.
    pub open spec fn buildpack(self) -> Option<Seq<char>> {
        match self.build.git_repository.buildpack_language {
            Some(language) => buildpack_of(language@),
            None => None,
        }
    }

    pub open spec fn cancelled(self) -> EngineErrorView {
        EngineError::described(
            Tag::TaskCancellationRequested,
            self.details(),
            "Task cancellation has been requested."@,
            None,
            None,
        )
    }

    pub open spec fn workspace_error(self, why: Seq<char>) -> EngineErrorView {
        EngineError::described(
            Tag::CannotGetWorkspaceDirectory,
            self.details(),
            "Error while trying to get workspace directory"@,
            Some(raw_cause(why)),
            None,
        )
    }

    pub open spec fn clone_error(self, why: Seq<char>) -> EngineErrorView {
        EngineError::described(
            Tag::BuilderCloningRepositoryError,
            self.details(),
            "Error while cloning repository `"@ + self.build.git_repository.url@ + "`."@,
            Some(raw_cause(why)),
            None,
        )
    }

    pub open spec fn dockerfile_missing(self) -> EngineErrorView {
        EngineError::described(
            Tag::DockerCannotFindDockerfile,
            self.details(),
            "Error while trying to build Docker image, Dockerfile not found at location `"@
                + self.dockerfile_absolute() + "`"@,
            None,
            Some("Your Dockerfile is not present at the specified location, check your settings."@),
        )
    }

    pub open spec fn dockerfile_unreadable(self, why: Seq<char>) -> EngineErrorView {
        EngineError::described(
            Tag::DockerCannotReadDockerfile,
            self.details(),
            "Can't read Dockerfile `"@ + self.dockerfile_absolute() + "`."@,
            Some(raw_cause(why)),
            None,
        )
    }

    pub open spec fn dockerfile_not_text(self, cause: CommandErrorView) -> EngineErrorView {
        EngineError::described(
            Tag::DockerCannotExtractEnvVarsFromDockerfile,
            self.details(),
            "Can't extract ENV vars from Dockerfile `"@ + self.dockerfile_absolute() + "`."@,
            Some(cause),
            None,
        )
    }

    pub open spec fn docker_build_failed(self, e: ExecError) -> EngineErrorView {
        EngineError::described(
            Tag::DockerCannotBuildContainerImage,
            self.details(),
            "Error while building container image `"@ + self.platform.spec_name_with_id() + "`."@,
            Some(raw_cause(ExecError::spec_describe(e.failure, e.message@))),
            None,
        )
    }

    /// The language hint of the build; nothing where it has none.
    pub open spec fn language(self) -> Seq<char> {
        match self.build.git_repository.buildpack_language {
            Some(language) => language@,
            None => Seq::empty(),
        }
    }

    /// What is said of a language hint that names no buildpack.
    pub open spec fn invalid_language_text(self) -> Seq<char> {
        "Cannot build: Invalid buildpacks language format: expected `builder[@version]` got "@
            + self.language()
    }

    pub open spec fn invalid_language(self) -> EngineErrorView {
        EngineError::described(
            Tag::BuildpackInvalidLanguageFormat,
            self.details(),
            self.invalid_language_text(),
            None,
            Some("Expected format `builder[@version]`."@),
        )
    }

    pub open spec fn pack_build_failed(self, why: Seq<char>) -> EngineErrorView {
        self.platform.pack_build_failed(why)
    }

    /// The build with `phase` as the work it waits for.
    pub open spec fn to(self, phase: BuildPhase) -> BuildState {
        BuildState { phase, ..self }
    }

    /// The build, ended with `result`.
    pub open spec fn done(self, result: Result<(), EngineErrorView>) -> BuildState {
        BuildState { phase: BuildPhase::Finished, result: Some(result), ..self }
    }

    /// The sentence that closes a build that went as far as choosing how to
    /// build.
    pub open spec fn closing_text(self, result: Result<(), EngineErrorView>) -> Seq<char> {
        match result {
            Ok(_) => "✅ Container "@ + self.platform.spec_name_with_id() + " is built"@,
            Err(e) => if e.tag == Tag::TaskCancellationRequested {
                "🚫 Container "@ + self.platform.spec_name_with_id() + " build has been canceled"@
            } else {
                "❌ Container "@ + self.platform.spec_name_with_id() + " failed to be build: "@
                    + shown_message(e)
            },
        }
    }

    /// What is told at the end of a build that went as far as choosing how to
    /// build: the closing sentence, to the listeners and to the log.
    pub open spec fn closing(self, result: Result<(), EngineErrorView>) -> Seq<NoticeView> {
        seq![
            application_progress(
                ProgressKind::DeploymentInProgress,
                self.build.image.application_id@,
                ProgressLevel::Info,
                self.closing_text(result),
                self.platform.context.execution_id@,
            ),
            safe_log(Level::Info, self.details(), self.closing_text(result)),
        ]
    }

    /// The build ended by `error` after the way to build was chosen: the error
    /// is logged, and the closing sentence told.
    pub open spec fn failed(self, error: EngineErrorView) -> (BuildState, Seq<NoticeView>) {
        (self.done(Err(error)), seq![NoticeView::Failure(error)] + self.closing(Err(error)))
    }

    /// The choice between the two ways to build, once the repository is there:
    /// from the Dockerfile where the build names one, with buildpacks
    /// otherwise. A language hint that names no buildpack ends the build before
    /// any command is run.
    pub open spec fn select_strategy(self) -> (BuildState, Seq<NoticeView>) {
        if self.build.git_repository.dockerfile_path is Some {
            (self.to(BuildPhase::LocatingDockerfile), Seq::empty())
        } else if self.build.git_repository.buildpack_language is Some && self.buildpack()
            is None {
            (
                self.done(Err(self.invalid_language())),
                seq![
                    application_progress(
                        ProgressKind::DeploymentError,
                        self.build.image.application_id@,
                        ProgressLevel::Error,
                        self.invalid_language_text(),
                        self.platform.context.execution_id@,
                    ),
                    NoticeView::Failure(self.invalid_language()),
                ] + self.closing(Err(self.invalid_language())),
            )
        } else {
            (self.to(BuildPhase::ReadingProcfile), Seq::empty())
        }
    }

    /// What is told of a clean-up that has run.
    pub open spec fn prune_report(self) -> Seq<NoticeView> {
        match spec_docker_prune_images(self.prune_outcomes) {
            Ok(_) => Seq::empty(),
            Err(c) => seq![
                NoticeView::Log {
                    level: Level::Warning,
                    details: self.details(),
                    message: EventMessageView { raw: c.message, safe: c.message_safe },
                },
            ],
        }
    }

    /// The outside work that the build waits for.
    pub open spec fn pending(self) -> BuildRequestView {
        match self.phase {
            BuildPhase::CheckingCancellation => BuildRequestView::PollCancellation,
            BuildPhase::CheckingCancellationBeforeClone => BuildRequestView::PollCancellation,
            BuildPhase::LookingUpImage => BuildRequestView::LookUpImage {
                command: self.platform.spec_image_inspect_command(&self.build.image),
            },
            BuildPhase::AllocatingWorkspace => BuildRequestView::AllocateWorkspace {
                root_dir: self.platform.context.workspace_root_dir@,
                execution_id: self.platform.context.execution_id@,
                suffix: LocalDocker::spec_workspace_suffix(&self.build),
            },
            BuildPhase::ResettingWorkspace => BuildRequestView::OnPath {
                work: PathWork::ResetDirectory,
                path: self.workspace,
            },
            BuildPhase::Cloning => BuildRequestView::CloneRepository {
                url: self.build.git_repository.url@,
                commit_id: self.build.git_repository.commit_id@,
                into_dir: self.workspace,
            },
            BuildPhase::ProbingDisk => BuildRequestView::OnPath {
                work: PathWork::ProbeDisk,
                path: docker_directory(),
            },
            BuildPhase::Pruning => BuildRequestView::Run {
                command: prune_command(
                    self.prune_outcomes.len() as int,
                    docker_host_envs(&self.platform.context),
                ),
                abortable: false,
            },
            BuildPhase::LocatingDockerfile => BuildRequestView::OnPath {
                work: PathWork::Locate,
                path: self.dockerfile_absolute(),
            },
            BuildPhase::ReadingDockerfile => BuildRequestView::OnPath {
                work: PathWork::ReadBytes,
                path: self.dockerfile_absolute(),
            },
            BuildPhase::BuildingWithDocker => BuildRequestView::Run {
                command: self.platform.spec_docker_build_command(
                    &self.build.image,
                    self.dockerfile_absolute(),
                    self.context_dir(),
                    self.forwarded,
                    self.use_cache(),
                ),
                abortable: true,
            },
            BuildPhase::ReadingProcfile => BuildRequestView::OnPath {
                work: PathWork::ReadText,
                path: self.procfile(),
            },
            BuildPhase::BuildingWithBuildpacks(i) => if i < self.platform.builders@.len() {
                BuildRequestView::Run {
                    command: self.platform.spec_pack_build_command(
                        &self.build,
                        self.context_dir(),
                        self.env_args(),
                        self.use_cache(),
                        self.platform.builders@[i as int]@,
                        self.buildpack(),
                        self.worker,
                    ),
                    abortable: true,
                }
            } else {
                BuildRequestView::Complete
            },
            BuildPhase::Finished => BuildRequestView::Complete,
        }
    }

    /// What becomes of the build when the outside world reports `event`, and
    /// what is told on that occasion. An event that does not answer the work
    /// that the build waits for changes nothing.
    pub open spec fn transition(self, event: BuildEvent) -> (BuildState, Seq<NoticeView>) {
        match (self.phase, event) {
            (BuildPhase::CheckingCancellation, BuildEvent::Cancellation(cancelled)) => (
                if cancelled {
                    self.done(Err(self.cancelled()))
                } else if self.force_build {
                    self.to(BuildPhase::AllocatingWorkspace)
                } else {
                    self.to(BuildPhase::LookingUpImage)
                },
                seq![safe_log(Level::Info, self.details(), "LocalDocker.build() called"@)],
            ),
            (BuildPhase::LookingUpImage, BuildEvent::Ran(outcome)) => if outcome is Ok {
                (
                    self.done(Ok(())),
                    seq![
                        safe_log(
                            Level::Info,
                            self.details(),
                            "Image `"@ + self.build.image.spec_name_with_tag()
                                + "` found on repository, container build is not required"@,
                        ),
                    ],
                )
            } else {
                (self.to(BuildPhase::AllocatingWorkspace), Seq::empty())
            },
            (BuildPhase::AllocatingWorkspace, BuildEvent::Workspace(allocated)) => match allocated {
                Ok(path) => (
                    BuildState { workspace: path@, phase: BuildPhase::ResettingWorkspace, ..self },
                    seq![
                        safe_log(
                            Level::Info,
                            self.details(),
                            "Cloning repository: "@ + self.build.git_repository.url@ + " to "@
                                + path@,
                        ),
                    ],
                ),
                Err(why) => (self.done(Err(self.workspace_error(why@))), Seq::empty()),
            },
            (BuildPhase::ResettingWorkspace, BuildEvent::WorkspaceReset) => (
                self.to(BuildPhase::CheckingCancellationBeforeClone),
                Seq::empty(),
            ),
            (BuildPhase::CheckingCancellationBeforeClone, BuildEvent::Cancellation(cancelled)) => (
                if cancelled {
                    self.done(Err(self.cancelled()))
                } else {
                    self.to(BuildPhase::Cloning)
                },
                Seq::empty(),
            ),
            (BuildPhase::Cloning, BuildEvent::Cloned(cloned)) => match cloned {
                Ok(_) => (self.to(BuildPhase::ProbingDisk), Seq::empty()),
                Err(why) => (
                    self.done(Err(self.clone_error(why@))),
                    seq![NoticeView::Failure(self.clone_error(why@))],
                ),
            },
            (BuildPhase::ProbingDisk, BuildEvent::Disk(probe)) => match probe {
                DiskProbe::ContinuousIntegration => (
                    self.select_strategy().0,
                    seq![
                        safe_log(
                            Level::Info,
                            self.details(),
                            "CI environment variable found, no docker prune will be made"@,
                        ),
                    ] + self.select_strategy().1,
                ),
                DiskProbe::NotMounted => self.select_strategy(),
                DiskProbe::Mounted(usage) => if usage.spec_needs_purge() {
                    (self.to(BuildPhase::Pruning), seq![disk_notice(usage, self.details())])
                } else {
                    (
                        self.select_strategy().0,
                        seq![disk_notice(usage, self.details())] + self.select_strategy().1,
                    )
                },
            },
            (BuildPhase::Pruning, BuildEvent::Ran(outcome)) => {
                let pruned = BuildState {
                    prune_outcomes: self.prune_outcomes.push(outcome),
                    ..self
                };
                if pruned.prune_outcomes.len() >= PRUNE_COMMANDS {
                    (
                        pruned.select_strategy().0,
                        pruned.prune_report() + pruned.select_strategy().1,
                    )
                } else {
                    (pruned, Seq::empty())
                }
            },
            (BuildPhase::LocatingDockerfile, BuildEvent::Located(found)) => if found {
                (self.to(BuildPhase::ReadingDockerfile), Seq::empty())
            } else {
                (
                    self.done(Err(self.dockerfile_missing())),
                    seq![
                        application_progress(
                            ProgressKind::Error,
                            self.build.image.application_id@,
                            ProgressLevel::Error,
                            "Dockerfile is not present at location "@ + self.dockerfile_relative(),
                            self.platform.context.execution_id@,
                        ),
                        NoticeView::Failure(self.dockerfile_missing()),
                    ],
                )
            },
            (BuildPhase::ReadingDockerfile, BuildEvent::FileBytes(read)) => match read {
                Ok(bytes) => match spec_match_used_env_var_args(self.env_args(), bytes@) {
                    Ok(used) => (
                        BuildState {
                            forwarded: used,
                            phase: BuildPhase::BuildingWithDocker,
                            ..self
                        },
                        Seq::empty(),
                    ),
                    Err(cause) => self.failed(self.dockerfile_not_text(cause)),
                },
                Err(why) => self.failed(self.dockerfile_unreadable(why@)),
            },
            (BuildPhase::BuildingWithDocker, BuildEvent::Ran(outcome)) => match outcome {
                Ok(_) => (self.done(Ok(())), self.closing(Ok(()))),
                Err(e) => if e.failure == ExecFailure::Killed {
                    (self.done(Err(self.cancelled())), self.closing(Err(self.cancelled())))
                } else {
                    (
                        self.done(Err(self.docker_build_failed(e))),
                        self.closing(Err(self.docker_build_failed(e))),
                    )
                },
            },
            (BuildPhase::ReadingProcfile, BuildEvent::Procfile(content)) => {
                let read = BuildState { worker: asks_for_worker(content), ..self };
                if self.platform.builders@.len() == 0 {
                    read.failed(read.pack_build_failed("No builder names"@))
                } else {
                    (read.to(BuildPhase::BuildingWithBuildpacks(0)), Seq::empty())
                }
            },
            (BuildPhase::BuildingWithBuildpacks(i), BuildEvent::Ran(outcome)) => match outcome {
                Ok(_) => (self.done(Ok(())), self.closing(Ok(()))),
                Err(e) => if e.failure == ExecFailure::Killed {
                    (self.done(Err(self.cancelled())), self.closing(Err(self.cancelled())))
                } else if i + 1 < self.platform.builders@.len() {
                    (self.to(BuildPhase::BuildingWithBuildpacks((i + 1) as usize)), Seq::empty())
                } else {
                    self.failed(
                        self.pack_build_failed(ExecError::spec_describe(e.failure, e.message@)),
                    )
                },
            },
            _ => (self, Seq::empty()),
        }
    }
}

/// The content of the outcome of a build.
pub open spec fn outcome_view(r: Result<(), EngineError>) -> Result<(), EngineErrorView> {
    match r {
        Ok(_) => Ok(()),
        Err(e) => Err(e@),
    }
}

/// The content of the result of a build, where it has one.
pub open spec fn result_view(r: Option<Result<(), EngineError>>) -> Option<
    Result<(), EngineErrorView>,
> {
    match r {
        Some(outcome) => Some(outcome_view(outcome)),
        None => None,
    }
}

/// One build with the local Docker daemon, from the request to its result.
#[derive(Debug)]
pub struct BuildMachine {
    platform: LocalDocker,
    build: Build,
    force_build: bool,
    phase: BuildPhase,
    workspace: String,
    forwarded: Vec<String>,
    worker: bool,
    prune_outcomes: Vec<Result<(), ExecError>>,
    result: Option<Result<(), EngineError>>,
}

impl View for BuildMachine {
    type V = BuildState;

    closed spec fn view(&self) -> BuildState {
        BuildState {
            platform: self.platform,
            build: self.build,
            force_build: self.force_build,
            phase: self.phase,
            workspace: self.workspace@,
            forwarded: texts(self.forwarded@),
            worker: self.worker,
            prune_outcomes: self.prune_outcomes@,
            result: result_view(self.result),
        }
    }
}

impl BuildMachine {
    /// A build of `build` on `platform`. With `force_build` the image is
    /// built even where Docker holds it already.
    pub fn new(platform: LocalDocker, build: Build, force_build: bool) -> (r: Self)
        ensures
            r@ == BuildState::initial(platform, build, force_build),
    {
        let forwarded: Vec<String> = Vec::new();
        assert(texts(forwarded@) =~= Seq::<Seq<char>>::empty());
        BuildMachine {
            platform,
            build,
            force_build,
            phase: BuildPhase::CheckingCancellation,
            workspace: String::new(),
            forwarded,
            worker: false,
            prune_outcomes: Vec::new(),
            result: None,
        }
    }

    /// Where the build stands.
    pub fn phase(&self) -> (r: BuildPhase)
        ensures
            r == self@.phase,
    {
        self.phase
    }

    /// Whether the build has ended.
    pub fn is_finished(&self) -> (r: bool)
        ensures
            r == (self@.phase == BuildPhase::Finished),
    {
        self.phase == BuildPhase::Finished
    }

    fn details(&self) -> (r: EventDetails)
        ensures
            r == self@.details(),
    {
        self.platform.get_event_details()
    }

    fn context_dir(&self) -> (r: String)
        ensures
            r@ == self@.context_dir(),
    {
        let mut out = self.workspace.clone();
        out.append("/");
        out.append(self.build.git_repository.root_path.as_str());
        out.append("/.");
        out
    }

    fn dockerfile_relative(&self) -> (r: String)
        ensures
            r@ == self@.dockerfile_relative(),
    {
        let mut out = self.build.git_repository.root_path.clone();
        out.append("/");
        match &self.build.git_repository.dockerfile_path {
            Some(path) => {
                out.append(normalized_dockerfile_path(path.as_str()).as_str());
            },
            None => {
                out.append("Dockerfile");
            },
        }
        out
    }

    fn dockerfile_absolute(&self) -> (r: String)
        ensures
            r@ == self@.dockerfile_absolute(),
    {
        let mut out = self.workspace.clone();
        out.append("/");
        out.append(self.dockerfile_relative().as_str());
        out
    }

    fn buildpack(&self) -> (r: Option<String>)
        ensures
            opt_text(r) == self@.buildpack(),
    {
        match &self.build.git_repository.buildpack_language {
            Some(language) => buildpack_name(language.as_str()),
            None => None,
        }
    }

    /// The outside work that the build waits for. The caller does it and
    /// hands what it gave to `absorb`.
    #[verifier::rlimit(40)]
    pub fn pending(&self) -> (r: BuildRequest)
        ensures
            r@ == self@.pending(),
    {
        match self.phase {
            BuildPhase::CheckingCancellation => BuildRequest::PollCancellation,
            BuildPhase::CheckingCancellationBeforeClone => BuildRequest::PollCancellation,
            BuildPhase::LookingUpImage => BuildRequest::LookUpImage {
                command: self.platform.image_inspect_command(&self.build.image),
            },
            BuildPhase::AllocatingWorkspace => BuildRequest::AllocateWorkspace {
                root_dir: self.platform.context.workspace_root_dir.clone(),
                execution_id: self.platform.context.execution_id.clone(),
                suffix: LocalDocker::workspace_suffix(&self.build),
            },
            BuildPhase::ResettingWorkspace => BuildRequest::OnPath {
                work: PathWork::ResetDirectory,
                path: self.workspace.clone(),
            },
            BuildPhase::Cloning => BuildRequest::CloneRepository {
                url: self.build.git_repository.url.clone(),
                commit_id: self.build.git_repository.commit_id.clone(),
                into_dir: self.workspace.clone(),
            },
            BuildPhase::ProbingDisk => BuildRequest::OnPath {
                work: PathWork::ProbeDisk,
                path: String::from_str("/var/lib/docker"),
            },
            BuildPhase::Pruning => BuildRequest::Run {
                command: docker_prune_command(
                    self.prune_outcomes.len(),
                    self.platform.get_docker_host_envs(),
                ),
                abortable: false,
            },
            BuildPhase::LocatingDockerfile => BuildRequest::OnPath {
                work: PathWork::Locate,
                path: self.dockerfile_absolute(),
            },
            BuildPhase::ReadingDockerfile => BuildRequest::OnPath {
                work: PathWork::ReadBytes,
                path: self.dockerfile_absolute(),
            },
            BuildPhase::BuildingWithDocker => {
                let (disable, _) = split_env_vars(&self.build.options.environment_variables);
                BuildRequest::Run {
                    command: self.platform.docker_build_command(
                        &self.build.image,
                        self.dockerfile_absolute().as_str(),
                        self.context_dir().as_str(),
                        &self.forwarded,
                        !disable,
                    ),
                    abortable: true,
                }
            },
            BuildPhase::ReadingProcfile => BuildRequest::OnPath {
                work: PathWork::ReadText,
                path: concat2(self.context_dir().as_str(), "/Procfile"),
            },
            BuildPhase::BuildingWithBuildpacks(i) => {
                if i < self.platform.builders.len() {
                    let (disable, env) = split_env_vars(&self.build.options.environment_variables);
                    BuildRequest::Run {
                        command: self.platform.pack_build_command(
                            &self.build,
                            self.context_dir().as_str(),
                            &env,
                            !disable,
                            self.platform.builders[i].as_str(),
                            &self.buildpack(),
                            self.worker,
                        ),
                        abortable: true,
                    }
                } else {
                    BuildRequest::Complete
                }
            },
            BuildPhase::Finished => BuildRequest::Complete,
        }
    }

    fn cancelled_error(&self) -> (r: EngineError)
        ensures
            r@ == self@.cancelled(),
    {
        EngineError::new_task_cancellation_requested(self.details())
    }

    fn finish(&mut self, result: Result<(), EngineError>)
        ensures
            final(self)@ == old(self)@.done(outcome_view(result)),
    {
        self.phase = BuildPhase::Finished;
        self.result = Some(result);
    }

    fn closing_text(&self, result: &Result<(), EngineError>) -> (r: String)
        ensures
            r@ == self@.closing_text(outcome_view(*result)),
    {
        match result {
            Ok(_) => concat3("✅ Container ", self.platform.name_with_id().as_str(), " is built"),
            Err(e) => {
                if *e.tag() == Tag::TaskCancellationRequested {
                    concat3(
                        "🚫 Container ",
                        self.platform.name_with_id().as_str(),
                        " build has been canceled",
                    )
                } else {
                    let mut out = concat3(
                        "❌ Container ",
                        self.platform.name_with_id().as_str(),
                        " failed to be build: ",
                    );
                    out.append(e.message().as_str());
                    out
                }
            },
        }
    }

    fn closing_into(&self, result: &Result<(), EngineError>, out: &mut Vec<Notice>)
        ensures
            notices(final(out)@) == notices(old(out)@) + self@.closing(outcome_view(*result)),
    {
        let text = self.closing_text(result);
        let copy = text.clone();
        push_notice(
            out,
            Notice::progress(
                ProgressKind::DeploymentInProgress,
                self.build.image.application_id.as_str(),
                ProgressLevel::Info,
                text,
                self.platform.context.execution_id.as_str(),
            ),
        );
        push_notice(out, Notice::log(Level::Info, self.details(), copy));
        assert(notices(out@) =~= notices(old(out)@) + self@.closing(outcome_view(*result)));
    }

    /// Ends the build with `result` and tells the closing sentence.
    #[verifier::rlimit(40)]
    fn end_with(&mut self, result: Result<(), EngineError>, out: &mut Vec<Notice>)
        ensures
            final(self)@ == old(self)@.done(outcome_view(result)),
            notices(final(out)@) == notices(old(out)@) + old(self)@.closing(outcome_view(result)),
    {
        self.closing_into(&result, out);
        self.finish(result);
    }

    /// Ends the build with `error`, logs it and tells the closing sentence.
    #[verifier::rlimit(40)]
    fn fail_with(&mut self, error: EngineError, out: &mut Vec<Notice>)
        ensures
            final(self)@ == old(self)@.failed(error@).0,
            notices(final(out)@) == notices(old(out)@) + old(self)@.failed(error@).1,
    {
        push_notice(out, Notice::Failure(error.clone()));
        let result: Result<(), EngineError> = Err(error);
        self.closing_into(&result, out);
        self.finish(result);
        assert(notices(out@) =~= notices(old(out)@) + old(self)@.failed(error@).1);
    }

    #[verifier::rlimit(40)]
    fn select_strategy(&mut self, out: &mut Vec<Notice>)
        ensures
            final(self)@ == old(self)@.select_strategy().0,
            notices(final(out)@) == notices(old(out)@) + old(self)@.select_strategy().1,
    {
        if self.build.git_repository.dockerfile_path.is_some() {
            self.phase = BuildPhase::LocatingDockerfile;
            assert(notices(out@) =~= notices(old(out)@) + old(self)@.select_strategy().1);
            return ;
        }
        let invalid = match &self.build.git_repository.buildpack_language {
            Some(language) => buildpack_name(language.as_str()).is_none(),
            None => false,
        };
        if invalid {
            let language = match &self.build.git_repository.buildpack_language {
                Some(language) => language.clone(),
                None => String::new(),
            };
            let text = concat2(
                "Cannot build: Invalid buildpacks language format: expected `builder[@version]` got ",
                language.as_str(),
            );
            push_notice(
                out,
                Notice::progress(
                    ProgressKind::DeploymentError,
                    self.build.image.application_id.as_str(),
                    ProgressLevel::Error,
                    text,
                    self.platform.context.execution_id.as_str(),
                ),
            );
            let error = EngineError::new_buildpack_invalid_language_format(
                self.details(),
                language.as_str(),
            );
            self.fail_with(error, out);
            assert(notices(out@) =~= notices(old(out)@) + old(self)@.select_strategy().1);
        } else {
            self.phase = BuildPhase::ReadingProcfile;
            assert(notices(out@) =~= notices(old(out)@) + old(self)@.select_strategy().1);
        }
    }

    fn prune_report_into(&self, out: &mut Vec<Notice>)
        ensures
            notices(final(out)@) == notices(old(out)@) + self@.prune_report(),
    {
        match docker_prune_images(&self.prune_outcomes) {
            Ok(_) => {
                assert(notices(out@) =~= notices(old(out)@) + self@.prune_report());
            },
            Err(c) => {
                push_notice(
                    out,
                    Notice::Log {
                        level: Level::Warning,
                        details: self.details(),
                        message: EventMessage::new(c.message_raw(), c.message_safe()),
                    },
                );
                assert(notices(out@) =~= notices(old(out)@) + self@.prune_report());
            },
        }
    }

    #[verifier::rlimit(40)]
    fn on_first_poll(&mut self, cancelled: bool) -> (told: Vec<Notice>)
        requires
            old(self)@.phase == BuildPhase::CheckingCancellation,
        ensures
            final(self)@ == old(self)@.transition(BuildEvent::Cancellation(cancelled)).0,
            notices(told@) == old(self)@.transition(BuildEvent::Cancellation(cancelled)).1,
    {
        let mut out = no_notices();
        push_notice(
            &mut out,
            Notice::log(Level::Info, self.details(), String::from_str("LocalDocker.build() called")),
        );
        if cancelled {
            let error = self.cancelled_error();
            self.finish(Err(error));
        } else if self.force_build {
            self.phase = BuildPhase::AllocatingWorkspace;
        } else {
            self.phase = BuildPhase::LookingUpImage;
        }
        assert(notices(out@) =~= old(self)@.transition(BuildEvent::Cancellation(cancelled)).1);
        out
    }

    #[verifier::rlimit(40)]
    fn on_image_lookup(&mut self, outcome: Result<(), ExecError>) -> (told: Vec<Notice>)
        requires
            old(self)@.phase == BuildPhase::LookingUpImage,
        ensures
            final(self)@ == old(self)@.transition(BuildEvent::Ran(outcome)).0,
            notices(told@) == old(self)@.transition(BuildEvent::Ran(outcome)).1,
    {
        let mut out = no_notices();
        let exists = match self.platform.image_does_exist(&outcome) {
            Ok(exists) => exists,
            Err(_) => false,
        };
        if exists {
            let mut text = String::from_str("Image `");
            text.append(self.build.image.name_with_tag().as_str());
            text.append("` found on repository, container build is not required");
            push_notice(&mut out, Notice::log(Level::Info, self.details(), text));
            self.finish(Ok(()));
            assert(notices(out@) =~= old(self)@.transition(BuildEvent::Ran(outcome)).1);
        } else {
            self.phase = BuildPhase::AllocatingWorkspace;
        }
        out
    }

    #[verifier::rlimit(40)]
    fn on_workspace(&mut self, allocated: Result<String, String>) -> (told: Vec<Notice>)
        requires
            old(self)@.phase == BuildPhase::AllocatingWorkspace,
        ensures
            final(self)@ == old(self)@.transition(BuildEvent::Workspace(allocated)).0,
            notices(told@) == old(self)@.transition(BuildEvent::Workspace(allocated)).1,
    {
        let mut out = no_notices();
        match self.platform.get_repository_build_root_path(allocated) {
            Ok(path) => {
                let mut text = String::from_str("Cloning repository: ");
                text.append(self.build.git_repository.url.as_str());
                text.append(" to ");
                text.append(path.as_str());
                push_notice(&mut out, Notice::log(Level::Info, self.details(), text));
                self.workspace = path;
                self.phase = BuildPhase::ResettingWorkspace;
                assert(notices(out@) =~= old(self)@.transition(BuildEvent::Workspace(allocated)).1);
            },
            Err(error) => {
                self.finish(Err(error));
            },
        }
        out
    }

    #[verifier::rlimit(40)]
    fn on_second_poll(&mut self, cancelled: bool) -> (told: Vec<Notice>)
        requires
            old(self)@.phase == BuildPhase::CheckingCancellationBeforeClone,
        ensures
            final(self)@ == old(self)@.transition(BuildEvent::Cancellation(cancelled)).0,
            notices(told@) == old(self)@.transition(BuildEvent::Cancellation(cancelled)).1,
    {
        if cancelled {
            let error = self.cancelled_error();
            self.finish(Err(error));
        } else {
            self.phase = BuildPhase::Cloning;
        }
        no_notices()
    }

    #[verifier::rlimit(40)]
    fn on_clone(&mut self, cloned: Result<(), String>) -> (told: Vec<Notice>)
        requires
            old(self)@.phase == BuildPhase::Cloning,
        ensures
            final(self)@ == old(self)@.transition(BuildEvent::Cloned(cloned)).0,
            notices(told@) == old(self)@.transition(BuildEvent::Cloned(cloned)).1,
    {
        let mut out = no_notices();
        match cloned {
            Ok(_) => {
                self.phase = BuildPhase::ProbingDisk;
            },
            Err(why) => {
                let error = EngineError::new_builder_clone_repository_error(
                    self.details(),
                    self.build.git_repository.url.as_str(),
                    CommandError::new(why, None),
                );
                push_notice(&mut out, Notice::Failure(error.clone()));
                self.finish(Err(error));
                assert(notices(out@) =~= old(self)@.transition(BuildEvent::Cloned(cloned)).1);
            },
        }
        out
    }

    #[verifier::rlimit(40)]
    fn on_disk(&mut self, probe: DiskProbe) -> (told: Vec<Notice>)
        requires
            old(self)@.phase == BuildPhase::ProbingDisk,
        ensures
            final(self)@ == old(self)@.transition(BuildEvent::Disk(probe)).0,
            notices(told@) == old(self)@.transition(BuildEvent::Disk(probe)).1,
    {
        let mut out = no_notices();
        match probe {
            DiskProbe::ContinuousIntegration => {
                push_notice(
                    &mut out,
                    Notice::log(
                        Level::Info,
                        self.details(),
                        String::from_str(
                            "CI environment variable found, no docker prune will be made",
                        ),
                    ),
                );
                self.select_strategy(&mut out);
            },
            DiskProbe::NotMounted => {
                self.select_strategy(&mut out);
            },
            DiskProbe::Mounted(usage) => {
                let (purge, notice) = check_docker_space_usage_and_clean(&usage, self.details());
                push_notice(&mut out, notice);
                if purge {
                    self.phase = BuildPhase::Pruning;
                } else {
                    self.select_strategy(&mut out);
                }
            },
        }
        assert(notices(out@) =~= old(self)@.transition(BuildEvent::Disk(probe)).1);
        out
    }

    #[verifier::rlimit(40)]
    fn on_prune(&mut self, outcome: Result<(), ExecError>) -> (told: Vec<Notice>)
        requires
            old(self)@.phase == BuildPhase::Pruning,
        ensures
            final(self)@ == old(self)@.transition(BuildEvent::Ran(outcome)).0,
            notices(told@) == old(self)@.transition(BuildEvent::Ran(outcome)).1,
    {
        let mut out = no_notices();
        self.prune_outcomes.push(outcome);
        if self.prune_outcomes.len() >= PRUNE_COMMANDS {
            self.prune_report_into(&mut out);
            self.select_strategy(&mut out);
            assert(notices(out@) =~= old(self)@.transition(BuildEvent::Ran(outcome)).1);
        }
        out
    }

    #[verifier::rlimit(40)]
    fn on_located(&mut self, found: bool) -> (told: Vec<Notice>)
        requires
            old(self)@.phase == BuildPhase::LocatingDockerfile,
        ensures
            final(self)@ == old(self)@.transition(BuildEvent::Located(found)).0,
            notices(told@) == old(self)@.transition(BuildEvent::Located(found)).1,
    {
        let mut out = no_notices();
        if found {
            self.phase = BuildPhase::ReadingDockerfile;
        } else {
            push_notice(
                &mut out,
                Notice::progress(
                    ProgressKind::Error,
                    self.build.image.application_id.as_str(),
                    ProgressLevel::Error,
                    concat2(
                        "Dockerfile is not present at location ",
                        self.dockerfile_relative().as_str(),
                    ),
                    self.platform.context.execution_id.as_str(),
                ),
            );
            let error = EngineError::new_docker_cannot_find_dockerfile(
                self.details(),
                self.dockerfile_absolute().as_str(),
            );
            push_notice(&mut out, Notice::Failure(error.clone()));
            self.finish(Err(error));
            assert(notices(out@) =~= old(self)@.transition(BuildEvent::Located(found)).1);
        }
        out
    }

    #[verifier::rlimit(40)]
    fn on_dockerfile(&mut self, read: Result<Vec<u8>, String>) -> (told: Vec<Notice>)
        requires
            old(self)@.phase == BuildPhase::ReadingDockerfile,
        ensures
            final(self)@ == old(self)@.transition(BuildEvent::FileBytes(read)).0,
            notices(told@) == old(self)@.transition(BuildEvent::FileBytes(read)).1,
    {
        let mut out = no_notices();
        let path = self.dockerfile_absolute();
        match self.platform.get_dockerfile_content(path.as_str(), read) {
            Ok(bytes) => {
                let (_, args) = split_env_vars(&self.build.options.environment_variables);
                match match_used_env_var_args(args, bytes) {
                    Ok(used) => {
                        self.forwarded = used;
                        self.phase = BuildPhase::BuildingWithDocker;
                    },
                    Err(cause) => {
                        let error = EngineError::new_docker_cannot_extract_env_vars_from_dockerfile(
                            self.details(),
                            self.dockerfile_absolute().as_str(),
                            cause,
                        );
                        self.fail_with(error, &mut out);
                    },
                }
            },
            Err(error) => {
                self.fail_with(error, &mut out);
            },
        }
        assert(notices(out@) =~= old(self)@.transition(BuildEvent::FileBytes(read)).1);
        out
    }

    #[verifier::rlimit(40)]
    fn on_docker_build(&mut self, outcome: Result<(), ExecError>) -> (told: Vec<Notice>)
        requires
            old(self)@.phase == BuildPhase::BuildingWithDocker,
        ensures
            final(self)@ == old(self)@.transition(BuildEvent::Ran(outcome)).0,
            notices(told@) == old(self)@.transition(BuildEvent::Ran(outcome)).1,
    {
        let mut out = no_notices();
        let result = self.platform.build_image_with_docker(outcome);
        self.end_with(result, &mut out);
        assert(notices(out@) =~= old(self)@.transition(BuildEvent::Ran(outcome)).1);
        out
    }

    #[verifier::rlimit(40)]
    fn on_procfile(&mut self, content: Option<String>) -> (told: Vec<Notice>)
        requires
            old(self)@.phase == BuildPhase::ReadingProcfile,
        ensures
            final(self)@ == old(self)@.transition(BuildEvent::Procfile(content)).0,
            notices(told@) == old(self)@.transition(BuildEvent::Procfile(content)).1,
    {
        let mut out = no_notices();
        self.worker = match &content {
            Some(text) => contains(text.as_str(), "worker"),
            None => false,
        };
        if self.platform.builders.len() == 0 {
            let error = EngineError::new_buildpack_cannot_build_container_image(
                self.details(),
                self.platform.name_with_id().as_str(),
                &self.platform.builders,
                CommandError::new(String::from_str("No builder names"), None),
            );
            self.fail_with(error, &mut out);
            assert(notices(out@) =~= old(self)@.transition(BuildEvent::Procfile(content)).1);
        } else {
            self.phase = BuildPhase::BuildingWithBuildpacks(0);
        }
        out
    }

    #[verifier::rlimit(40)]
    fn on_pack_build(&mut self, i: usize, outcome: Result<(), ExecError>) -> (told: Vec<Notice>)
        requires
            old(self)@.phase == BuildPhase::BuildingWithBuildpacks(i),
        ensures
            final(self)@ == old(self)@.transition(BuildEvent::Ran(outcome)).0,
            notices(told@) == old(self)@.transition(BuildEvent::Ran(outcome)).1,
    {
        let mut out = no_notices();
        let n: usize = self.platform.builders.len();
        let failed_for_now = match &outcome {
            Ok(_) => false,
            Err(e) => !e.is_killed(),
        };
        if failed_for_now && i < usize::MAX && i + 1 < n {
            self.phase = BuildPhase::BuildingWithBuildpacks(i + 1);
            return out;
        }
        match self.platform.build_image_with_buildpacks(outcome) {
            Ok(_) => {
                self.end_with(Ok(()), &mut out);
            },
            Err(error) => {
                if failed_for_now {
                    self.fail_with(error, &mut out);
                } else {
                    self.end_with(Err(error), &mut out);
                }
            },
        }
        assert(notices(out@) =~= old(self)@.transition(BuildEvent::Ran(outcome)).1);
        out
    }

    /// Takes what the outside world did. An event that does not answer the
    /// work that the build waits for is ignored. Returns what is to be told,
    /// in order.
    #[verifier::rlimit(40)]
    pub fn absorb(&mut self, event: BuildEvent) -> (told: Vec<Notice>)
        ensures
            final(self)@ == old(self)@.transition(event).0,
            notices(told@) == old(self)@.transition(event).1,
    {
        match (self.phase, event) {
            (BuildPhase::CheckingCancellation, BuildEvent::Cancellation(cancelled)) => {
                self.on_first_poll(cancelled)
            },
            (BuildPhase::LookingUpImage, BuildEvent::Ran(outcome)) => self.on_image_lookup(outcome),
            (BuildPhase::AllocatingWorkspace, BuildEvent::Workspace(allocated)) => {
                self.on_workspace(allocated)
            },
            (BuildPhase::ResettingWorkspace, BuildEvent::WorkspaceReset) => {
                self.phase = BuildPhase::CheckingCancellationBeforeClone;
                no_notices()
            },
            (BuildPhase::CheckingCancellationBeforeClone, BuildEvent::Cancellation(cancelled)) => {
                self.on_second_poll(cancelled)
            },
            (BuildPhase::Cloning, BuildEvent::Cloned(cloned)) => self.on_clone(cloned),
            (BuildPhase::ProbingDisk, BuildEvent::Disk(probe)) => self.on_disk(probe),
            (BuildPhase::Pruning, BuildEvent::Ran(outcome)) => self.on_prune(outcome),
            (BuildPhase::LocatingDockerfile, BuildEvent::Located(found)) => self.on_located(found),
            (BuildPhase::ReadingDockerfile, BuildEvent::FileBytes(read)) => self.on_dockerfile(read),
            (BuildPhase::BuildingWithDocker, BuildEvent::Ran(outcome)) => {
                self.on_docker_build(outcome)
            },
            (BuildPhase::ReadingProcfile, BuildEvent::Procfile(content)) => {
                self.on_procfile(content)
            },
            (BuildPhase::BuildingWithBuildpacks(i), BuildEvent::Ran(outcome)) => {
                self.on_pack_build(i, outcome)
            },
            _ => no_notices(),
        }
    }

    /// The result of the build, once it has ended: the build that was made
    /// or found to be made, or the error that ended it.
    pub fn into_result(self) -> (r: Option<Result<BuildResult, EngineError>>)
        ensures
            match self@.result {
                None => r is None,
                Some(Ok(_)) => r == Some(
                    Ok::<BuildResult, EngineError>(BuildResult { build: self@.build }),
                ),
                Some(Err(v)) => r matches Some(Err(e)) && e@ == v,
            },
    {
        match self.result {
            None => None,
            Some(Ok(_)) => Some(Ok(BuildResult { build: self.build })),
            Some(Err(e)) => Some(Err(e)),
        }
    }
}

impl LocalDocker {
    /// Begins the build of `build`. Where `force_build` is not set and Docker
    /// holds the image already, the build ends at once with success;
    /// otherwise the repository is cloned and the image built, from the
    /// Dockerfile where the build names one and with buildpacks otherwise.
    pub fn build(self, build: Build, force_build: bool) -> (r: BuildMachine)
        ensures
            r@ == BuildState::initial(self, build, force_build),
    {
        BuildMachine::new(self, build, force_build)
    }
}

/// What becomes of a build when `event` is reported.
#[verifier::opaque]
pub open spec fn step(s: BuildState, event: BuildEvent) -> BuildState {
    s.transition(event).0
}

/// What becomes of a build over a series of events, the first event first.
pub open spec fn after(s: BuildState, events: Seq<BuildEvent>) -> BuildState
    decreases events.len(),
{
    if events.len() == 0 {
        s
    } else {
        step(after(s, events.drop_last()), events.last())
    }
}

/// Whether an error says that the task was cancelled.
pub open spec fn is_cancellation(r: Option<Result<(), EngineErrorView>>) -> bool {
    r matches Some(Err(e)) && e.tag == Tag::TaskCancellationRequested
}

/// A build that starts is well formed, and stays so whatever is reported to
/// it.
#[verifier::rlimit(40)]
pub proof fn lemma_build_stays_well_formed(s: BuildState, event: BuildEvent)
    requires
        s.wf(),
    ensures
        BuildState::initial(s.platform, s.build, s.force_build).wf(),
        s.transition(event).0.wf(),
        s.transition(event).0.platform == s.platform,
        s.transition(event).0.build == s.build,
        s.transition(event).0.force_build == s.force_build,
{
    assert(s.platform.builders@.len() == s.platform.builders.len());
}

/// A build that has ended stays as it is and tells nothing more, whatever is
/// reported to it.
pub proof fn lemma_ended_build_stays(s: BuildState, events: Seq<BuildEvent>)
    requires
        s.phase == BuildPhase::Finished,
    ensures
        after(s, events) == s,
        forall|e: BuildEvent| (#[trigger] s.transition(e)).1 == Seq::<NoticeView>::empty(),
    decreases events.len(),
{
    reveal(step);
    if events.len() > 0 {
        lemma_ended_build_stays(s, events.drop_last());
    }
}

/// The Dockerfile is looked for where the build names it: for a path that is
/// none of the spellings of the usual place, the file that is located and
/// read is the workspace, the directory of the application and the path as it
/// is given, with a slash between each two; for those spellings, it is the
/// file `Dockerfile` of that directory.
pub proof fn lemma_dockerfile_is_located_as_named(s: BuildState, path: String)
    requires
        s.build.git_repository.dockerfile_path == Some(path),
    ensures
        !is_default_dockerfile(path@) ==> s.dockerfile_absolute() == s.workspace + "/"@ + (
        s.build.git_repository.root_path@ + "/"@ + path@),
        is_default_dockerfile(path@) ==> s.dockerfile_absolute() == s.workspace + "/"@ + (
        s.build.git_repository.root_path@ + "/"@ + "Dockerfile"@),
        s.phase == BuildPhase::LocatingDockerfile ==> s.pending() == (BuildRequestView::OnPath {
            work: PathWork::Locate,
            path: s.dockerfile_absolute(),
        }),
        s.phase == BuildPhase::ReadingDockerfile ==> s.pending() == (BuildRequestView::OnPath {
            work: PathWork::ReadBytes,
            path: s.dockerfile_absolute(),
        }),
{
}

/// The variables of a buildpack build: the command of every builder hands on,
/// each behind an `--env` of its own and in the order in which they are
/// given, the variables of the build whose name is not that of the switch of
/// the cache. A variable with that name is never among them, whatever its
/// value.
pub proof fn lemma_buildpack_variables(s: BuildState, i: int)
    requires
        0 <= i < s.platform.builders@.len(),
    ensures
        pack_request(s, i) matches BuildRequestView::Run { command, .. } && command.args
            == crate::build_platform::local_docker::pack_build_args(
            s.platform.context.spec_docker_build_options(),
            s.use_cache(),
            &s.build.image,
            env_var_args(s.build.options.environment_variables@),
            s.context_dir(),
            s.platform.builders@[i]@,
            s.buildpack(),
            s.worker,
        ),
        forall|k: int|
            0 <= k < env_var_args(s.build.options.environment_variables@).len() ==> exists|j: int|
                0 <= j < s.build.options.environment_variables@.len()
                    && !crate::build_platform::local_docker::has_cache_key(
                    #[trigger] s.build.options.environment_variables@[j],
                ) && crate::build_platform::local_docker::assignment_of(
                    s.build.options.environment_variables@[j],
                ) == #[trigger] env_var_args(s.build.options.environment_variables@)[k],
{
    let vars = s.build.options.environment_variables@;
    assert forall|k: int| 0 <= k < env_var_args(vars).len() implies exists|j: int|
        0 <= j < vars.len() && !crate::build_platform::local_docker::has_cache_key(
            #[trigger] vars[j],
        ) && crate::build_platform::local_docker::assignment_of(vars[j]) == #[trigger] env_var_args(
            vars,
        )[k] by {
        let a = env_var_args(vars)[k];
        assert(env_var_args(vars).contains(a));
        crate::build_platform::local_docker::lemma_env_var_args(vars, a);
    }
}

/// Whether a request asks for a command to be run.
pub open spec fn is_run(request: BuildRequestView) -> bool {
    request is Run
}

/// The cache short-circuit: a build that is not forced and whose image Docker
/// holds already ends with success as soon as the look-up has said so. All it
/// ever asks for is whether the task is cancelled and whether Docker holds the
/// image: no workspace, no clone, and no command is run, whatever is reported
/// afterwards.
#[verifier::rlimit(40)]
pub proof fn lemma_cache_short_circuit(
    platform: LocalDocker,
    build: Build,
    later: Seq<BuildEvent>,
)
    ensures
        ({
            let start = BuildState::initial(platform, build, false);
            let polled = start.transition(BuildEvent::Cancellation(false)).0;
            let found = polled.transition(BuildEvent::Ran(Ok(()))).0;
            &&& start.pending() == BuildRequestView::PollCancellation
            &&& polled.pending() == BuildRequestView::LookUpImage {
                command: platform.spec_image_inspect_command(&build.image),
            }
            &&& found.pending() == BuildRequestView::Complete
            &&& found.result == Some(Ok::<(), EngineErrorView>(()))
            &&& after(found, later) == found
            &&& !is_run(start.pending()) && !is_run(polled.pending()) && !is_run(
                after(found, later).pending(),
            )
        }),
{
    let start = BuildState::initial(platform, build, false);
    let polled = start.transition(BuildEvent::Cancellation(false)).0;
    let found = polled.transition(BuildEvent::Ran(Ok(()))).0;
    lemma_ended_build_stays(found, later);
}

/// The command that a buildpack build asks for while it tries the builder at
/// position `i`.
pub open spec fn pack_request(s: BuildState, i: int) -> BuildRequestView {
    BuildRequestView::Run {
        command: s.platform.spec_pack_build_command(
            &s.build,
            s.context_dir(),
            s.env_args(),
            s.use_cache(),
            s.platform.builders@[i]@,
            s.buildpack(),
            s.worker,
        ),
        abortable: true,
    }
}

/// The events that report that each of a series of commands failed.
pub open spec fn failures(errors: Seq<ExecError>) -> Seq<BuildEvent> {
    errors.map_values(|e: ExecError| BuildEvent::Ran(Err(e)))
}

/// While builders fail, without being stopped, and others are left, a
/// buildpack build tries the next one: after `errors.len()` failures that
/// began at the builder `first`, it asks for the build with the builder
/// `first + errors.len()`.
#[verifier::rlimit(40)]
pub proof fn lemma_fallback_advances(s: BuildState, first: usize, errors: Seq<ExecError>)
    requires
        s.phase == BuildPhase::BuildingWithBuildpacks(first),
        first + errors.len() < s.platform.builders@.len(),
        forall|i: int| 0 <= i < errors.len() ==> (#[trigger] errors[i]).failure != ExecFailure::Killed,
    ensures
        after(s, failures(errors)) == s.to(
            BuildPhase::BuildingWithBuildpacks((first + errors.len()) as usize),
        ),
        after(s, failures(errors)).pending() == pack_request(s, first + errors.len()),
    decreases errors.len(),
{
    reveal(step);
    assert(s.platform.builders@.len() == s.platform.builders.len());
    if errors.len() == 0 {
        assert(s.to(BuildPhase::BuildingWithBuildpacks(first)) == s);
    } else {
        let shorter = errors.drop_last();
        lemma_fallback_advances(s, first, shorter);
        assert(failures(errors).drop_last() =~= failures(shorter));
        assert(failures(errors).last() == BuildEvent::Ran(Err(errors.last())));
        assert(errors.last() == errors[errors.len() - 1]);
    }
}

/// A builder that succeeds ends the build with success.
pub proof fn lemma_builder_succeeds(s: BuildState, i: usize)
    requires
        s.phase == BuildPhase::BuildingWithBuildpacks(i),
    ensures
        s.transition(BuildEvent::Ran(Ok(()))).0 == s.done(Ok(())),
        s.done(Ok(())).pending() == BuildRequestView::Complete,
{
}

/// Builder fallback: where the first `errors.len()` builders fail, without
/// being stopped, and the next one succeeds, the build ends with success. It
/// has asked for one build command for each of those builders, in their
/// order, and asks for nothing more: the builders behind the one that
/// succeeded are never tried.
#[verifier::rlimit(40)]
pub proof fn lemma_builder_fallback(s: BuildState, errors: Seq<ExecError>, later: Seq<BuildEvent>)
    requires
        s.phase == BuildPhase::BuildingWithBuildpacks(0),
        errors.len() < s.platform.builders@.len(),
        forall|i: int| 0 <= i < errors.len() ==> (#[trigger] errors[i]).failure != ExecFailure::Killed,
    ensures
        forall|k: int|
            0 <= k <= errors.len() ==> (#[trigger] after(s, failures(errors.take(k)))).pending()
                == pack_request(s, k),
        after(s, failures(errors).push(BuildEvent::Ran(Ok(())))).result == Some(
            Ok::<(), EngineErrorView>(()),
        ),
        after(s, failures(errors).push(BuildEvent::Ran(Ok(())))).pending()
            == BuildRequestView::Complete,
        after(s, failures(errors).push(BuildEvent::Ran(Ok(()))) + later) == after(
            s,
            failures(errors).push(BuildEvent::Ran(Ok(()))),
        ),
{
    assert forall|k: int| 0 <= k <= errors.len() implies (#[trigger] after(
        s,
        failures(errors.take(k)),
    )).pending() == pack_request(s, k) by {
        lemma_fallback_advances(s, 0, errors.take(k));
    }
    lemma_fallback_ends(s, errors, later);
}

/// The end of a fallback: the success of the builder that follows the failed
/// ones ends the build, and nothing that is reported later changes it.
#[verifier::rlimit(40)]
pub proof fn lemma_fallback_ends(s: BuildState, errors: Seq<ExecError>, later: Seq<BuildEvent>)
    requires
        s.phase == BuildPhase::BuildingWithBuildpacks(0),
        errors.len() < s.platform.builders@.len(),
        forall|i: int| 0 <= i < errors.len() ==> (#[trigger] errors[i]).failure != ExecFailure::Killed,
    ensures
        after(s, failures(errors).push(BuildEvent::Ran(Ok(())))) == s.to(
            BuildPhase::BuildingWithBuildpacks(errors.len() as usize),
        ).done(Ok(())),
        after(s, failures(errors).push(BuildEvent::Ran(Ok(()))) + later) == after(
            s,
            failures(errors).push(BuildEvent::Ran(Ok(()))),
        ),
{
    reveal(step);
    lemma_fallback_advances(s, 0, errors);
    let all = failures(errors).push(BuildEvent::Ran(Ok(())));
    assert(all.drop_last() =~= failures(errors));
    assert(all.last() == BuildEvent::Ran(Ok(())));
    let before = after(s, failures(errors));
    lemma_builder_succeeds(before, errors.len() as usize);
    assert(after(s, all) == step(before, BuildEvent::Ran(Ok(()))));
    let ended = after(s, all);
    lemma_after_append(s, all, later);
    lemma_ended_build_stays(ended, later);
}

/// Events taken one series after the other are taken as one series.
pub proof fn lemma_after_append(s: BuildState, first: Seq<BuildEvent>, second: Seq<BuildEvent>)
    ensures
        after(s, first + second) == after(after(s, first), second),
    decreases second.len(),
{
    if second.len() == 0 {
        assert(first + second =~= first);
    } else {
        lemma_after_append(s, first, second.drop_last());
        assert((first + second).drop_last() =~= first + second.drop_last());
    }
}

/// The failure of the last builder, without being stopped, ends the build
/// with the error that names all the builders.
pub proof fn lemma_last_builder_fails(s: BuildState, i: usize, e: ExecError)
    requires
        s.phase == BuildPhase::BuildingWithBuildpacks(i),
        i + 1 == s.platform.builders@.len(),
        e.failure != ExecFailure::Killed,
    ensures
        s.transition(BuildEvent::Ran(Err(e))).0.result == Some(
            Err::<(), EngineErrorView>(
                s.pack_build_failed(ExecError::spec_describe(e.failure, e.message@)),
            ),
        ),
{
}

/// Where every builder fails, without being stopped, the build ends with the
/// error that names all the builders, after one build command for each.
#[verifier::rlimit(40)]
pub proof fn lemma_every_builder_fails(s: BuildState, errors: Seq<ExecError>)
    requires
        s.phase == BuildPhase::BuildingWithBuildpacks(0),
        errors.len() == s.platform.builders@.len(),
        errors.len() > 0,
        forall|i: int| 0 <= i < errors.len() ==> (#[trigger] errors[i]).failure != ExecFailure::Killed,
    ensures
        forall|k: int|
            0 <= k < errors.len() ==> (#[trigger] after(s, failures(errors.take(k)))).pending()
                == pack_request(s, k),
        after(s, failures(errors)).result == Some(
            Err::<(), EngineErrorView>(
                s.pack_build_failed(
                    ExecError::spec_describe(errors.last().failure, errors.last().message@),
                ),
            ),
        ),
{
    reveal(step);
    assert forall|k: int| 0 <= k < errors.len() implies (#[trigger] after(
        s,
        failures(errors.take(k)),
    )).pending() == pack_request(s, k) by {
        lemma_fallback_advances(s, 0, errors.take(k));
    }
    let shorter = errors.drop_last();
    let last = errors.last();
    assert(last == errors[errors.len() - 1]);
    lemma_fallback_advances(s, 0, shorter);
    let before = after(s, failures(shorter));
    assert(failures(errors).drop_last() =~= failures(shorter));
    assert(failures(errors).last() == BuildEvent::Ran(Err(last)));
    assert(after(s, failures(errors)) == step(before, BuildEvent::Ran(Err(last))));
    assert(s.platform.builders@.len() == s.platform.builders.len());
    lemma_last_builder_fails(before, (errors.len() - 1) as usize, last);
    assert(before.pack_build_failed(ExecError::spec_describe(last.failure, last.message@))
        == s.pack_build_failed(ExecError::spec_describe(last.failure, last.message@)));
}

/// Cancellation comes first: a build command that was stopped ends the build
/// with the error of a cancelled task, whichever way of building was chosen
/// and whichever builder was being tried; and so does a cancellation that is
/// seen when the build asks for it. No further builder is tried.
pub proof fn lemma_cancellation_ends_build(s: BuildState, e: ExecError)
    requires
        e.failure == ExecFailure::Killed,
    ensures
        s.phase == BuildPhase::BuildingWithDocker || s.phase is BuildingWithBuildpacks
            ==> is_cancellation(s.transition(BuildEvent::Ran(Err(e))).0.result) && s.transition(
            BuildEvent::Ran(Err(e)),
        ).0.phase == BuildPhase::Finished,
        s.phase == BuildPhase::CheckingCancellation || s.phase
            == BuildPhase::CheckingCancellationBeforeClone ==> is_cancellation(
            s.transition(BuildEvent::Cancellation(true)).0.result,
        ) && s.transition(BuildEvent::Cancellation(true)).0.phase == BuildPhase::Finished,
{
}

/// Cancellation from the command to the build: where the cancellation is seen
/// while a build command runs, the run of the command fails as stopped,
/// whether or not its time was up and whatever the process did; and a build
/// command that failed as stopped ends the build with the error of a
/// cancelled task.
pub proof fn lemma_cancellation_precedence(
    s: BuildState,
    run: crate::cmd::Execution,
    before: Seq<(crate::cmd::Observation, u64, bool)>,
    observation: crate::cmd::Observation,
    elapsed_millis: u64,
    later: Seq<(crate::cmd::Observation, u64, bool)>,
    e: ExecError,
)
    requires
        s.phase == BuildPhase::BuildingWithDocker || s.phase is BuildingWithBuildpacks,
        crate::cmd::state_after(run, before) == crate::cmd::RunState::Running,
        crate::cmd::state_after(run, before.push((observation, elapsed_millis, true)) + later)
            == crate::cmd::RunState::Failed(e.failure),
    ensures
        e.failure == ExecFailure::Killed,
        is_cancellation(s.transition(BuildEvent::Ran(Err(e))).0.result),
        s.transition(BuildEvent::Ran(Err(e))).0.phase == BuildPhase::Finished,
{
    crate::cmd::lemma_cancellation_precedence(run, before, observation, elapsed_millis, later);
    lemma_cancellation_ends_build(s, e);
}

/// A build comes to a build command only after it has read the Dockerfile or
/// the Procfile, or from the builder before: never straight from the look-up
/// of the image or from the clone.
pub proof fn lemma_build_commands_follow_selection(s: BuildState, event: BuildEvent)
    requires
        s.wf(),
        s.transition(event).0.phase == BuildPhase::BuildingWithDocker || s.transition(
            event,
        ).0.phase is BuildingWithBuildpacks,
    ensures
        s.phase == BuildPhase::ReadingDockerfile || s.phase == BuildPhase::ReadingProcfile
            || s.phase is BuildingWithBuildpacks || s.phase == BuildPhase::BuildingWithDocker,
{
}

} // verus!
