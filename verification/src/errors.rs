//! Errors: what a failed command says, and the typed, redaction-aware error
//! that every component of the engine returns.
//!
//! An error keeps the raw text of what went wrong apart from the text that is
//! safe to show: the raw text may hold passwords and tokens.

use crate::events::{opt_text, EventDetails};
use crate::text::{concat3, decimal, decimal_text, join, joined, lemma_texts_push, texts};
use vstd::prelude::*;
use vstd::string::*;

verus! {

/// A link to the documentation of an error. The engine only carries it.
#[verifier::external_type_specification]
#[verifier::external_body]
pub struct ExUrl(url::Url);

/// `Url::clone` gives a link equal to the one it was called on.
///
/// Trusted: the implementation is derived, field by field.
pub assume_specification[ <url::Url as Clone>::clone ](u: &url::Url) -> (r: url::Url)
    ensures
        r == *u,
;

/// A simple error, mostly returned by third party tools.
#[derive(Debug)]
pub struct SimpleError {
    /// The full message; may hold passwords and tokens.
    message: String,
    /// The message without any protected data.
    message_safe: String,
}

pub struct SimpleErrorView {
    pub message: Seq<char>,
    pub message_safe: Seq<char>,
}

impl View for SimpleError {
    type V = SimpleErrorView;

    closed spec fn view(&self) -> SimpleErrorView {
        SimpleErrorView { message: self.message@, message_safe: self.message_safe@ }
    }
}

impl SimpleError {
    /// The full message; may hold passwords and tokens.
    pub fn message(&self) -> (r: &str)
        ensures
            r@ == self@.message,
    {
        self.message.as_str()
    }

    /// The message without any protected data.
    pub fn message_safe(&self) -> (r: &str)
        ensures
            r@ == self@.message_safe,
    {
        self.message_safe.as_str()
    }

    /// An error whose message holds nothing to hide.
    pub fn new_from_safe_message(message: String) -> (r: Self)
        ensures
            r@ == (SimpleErrorView { message: message@, message_safe: message@ }),
    {
        let safe = message.clone();
        SimpleError::new(message, safe)
    }

    /// An error with both a full and a safe message.
    pub fn new(message: String, message_safe: String) -> (r: Self)
        ensures
            r@ == (SimpleErrorView { message: message@, message_safe: message_safe@ }),
    {
        SimpleError { message, message_safe }
    }
}

/// What a failed command or remote call says, with the safe rendering of it
/// where one is known.
#[derive(Debug)]
pub struct CommandError {
    message: String,
    message_safe: Option<String>,
}

pub struct CommandErrorView {
    pub message: Seq<char>,
    pub message_safe: Option<Seq<char>>,
}

impl View for CommandError {
    type V = CommandErrorView;

    closed spec fn view(&self) -> CommandErrorView {
        CommandErrorView { message: self.message@, message_safe: opt_text(self.message_safe) }
    }
}

impl CommandError {
    /// The text to show for `v`: the safe one where there is one.
    pub open spec fn spec_message(v: CommandErrorView) -> Seq<char> {
        match v.message_safe {
            Some(s) => s,
            None => v.message,
        }
    }

    pub fn new(message: String, message_safe: Option<String>) -> (r: Self)
        ensures
            r@ == (CommandErrorView { message: message@, message_safe: opt_text(message_safe) }),
    {
        CommandError { message, message_safe }
    }

    /// An error whose message holds nothing to hide.
    pub fn new_from_safe_message(message: String) -> (r: Self)
        ensures
            r@ == (CommandErrorView { message: message@, message_safe: Some(message@) }),
    {
        let safe = message.clone();
        CommandError { message, message_safe: Some(safe) }
    }

    /// The full message; may hold passwords and tokens.
    pub fn message_raw(&self) -> (r: String)
        ensures
            r@ == self@.message,
    {
        self.message.clone()
    }

    /// The safe message, where there is one.
    pub fn message_safe(&self) -> (r: Option<String>)
        ensures
            opt_text(r) == self@.message_safe,
    {
        match &self.message_safe {
            Some(s) => Some(s.clone()),
            None => None,
        }
    }

    /// The message to show: the safe one where there is one, the full one
    /// otherwise.
    pub fn message(&self) -> (r: String)
        ensures
            r@ == Self::spec_message(self@),
    {
        match &self.message_safe {
            Some(s) => s.clone(),
            None => self.message.clone(),
        }
    }
}

/// The class of an error: what callers branch on, in place of its text.
#[derive(Clone, Copy, Debug, PartialEq, Eq, Structural)]
pub enum Tag {
    /// No class is known.
    Unknown,
    /// The cloud provider does not offer the requested instance type.
    UnsupportedInstanceType,
    /// The configuration file of the cluster could not be retrieved.
    CannotRetrieveClusterConfigFile,
    /// The nodes of the cluster could not be listed.
    CannotGetClusterNodes,
    /// The cluster lacks the resources that the environment asks for.
    NotEnoughResourcesToDeployEnvironment,
    /// The task was cancelled on request.
    TaskCancellationRequested,
    /// A program that the engine drives is not installed.
    MissingRequiredBinary,
    /// What was asked for is not implemented.
    NotImplementedError,
    /// The workspace directory could not be set up.
    CannotGetWorkspaceDirectory,
    /// The earlier build of a repository could not be determined.
    BuilderGetBuildError,
    /// The source repository could not be cloned.
    BuilderCloningRepositoryError,
    /// The named Dockerfile does not exist.
    DockerCannotFindDockerfile,
    /// The Dockerfile could not be read.
    DockerCannotReadDockerfile,
    /// The build arguments could not be told from the Dockerfile.
    DockerCannotExtractEnvVarsFromDockerfile,
    /// The Dockerfile build failed.
    DockerCannotBuildContainerImage,
    /// The buildpack language hint has more than two parts.
    BuildpackInvalidLanguageFormat,
    /// Every buildpack builder failed.
    BuildpackCannotBuildContainerImage,
    /// The image could not be pushed.
    DockerPushImageError,
    /// The image could not be pulled.
    DockerPullImageError,
    /// The repository could not be created in the registry.
    ContainerRegistryNamespaceCreationError,
    /// The retention policy of the repository could not be set.
    ContainerRegistryRepositorySetLifecycleError,
    /// The registry handed out no credentials.
    ContainerRegistryGetCredentialsError,
    /// The cloud provider refused the credentials.
    ClientInvalidCloudProviderCredentials,
    /// A value in the provisioning context is not supported.
    TerraformUnsupportedContextParameterValue,
    /// The requested and the burstable CPU do not fit together.
    K8sValidateRequiredCPUandBurstableError,
    /// The requested version of a service is not supported.
    UnsupportedVersion,
}

/// An error of the engine: its class, where it happened, a message for the
/// team and one for the user, the raw and the safe text of the cause, a link to
/// documentation and a hint.
#[derive(Debug)]
pub struct EngineError {
    tag: Tag,
    event_details: EventDetails,
    qovery_log_message: String,
    user_log_message: String,
    raw_message: Option<String>,
    raw_message_safe: Option<String>,
    link: Option<url::Url>,
    hint_message: Option<String>,
}

pub struct EngineErrorView {
    pub tag: Tag,
    pub event_details: EventDetails,
    pub qovery_log_message: Seq<char>,
    pub user_log_message: Seq<char>,
    pub raw_message: Option<Seq<char>>,
    pub raw_message_safe: Option<Seq<char>>,
    pub link: Option<url::Url>,
    pub hint_message: Option<Seq<char>>,
}

impl View for EngineError {
    type V = EngineErrorView;

    closed spec fn view(&self) -> EngineErrorView {
        EngineErrorView {
            tag: self.tag,
            event_details: self.event_details,
            qovery_log_message: self.qovery_log_message@,
            user_log_message: self.user_log_message@,
            raw_message: opt_text(self.raw_message),
            raw_message_safe: opt_text(self.raw_message_safe),
            link: self.link,
            hint_message: opt_text(self.hint_message),
        }
    }
}

impl Clone for EngineError {
    fn clone(&self) -> (r: Self)
        ensures
            r@ == self@,
    {
        EngineError {
            tag: self.tag,
            event_details: self.event_details.clone(),
            qovery_log_message: self.qovery_log_message.clone(),
            user_log_message: self.user_log_message.clone(),
            raw_message: clone_opt(&self.raw_message),
            raw_message_safe: clone_opt(&self.raw_message_safe),
            link: match &self.link {
                Some(u) => Some(u.clone()),
                None => None,
            },
            hint_message: clone_opt(&self.hint_message),
        }
    }
}

fn clone_opt(o: &Option<String>) -> (r: Option<String>)
    ensures
        r == *o,
{
    match o {
        Some(s) => Some(s.clone()),
        None => None,
    }
}

/// Whether `r` is `expected`: the same value, or an error with that content.
pub open spec fn result_is<T>(r: Result<T, EngineError>, expected: Result<T, EngineErrorView>) -> bool {
    match (r, expected) {
        (Ok(a), Ok(b)) => a == b,
        (Err(a), Err(b)) => a@ == b,
        _ => false,
    }
}

/// The view of a failed command with this raw text and no safe text.
pub open spec fn raw_cause(message: Seq<char>) -> CommandErrorView {
    CommandErrorView { message, message_safe: None }
}

/// The text that stands for an error without any message.
pub open spec fn no_message() -> Seq<char> {
    "no error message defined"@
}

/// The message of an error: the safe text of the cause where there is one, its
/// raw text otherwise, and a fixed text where there is neither.
pub open spec fn shown_message(v: EngineErrorView) -> Seq<char> {
    match v.raw_message_safe {
        Some(s) => s,
        None => match v.raw_message {
            Some(s) => s,
            None => no_message(),
        },
    }
}

/// Redaction: where an error has a safe text, its message is that text. The
/// raw text is never shown in its place, whether or not the error has one.
pub proof fn lemma_safe_message_is_shown(v: EngineErrorView)
    requires
        v.raw_message_safe is Some,
    ensures
        shown_message(v) == v.raw_message_safe->0,
        v.raw_message is Some && v.raw_message->0 != v.raw_message_safe->0 ==> shown_message(v)
            != v.raw_message->0,
{
}

/// An error made with a cause takes the safe text of the cause where the
/// cause has one: the message of such an error is the safe text of its cause.
pub proof fn lemma_described_error_shows_safe_cause(
    tag: Tag,
    event_details: EventDetails,
    message: Seq<char>,
    cause: CommandErrorView,
    hint: Option<Seq<char>>,
)
    requires
        cause.message_safe is Some,
    ensures
        shown_message(EngineError::described(tag, event_details, message, Some(cause), hint))
            == cause.message_safe->0,
{
}

/// The one-line statement that the cluster lacks resources, followed by one
/// line for each resource that is short.
pub open spec fn shortage_lines(
    requested_ram_in_mib: u32,
    free_ram_in_mib: u32,
    cpu_shortage: Option<Seq<char>>,
) -> Seq<Seq<char>> {
    let head = seq!["There is not enough resources on the cluster:"@];
    let cpu = match cpu_shortage {
        Some(line) => head.push(line),
        None => head,
    };
    if requested_ram_in_mib > free_ram_in_mib {
        cpu.push(
            decimal(requested_ram_in_mib as nat) + "mib RAM requested and only "@ + decimal(
                free_ram_in_mib as nat,
            ) + "mib RAM  available"@,
        )
    } else {
        cpu
    }
}

/// The hint given with every shortage of resources.
pub open spec fn add_nodes_hint() -> Seq<char> {
    "Consider to add one more node or upgrade your nodes configuration. If not possible, pause or delete unused environments."@
}

impl EngineError {
    /// The class of the error.
    pub fn tag(&self) -> (r: &Tag)
        ensures
            *r == self@.tag,
    {
        &self.tag
    }

    /// Where the error happened.
    pub fn event_details(&self) -> (r: &EventDetails)
        ensures
            *r == self@.event_details,
    {
        &self.event_details
    }

    /// The message for the team that runs the engine.
    pub fn qovery_log_message(&self) -> (r: &str)
        ensures
            r@ == self@.qovery_log_message,
    {
        self.qovery_log_message.as_str()
    }

    /// The message for the user.
    pub fn user_log_message(&self) -> (r: &str)
        ensures
            r@ == self@.user_log_message,
    {
        self.user_log_message.as_str()
    }

    /// The message of the error: the safe text where there is one, so that the
    /// raw text is never shown in its place; the raw text where there is no
    /// safe one; a fixed text where there is neither.
    pub fn message(&self) -> (r: String)
        ensures
            r@ == shown_message(self@),
            self@.raw_message_safe is Some ==> r@ == self@.raw_message_safe->0,
    {
        if let Some(msg) = &self.raw_message_safe {
            return msg.clone();
        }
        if let Some(msg) = &self.raw_message {
            return msg.clone();
        }
        String::from_str("no error message defined")
    }

    /// The link to the documentation of the error.
    pub fn link(&self) -> (r: &Option<url::Url>)
        ensures
            *r == self@.link,
    {
        &self.link
    }

    /// The hint for the user.
    pub fn hint_message(&self) -> (r: &Option<String>)
        ensures
            opt_text(*r) == self@.hint_message,
    {
        &self.hint_message
    }

    /// An error made of its parts.
    pub fn new(
        event_details: EventDetails,
        tag: Tag,
        qovery_log_message: String,
        user_log_message: String,
        raw_message: Option<String>,
        raw_message_safe: Option<String>,
        link: Option<url::Url>,
        hint_message: Option<String>,
    ) -> (r: Self)
        ensures
            r@ == (EngineErrorView {
                tag,
                event_details,
                qovery_log_message: qovery_log_message@,
                user_log_message: user_log_message@,
                raw_message: opt_text(raw_message),
                raw_message_safe: opt_text(raw_message_safe),
                link,
                hint_message: opt_text(hint_message),
            }),
    {
        EngineError {
            event_details,
            tag,
            qovery_log_message,
            user_log_message,
            raw_message,
            raw_message_safe,
            link,
            hint_message,
        }
    }

    /// The view of an error whose two log messages are `message`, caused by
    /// `cause` where there is one, without a link.
    pub open spec fn described(
        tag: Tag,
        event_details: EventDetails,
        message: Seq<char>,
        cause: Option<CommandErrorView>,
        hint: Option<Seq<char>>,
    ) -> EngineErrorView {
        EngineErrorView {
            tag,
            event_details,
            qovery_log_message: message,
            user_log_message: message,
            raw_message: match cause {
                Some(c) => Some(c.message),
                None => None,
            },
            raw_message_safe: match cause {
                Some(c) => c.message_safe,
                None => None,
            },
            link: None,
            hint_message: hint,
        }
    }

    /// An error whose two log messages are `message`, caused by `cause` where
    /// there is one: the raw and the safe text of the cause become those of the
    /// error.
    pub fn new_described(
        event_details: EventDetails,
        tag: Tag,
        message: String,
        cause: Option<CommandError>,
        hint: Option<String>,
    ) -> (r: Self)
        ensures
            r@ == Self::described(
                tag,
                event_details,
                message@,
                match cause {
                    Some(c) => Some(c@),
                    None => None,
                },
                opt_text(hint),
            ),
    {
        let user = message.clone();
        let (raw, safe) = match cause {
            Some(c) => (Some(c.message), c.message_safe),
            None => (None, None),
        };
        EngineError::new(event_details, tag, message, user, raw, safe, None, hint)
    }

    /// An error of no known class. To be used only where no other class fits.
    pub fn new_unknown(
        event_details: EventDetails,
        qovery_log_message: String,
        user_log_message: String,
        raw_message: Option<String>,
        raw_message_safe: Option<String>,
        link: Option<url::Url>,
        hint_message: Option<String>,
    ) -> (r: EngineError)
        ensures
            r@ == (EngineErrorView {
                tag: Tag::Unknown,
                event_details,
                qovery_log_message: qovery_log_message@,
                user_log_message: user_log_message@,
                raw_message: opt_text(raw_message),
                raw_message_safe: opt_text(raw_message_safe),
                link,
                hint_message: opt_text(hint_message),
            }),
    {
        EngineError::new(
            event_details,
            Tag::Unknown,
            qovery_log_message,
            user_log_message,
            raw_message,
            raw_message_safe,
            link,
            hint_message,
        )
    }

    /// The cloud provider does not offer the requested instance type.
    pub fn new_unsupported_instance_type(
        event_details: EventDetails,
        requested_instance_type: &str,
        raw_message: String,
    ) -> (r: EngineError)
        ensures
            r@ == (EngineErrorView {
                tag: Tag::UnsupportedInstanceType,
                event_details,
                qovery_log_message: "`"@ + requested_instance_type@
                    + "` instance type is not supported"@,
                user_log_message: "`"@ + requested_instance_type@
                    + "` instance type is not supported"@,
                raw_message: Some(raw_message@),
                raw_message_safe: Some(raw_message@),
                link: None,
                hint_message: Some(
                    "Selected instance type is not supported, please check provider's documentation."@,
                ),
            }),
    {
        let message = concat3("`", requested_instance_type, "` instance type is not supported");
        let user = message.clone();
        let raw = raw_message.clone();
        EngineError::new(
            event_details,
            Tag::UnsupportedInstanceType,
            message,
            user,
            Some(raw),
            Some(raw_message),
            None,
            Some(
                String::from_str(
                    "Selected instance type is not supported, please check provider's documentation.",
                ),
            ),
        )
    }

    /// The configuration file of the cluster could not be retrieved.
    pub fn new_cannot_retrieve_cluster_config_file(
        event_details: EventDetails,
        raw_message: String,
    ) -> (r: EngineError)
        ensures
            r@ == (EngineErrorView {
                tag: Tag::CannotRetrieveClusterConfigFile,
                event_details,
                qovery_log_message: "Cannot retrieve Kubernetes instance type is not supported"@,
                user_log_message: "Cannot retrieve Kubernetes instance type is not supported"@,
                raw_message: Some(raw_message@),
                raw_message_safe: None,
                link: None,
                hint_message: None,
            }),
    {
        let message = "Cannot retrieve Kubernetes instance type is not supported";
        EngineError::new(
            event_details,
            Tag::CannotRetrieveClusterConfigFile,
            String::from_str(message),
            String::from_str(message),
            Some(raw_message),
            None,
            None,
            None,
        )
    }

    /// The nodes of the cluster could not be listed.
    pub fn new_cannot_get_cluster_nodes(event_details: EventDetails, raw_message: String) -> (r:
        EngineError)
        ensures
            r@ == (EngineErrorView {
                tag: Tag::CannotGetClusterNodes,
                event_details,
                qovery_log_message: "Cannot get Kubernetes nodes"@,
                user_log_message: "Cannot get Kubernetes nodes"@,
                raw_message: Some(raw_message@),
                raw_message_safe: None,
                link: None,
                hint_message: None,
            }),
    {
        let message = "Cannot get Kubernetes nodes";
        EngineError::new(
            event_details,
            Tag::CannotGetClusterNodes,
            String::from_str(message),
            String::from_str(message),
            Some(raw_message),
            None,
            None,
            None,
        )
    }

    /// The cluster lacks memory or CPU for the deployment. `cpu_shortage` is
    /// the line that states the shortage of CPU, where there is one; the line
    /// on memory is added where more is requested than is free.
    #[verifier::rlimit(40)]
    pub fn new_cannot_deploy_not_enough_resources_available(
        event_details: EventDetails,
        requested_ram_in_mib: u32,
        free_ram_in_mib: u32,
        cpu_shortage: Option<String>,
    ) -> (r: EngineError)
        ensures
            r@ == Self::described(
                Tag::NotEnoughResourcesToDeployEnvironment,
                event_details,
                join(
                    shortage_lines(requested_ram_in_mib, free_ram_in_mib, opt_text(cpu_shortage)),
                    "\n"@,
                ),
                None,
                Some(add_nodes_hint()),
            ),
    {
        let mut lines: Vec<String> = Vec::new();
        lines.push(String::from_str("There is not enough resources on the cluster:"));
        proof {
            assert(texts(lines@) =~= seq!["There is not enough resources on the cluster:"@]);
        }
        if let Some(line) = cpu_shortage {
            proof {
                lemma_texts_push(lines@, line);
            }
            lines.push(line);
        }
        if requested_ram_in_mib > free_ram_in_mib {
            let mut line = decimal_text(requested_ram_in_mib as u64);
            line.append("mib RAM requested and only ");
            line.append(decimal_text(free_ram_in_mib as u64).as_str());
            line.append("mib RAM  available");
            proof {
                lemma_texts_push(lines@, line);
            }
            lines.push(line);
        }
        let message = joined(&lines, "\n");
        EngineError::new_described(
            event_details,
            Tag::NotEnoughResourcesToDeployEnvironment,
            message,
            None,
            Some(
                String::from_str(
                    "Consider to add one more node or upgrade your nodes configuration. If not possible, pause or delete unused environments.",
                ),
            ),
        )
    }

    /// The cluster has fewer free pods than the deployment requests.
    pub fn new_cannot_deploy_not_enough_free_pods_available(
        event_details: EventDetails,
        requested_pods: u32,
        free_pods: u32,
    ) -> (r: EngineError)
        ensures
            r@ == Self::described(
                Tag::NotEnoughResourcesToDeployEnvironment,
                event_details,
                "There is not enough free Pods (free "@ + decimal(free_pods as nat) + " VS "@
                    + decimal(requested_pods as nat) + " required) on the cluster."@,
                None,
                Some(add_nodes_hint()),
            ),
    {
        let mut message = String::from_str("There is not enough free Pods (free ");
        message.append(decimal_text(free_pods as u64).as_str());
        message.append(" VS ");
        message.append(decimal_text(requested_pods as u64).as_str());
        message.append(" required) on the cluster.");
        EngineError::new_described(
            event_details,
            Tag::NotEnoughResourcesToDeployEnvironment,
            message,
            None,
            Some(
                String::from_str(
                    "Consider to add one more node or upgrade your nodes configuration. If not possible, pause or delete unused environments.",
                ),
            ),
        )
    }
}

impl EngineError {
    /// The task was cancelled on request.
    pub fn new_task_cancellation_requested(event_details: EventDetails) -> (r: EngineError)
        ensures
            r@ == Self::described(
                Tag::TaskCancellationRequested,
                event_details,
                "Task cancellation has been requested."@,
                None,
                None,
            ),
    {
        let mut message = String::from_str("Task cancellation has been requested.");
        EngineError::new_described(event_details, Tag::TaskCancellationRequested, message, None, None)
    }

    /// A program that the engine drives is not installed.
    pub fn new_missing_required_binary(event_details: EventDetails, missing_binary_name: &str) -> (r: EngineError)
        ensures
            r@ == Self::described(
                Tag::MissingRequiredBinary,
                event_details,
                "`"@ + missing_binary_name@ + "` binary is required but was not found."@,
                None,
                None,
            ),
    {
        let mut message = String::from_str("`");
        message.append(missing_binary_name);
        message.append("` binary is required but was not found.");
        EngineError::new_described(event_details, Tag::MissingRequiredBinary, message, None, None)
    }

    /// What was asked for is not implemented.
    pub fn new_not_implemented_error(event_details: EventDetails) -> (r: EngineError)
        ensures
            r@ == Self::described(
                Tag::NotImplementedError,
                event_details,
                "Error, something is not implemented."@,
                None,
                None,
            ),
    {
        let mut message = String::from_str("Error, something is not implemented.");
        EngineError::new_described(event_details, Tag::NotImplementedError, message, None, None)
    }

    /// The workspace directory could not be set up.
    pub fn new_cannot_get_workspace_directory(event_details: EventDetails, cause: CommandError) -> (r: EngineError)
        ensures
            r@ == Self::described(
                Tag::CannotGetWorkspaceDirectory,
                event_details,
                "Error while trying to get workspace directory"@,
                Some(cause@),
                None,
            ),
    {
        let mut message = String::from_str("Error while trying to get workspace directory");
        EngineError::new_described(event_details, Tag::CannotGetWorkspaceDirectory, message, Some(cause), None)
    }

    /// The earlier build of a commit could not be determined.
    pub fn new_builder_get_build_error(event_details: EventDetails, commit_id: &str, cause: CommandError) -> (r: EngineError)
        ensures
            r@ == Self::described(
                Tag::BuilderGetBuildError,
                event_details,
                "Error while trying to get build with commit ID: `"@ + commit_id@ + "`."@,
                Some(cause@),
                None,
            ),
    {
        let mut message = String::from_str("Error while trying to get build with commit ID: `");
        message.append(commit_id);
        message.append("`.");
        EngineError::new_described(event_details, Tag::BuilderGetBuildError, message, Some(cause), None)
    }

    /// The source repository could not be cloned.
    pub fn new_builder_clone_repository_error(event_details: EventDetails, repository_url: &str, cause: CommandError) -> (r: EngineError)
        ensures
            r@ == Self::described(
                Tag::BuilderCloningRepositoryError,
                event_details,
                "Error while cloning repository `"@ + repository_url@ + "`."@,
                Some(cause@),
                None,
            ),
    {
        let mut message = String::from_str("Error while cloning repository `");
        message.append(repository_url);
        message.append("`.");
        EngineError::new_described(event_details, Tag::BuilderCloningRepositoryError, message, Some(cause), None)
    }

    /// The named Dockerfile does not exist.
    pub fn new_docker_cannot_find_dockerfile(event_details: EventDetails, dockerfile_path: &str) -> (r: EngineError)
        ensures
            r@ == Self::described(
                Tag::DockerCannotFindDockerfile,
                event_details,
                "Error while trying to build Docker image, Dockerfile not found at location `"@ + dockerfile_path@ + "`"@,
                None,
                Some("Your Dockerfile is not present at the specified location, check your settings."@),
            ),
    {
        let mut message = String::from_str("Error while trying to build Docker image, Dockerfile not found at location `");
        message.append(dockerfile_path);
        message.append("`");
        EngineError::new_described(event_details, Tag::DockerCannotFindDockerfile, message, None, Some(String::from_str("Your Dockerfile is not present at the specified location, check your settings.")))
    }

    /// The Dockerfile could not be read.
    pub fn new_docker_cannot_read_dockerfile(event_details: EventDetails, dockerfile_path: &str, cause: CommandError) -> (r: EngineError)
        ensures
            r@ == Self::described(
                Tag::DockerCannotReadDockerfile,
                event_details,
                "Can't read Dockerfile `"@ + dockerfile_path@ + "`."@,
                Some(cause@),
                None,
            ),
    {
        let mut message = String::from_str("Can't read Dockerfile `");
        message.append(dockerfile_path);
        message.append("`.");
        EngineError::new_described(event_details, Tag::DockerCannotReadDockerfile, message, Some(cause), None)
    }

    /// The build arguments could not be told from the Dockerfile.
    pub fn new_docker_cannot_extract_env_vars_from_dockerfile(event_details: EventDetails, dockerfile_path: &str, cause: CommandError) -> (r: EngineError)
        ensures
            r@ == Self::described(
                Tag::DockerCannotExtractEnvVarsFromDockerfile,
                event_details,
                "Can't extract ENV vars from Dockerfile `"@ + dockerfile_path@ + "`."@,
                Some(cause@),
                None,
            ),
    {
        let mut message = String::from_str("Can't extract ENV vars from Dockerfile `");
        message.append(dockerfile_path);
        message.append("`.");
        EngineError::new_described(event_details, Tag::DockerCannotExtractEnvVarsFromDockerfile, message, Some(cause), None)
    }

    /// The Dockerfile build failed.
    pub fn new_docker_cannot_build_container_image(event_details: EventDetails, container_image_name: &str, cause: CommandError) -> (r: EngineError)
        ensures
            r@ == Self::described(
                Tag::DockerCannotBuildContainerImage,
                event_details,
                "Error while building container image `"@ + container_image_name@ + "`."@,
                Some(cause@),
                None,
            ),
    {
        let mut message = String::from_str("Error while building container image `");
        message.append(container_image_name);
        message.append("`.");
        EngineError::new_described(event_details, Tag::DockerCannotBuildContainerImage, message, Some(cause), None)
    }

    /// The buildpack language hint is not of the form `builder[@version]`.
    pub fn new_buildpack_invalid_language_format(event_details: EventDetails, requested_language: &str) -> (r: EngineError)
        ensures
            r@ == Self::described(
                Tag::BuildpackInvalidLanguageFormat,
                event_details,
                "Cannot build: Invalid buildpacks language format: expected `builder[@version]` got "@ + requested_language@,
                None,
                Some("Expected format `builder[@version]`."@),
            ),
    {
        let mut message = String::from_str("Cannot build: Invalid buildpacks language format: expected `builder[@version]` got ");
        message.append(requested_language);
        EngineError::new_described(event_details, Tag::BuildpackInvalidLanguageFormat, message, None, Some(String::from_str("Expected format `builder[@version]`.")))
    }

    /// The image could not be pushed.
    pub fn new_docker_push_image_error(event_details: EventDetails, image_name: &str, repository_url: &str, cause: CommandError) -> (r: EngineError)
        ensures
            r@ == Self::described(
                Tag::DockerPushImageError,
                event_details,
                "Error, trying to push Docker image `"@ + image_name@ + "` to repository `"@ + repository_url@ + "`."@,
                Some(cause@),
                None,
            ),
    {
        let mut message = String::from_str("Error, trying to push Docker image `");
        message.append(image_name);
        message.append("` to repository `");
        message.append(repository_url);
        message.append("`.");
        EngineError::new_described(event_details, Tag::DockerPushImageError, message, Some(cause), None)
    }

    /// The image could not be pulled.
    pub fn new_docker_pull_image_error(event_details: EventDetails, image_name: &str, repository_url: &str, cause: CommandError) -> (r: EngineError)
        ensures
            r@ == Self::described(
                Tag::DockerPullImageError,
                event_details,
                "Error, trying to pull Docker image `"@ + image_name@ + "` from repository `"@ + repository_url@ + "`."@,
                Some(cause@),
                None,
            ),
    {
        let mut message = String::from_str("Error, trying to pull Docker image `");
        message.append(image_name);
        message.append("` from repository `");
        message.append(repository_url);
        message.append("`.");
        EngineError::new_described(event_details, Tag::DockerPullImageError, message, Some(cause), None)
    }

    /// The repository could not be created in the registry.
    pub fn new_container_registry_namespace_creation_error(event_details: EventDetails, repository_name: &str, registry_name: &str, cause: CommandError) -> (r: EngineError)
        ensures
            r@ == Self::described(
                Tag::ContainerRegistryNamespaceCreationError,
                event_details,
                "Error, trying to create registry `"@ + repository_name@ + "` in namespace `"@ + registry_name@ + "`."@,
                Some(cause@),
                None,
            ),
    {
        let mut message = String::from_str("Error, trying to create registry `");
        message.append(repository_name);
        message.append("` in namespace `");
        message.append(registry_name);
        message.append("`.");
        EngineError::new_described(event_details, Tag::ContainerRegistryNamespaceCreationError, message, Some(cause), None)
    }

    /// The retention policy of the repository could not be set.
    pub fn new_container_registry_repository_set_lifecycle_policy_error(event_details: EventDetails, repository_name: &str, cause: CommandError) -> (r: EngineError)
        ensures
            r@ == Self::described(
                Tag::ContainerRegistryRepositorySetLifecycleError,
                event_details,
                "Error, trying to set lifecycle policy repository `"@ + repository_name@ + "`."@,
                Some(cause@),
                None,
            ),
    {
        let mut message = String::from_str("Error, trying to set lifecycle policy repository `");
        message.append(repository_name);
        message.append("`.");
        EngineError::new_described(event_details, Tag::ContainerRegistryRepositorySetLifecycleError, message, Some(cause), None)
    }

    /// The registry handed out no credentials.
    pub fn new_container_registry_get_credentials_error(event_details: EventDetails, repository_name: &str) -> (r: EngineError)
        ensures
            r@ == Self::described(
                Tag::ContainerRegistryGetCredentialsError,
                event_details,
                "Failed to retrieve credentials and endpoint URL from container registry `"@ + repository_name@ + "`."@,
                None,
                None,
            ),
    {
        let mut message = String::from_str("Failed to retrieve credentials and endpoint URL from container registry `");
        message.append(repository_name);
        message.append("`.");
        EngineError::new_described(event_details, Tag::ContainerRegistryGetCredentialsError, message, None, None)
    }

    /// The cloud provider refused the credentials.
    pub fn new_client_invalid_cloud_provider_credentials(event_details: EventDetails) -> (r: EngineError)
        ensures
            r@ == Self::described(
                Tag::ClientInvalidCloudProviderCredentials,
                event_details,
                "Your cloud provider account seems to be no longer valid (bad credentials)."@,
                None,
                Some("Please check or change your cloud provider credentials in your organization settings."@),
            ),
    {
        let mut message = String::from_str("Your cloud provider account seems to be no longer valid (bad credentials).");
        EngineError::new_described(event_details, Tag::ClientInvalidCloudProviderCredentials, message, None, Some(String::from_str("Please check or change your cloud provider credentials in your organization settings.")))
    }

    /// The requested and the burstable CPU do not fit together.
    pub fn new_k8s_validate_required_cpu_and_burstable_error(event_details: EventDetails, total_cpus_raw: &str, cpu_burst_raw: &str, cause: CommandError) -> (r: EngineError)
        ensures
            r@ == Self::described(
                Tag::K8sValidateRequiredCPUandBurstableError,
                event_details,
                "Error while trying to validate required CPU ("@ + total_cpus_raw@ + ") and burstable ("@ + cpu_burst_raw@ + ")."@,
                Some(cause@),
                None,
            ),
    {
        let mut message = String::from_str("Error while trying to validate required CPU (");
        message.append(total_cpus_raw);
        message.append(") and burstable (");
        message.append(cpu_burst_raw);
        message.append(").");
        EngineError::new_described(event_details, Tag::K8sValidateRequiredCPUandBurstableError, message, Some(cause), None)
    }

    /// The requested version of a product is not supported.
    pub fn new_unsupported_version(event_details: EventDetails, product_name: &str, version: &str, cause: CommandError) -> (r: EngineError)
        ensures
            r@ == Self::described(
                Tag::UnsupportedVersion,
                event_details,
                "Error, version `"@ + version@ + "` is not supported for `"@ + product_name@ + "`."@,
                Some(cause@),
                None,
            ),
    {
        let mut message = String::from_str("Error, version `");
        message.append(version);
        message.append("` is not supported for `");
        message.append(product_name);
        message.append("`.");
        EngineError::new_described(event_details, Tag::UnsupportedVersion, message, Some(cause), None)
    }

    /// Every buildpack builder failed. The message names each of them.
    pub fn new_buildpack_cannot_build_container_image(
        event_details: EventDetails,
        container_image_name: &str,
        builders: &Vec<String>,
        cause: CommandError,
    ) -> (r: EngineError)
        ensures
            r@ == Self::described(
                Tag::BuildpackCannotBuildContainerImage,
                event_details,
                "Error while trying to build container image `"@ + container_image_name@
                    + "` with one of the following builders: "@ + join(texts(builders@), ", "@)
                    + "."@,
                Some(cause@),
                None,
            ),
    {
        let mut message = String::from_str("Error while trying to build container image `");
        message.append(container_image_name);
        message.append("` with one of the following builders: ");
        message.append(joined(builders, ", ").as_str());
        message.append(".");
        EngineError::new_described(
            event_details,
            Tag::BuildpackCannotBuildContainerImage,
            message,
            Some(cause),
            None,
        )
    }

    /// A value in the provisioning context is not supported. The raw text,
    /// where there is one, is safe to show.
    pub fn new_terraform_unsupported_context_parameter_value(
        event_details: EventDetails,
        service_type: &str,
        parameter_name: &str,
        parameter_value: &str,
        raw_message: Option<String>,
    ) -> (r: EngineError)
        ensures
            r@ == Self::described(
                Tag::TerraformUnsupportedContextParameterValue,
                event_details,
                service_type@ + " value `"@ + parameter_value@ + "` not supported for parameter `"@
                    + parameter_name@ + "`"@,
                match raw_message {
                    Some(m) => Some(CommandErrorView { message: m@, message_safe: Some(m@) }),
                    None => None,
                },
                None,
            ),
    {
        let mut message = String::from_str(service_type);
        message.append(" value `");
        message.append(parameter_value);
        message.append("` not supported for parameter `");
        message.append(parameter_name);
        message.append("`");
        let cause = match raw_message {
            Some(m) => Some(CommandError::new_from_safe_message(m)),
            None => None,
        };
        EngineError::new_described(
            event_details,
            Tag::TerraformUnsupportedContextParameterValue,
            message,
            cause,
            None,
        )
    }
}

/// Who is to blame for an error, in the older form of errors.
#[derive(Clone, Copy, Debug, PartialEq, Eq, Structural)]
pub enum EngineErrorCause {
    Internal,
    User,
}

/// The component that an error of the older form belongs to.
#[derive(Debug)]
pub enum EngineErrorScope {
    BuildPlatform(String, String),
    ContainerRegistry(String, String),
    Database(String, String, String),
    Application(String, String),
}

/// An error in the older form: its cause, its scope, the execution, and a
/// message that is safe to show.
#[derive(Debug)]
pub struct LegacyEngineError {
    pub cause: EngineErrorCause,
    pub scope: EngineErrorScope,
    pub execution_id: String,
    pub message: Option<String>,
}

/// The scope of the errors of a component.
pub open spec fn scope_of(transmitter: crate::events::Transmitter) -> EngineErrorScope {
    match transmitter {
        crate::events::Transmitter::BuildPlatform(id, name) => EngineErrorScope::BuildPlatform(
            id,
            name,
        ),
        crate::events::Transmitter::ContainerRegistry(
            id,
            name,
        ) => EngineErrorScope::ContainerRegistry(id, name),
        crate::events::Transmitter::Database(id, kind, name) => EngineErrorScope::Database(
            id,
            kind,
            name,
        ),
        crate::events::Transmitter::Application(id, name) => EngineErrorScope::Application(id, name),
    }
}

impl EngineError {
    /// The error in the older form: an internal error of the component that
    /// reported it, with the safe text of the cause as its message. The raw
    /// text is left behind.
    pub fn to_legacy_engine_error(self) -> (r: LegacyEngineError)
        ensures
            r.cause == EngineErrorCause::Internal,
            r.scope == scope_of(self@.event_details.transmitter),
            r.execution_id == self@.event_details.execution_id,
            opt_text(r.message) == self@.raw_message_safe,
    {
        let scope = match self.event_details.transmitter {
            crate::events::Transmitter::BuildPlatform(id, name) => EngineErrorScope::BuildPlatform(
                id,
                name,
            ),
            crate::events::Transmitter::ContainerRegistry(
                id,
                name,
            ) => EngineErrorScope::ContainerRegistry(id, name),
            crate::events::Transmitter::Database(id, kind, name) => EngineErrorScope::Database(
                id,
                kind,
                name,
            ),
            crate::events::Transmitter::Application(id, name) => EngineErrorScope::Application(
                id,
                name,
            ),
        };
        LegacyEngineError {
            cause: EngineErrorCause::Internal,
            scope,
            execution_id: self.event_details.execution_id,
            message: self.raw_message_safe,
        }
    }
}

} // verus!
