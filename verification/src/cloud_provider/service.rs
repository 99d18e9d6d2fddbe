//! What every deployable service has in common: the action that is applied to
//! it, the check of its version, and the course of one action from its
//! pre-check to its end.

use crate::cloud_provider::templating::{
    context_entries, insert_flag, insert_number, insert_text, new_context, TemplateValue,
};
use crate::errors::{shown_message, CommandError, EngineError, EngineErrorView, Tag};
use crate::events::{EventDetails, Level, ProgressKind, ProgressLevel, ProgressScope};
use crate::notice::{no_notices, notices, push_notice, safe_log, Notice, NoticeView};
use crate::text::concat3;
use vstd::prelude::*;
use vstd::string::*;

verus! {

/// What is asked of a service.
#[derive(Clone, Copy, Debug, PartialEq, Eq, Structural)]
pub enum Action {
    Create,
    Pause,
    Delete,
}

impl Action {
    /// The name of the action as it is told.
    pub open spec fn spec_name(self) -> Seq<char> {
        match self {
            Action::Create => "create"@,
            Action::Pause => "pause"@,
            Action::Delete => "delete"@,
        }
    }

    pub fn name(self) -> (r: &'static str)
        ensures
            r@ == self.spec_name(),
    {
        match self {
            Action::Create => "create",
            Action::Pause => "pause",
            Action::Delete => "delete",
        }
    }
}

/// Where a database runs: with the cloud provider, or in the cluster.
#[derive(Clone, Copy, Debug, PartialEq, Eq, Structural)]
pub enum DatabaseMode {
    Managed,
    Container,
}

/// The options of a database.
#[derive(Debug)]
pub struct DatabaseOptions {
    pub login: String,
    pub password: String,
    pub host: String,
    pub port: u16,
    pub mode: DatabaseMode,
    pub disk_size_in_gib: u32,
    pub database_disk_type: String,
    pub activate_high_availability: bool,
    pub activate_backups: bool,
    pub publicly_accessible: bool,
}

/// The version that was requested of a service and the one that it stands
/// for.
#[derive(Debug)]
pub struct ServiceVersionCheckResult {
    requested_version: String,
    matched_version: String,
    message: Option<String>,
}

impl ServiceVersionCheckResult {
    pub closed spec fn spec_requested_version(&self) -> Seq<char> {
        self.requested_version@
    }

    pub closed spec fn spec_matched_version(&self) -> Seq<char> {
        self.matched_version@
    }

    pub closed spec fn spec_message(&self) -> Option<Seq<char>> {
        crate::events::opt_text(self.message)
    }

    pub fn new(requested_version: String, matched_version: String, message: Option<String>) -> (r:
        Self)
        ensures
            r.spec_requested_version() == requested_version@,
            r.spec_matched_version() == matched_version@,
            r.spec_message() == crate::events::opt_text(message),
    {
        ServiceVersionCheckResult { requested_version, matched_version, message }
    }

    /// The version that the requested one stands for.
    pub fn matched_version(&self) -> (r: &str)
        ensures
            r@ == self.spec_matched_version(),
    {
        self.matched_version.as_str()
    }

    pub fn requested_version(&self) -> (r: &str)
        ensures
            r@ == self.spec_requested_version(),
    {
        self.requested_version.as_str()
    }
}

/// What the check of a version tells where the version is supported: that
/// another version than the requested one is used, where that is so.
pub open spec fn version_notices(
    service_name: Seq<char>,
    requested: Seq<char>,
    matched: Seq<char>,
    scope_id: Seq<char>,
    execution_id: Seq<char>,
    details: EventDetails,
) -> Seq<NoticeView> {
    if requested != matched {
        seq![
            safe_log(Level::Info, details, version_replaced_text(service_name, requested, matched)),
            crate::notice::NoticeView::Progress {
                kind: ProgressKind::DeploymentInProgress,
                info: crate::events::ProgressInfoView {
                    scope: crate::events::ProgressScopeView::Database { id: scope_id },
                    level: ProgressLevel::Info,
                    message: Some(version_replaced_text(service_name, requested, matched)),
                    execution_id,
                },
            },
        ]
    } else {
        Seq::empty()
    }
}

pub open spec fn version_replaced_text(
    service_name: Seq<char>,
    requested: Seq<char>,
    matched: Seq<char>,
) -> Seq<char> {
    service_name + " version `"@ + requested
        + "` has been requested by the user; but matching version is `"@ + matched + "`"@
}

pub open spec fn version_refused_text(service_name: Seq<char>, requested: Seq<char>) -> Seq<char> {
    service_name + " version "@ + requested + " is not supported!"@
}

/// The error for a version that is not supported.
pub open spec fn version_refused(
    service_name: Seq<char>,
    requested: Seq<char>,
    details: EventDetails,
    cause: crate::errors::CommandErrorView,
) -> EngineErrorView {
    EngineError::described(
        Tag::UnsupportedVersion,
        details,
        "Error, version `"@ + requested + "` is not supported for `"@ + service_name + "`."@,
        Some(cause),
        None,
    )
}

/// What the check of a version tells where the version is not supported.
pub open spec fn version_refused_notices(
    service_name: Seq<char>,
    requested: Seq<char>,
    scope_id: Seq<char>,
    execution_id: Seq<char>,
    details: EventDetails,
    cause: crate::errors::CommandErrorView,
) -> Seq<NoticeView> {
    seq![
        crate::notice::NoticeView::Progress {
            kind: ProgressKind::DeploymentError,
            info: crate::events::ProgressInfoView {
                scope: crate::events::ProgressScopeView::Database { id: scope_id },
                level: ProgressLevel::Error,
                message: Some(version_refused_text(service_name, requested)),
                execution_id,
            },
        },
        NoticeView::Failure(version_refused(service_name, requested, details, cause)),
    ]
}

/// Sums up the look-up of a version for a database: the requested and the
/// matched version where the look-up found one, telling the user where the two
/// differ; the error of an unsupported version where it found none, told to
/// the user and logged.
#[verifier::rlimit(40)]
pub fn check_service_version(
    result: Result<String, CommandError>,
    service_name: &str,
    requested_version: &str,
    scope_id: &str,
    execution_id: &str,
    event_details: EventDetails,
) -> (r: (Vec<Notice>, Result<ServiceVersionCheckResult, EngineError>))
    ensures
        match result {
            Ok(version) => {
                &&& r.1 matches Ok(check)
                &&& check.spec_requested_version() == requested_version@
                &&& check.spec_matched_version() == version@
                &&& check.spec_message() == None::<Seq<char>>
                &&& notices(r.0@) == version_notices(
                    service_name@,
                    requested_version@,
                    version@,
                    scope_id@,
                    execution_id@,
                    event_details,
                )
            },
            Err(cause) => {
                &&& r.1 matches Err(e)
                &&& e@ == version_refused(service_name@, requested_version@, event_details, cause@)
                &&& notices(r.0@) == version_refused_notices(
                    service_name@,
                    requested_version@,
                    scope_id@,
                    execution_id@,
                    event_details,
                    cause@,
                )
            },
        },
{
    let mut out = no_notices();
    match result {
        Ok(version) => {
            if *requested_version != *version.as_str() {
                let mut message = String::from_str(service_name);
                message.append(" version `");
                message.append(requested_version);
                message.append("` has been requested by the user; but matching version is `");
                message.append(version.as_str());
                message.append("`");
                let copy = message.clone();
                push_notice(&mut out, Notice::log(Level::Info, event_details, message));
                push_notice(
                    &mut out,
                    Notice::Progress {
                        kind: ProgressKind::DeploymentInProgress,
                        info: crate::events::ProgressInfo::new(
                            ProgressScope::Database { id: String::from_str(scope_id) },
                            ProgressLevel::Info,
                            Some(copy),
                            execution_id,
                        ),
                    },
                );
                assert(notices(out@) =~= version_notices(
                    service_name@,
                    requested_version@,
                    version@,
                    scope_id@,
                    execution_id@,
                    event_details,
                ));
            }
            (
                out,
                Ok(ServiceVersionCheckResult::new(String::from_str(requested_version), version, None)),
            )
        },
        Err(cause) => {
            let message = concat3(service_name, " version ", requested_version);
            let mut message = message;
            message.append(" is not supported!");
            push_notice(
                &mut out,
                Notice::Progress {
                    kind: ProgressKind::DeploymentError,
                    info: crate::events::ProgressInfo::new(
                        ProgressScope::Database { id: String::from_str(scope_id) },
                        ProgressLevel::Error,
                        Some(message),
                        execution_id,
                    ),
                },
            );
            let error = EngineError::new_unsupported_version(
                event_details,
                service_name,
                requested_version,
                cause,
            );
            push_notice(&mut out, Notice::Failure(error.clone()));
            assert(notices(out@) =~= version_refused_notices(
                service_name@,
                requested_version@,
                scope_id@,
                execution_id@,
                event_details,
                cause@,
            ));
            (out, Err(error))
        },
    }
}

/// The cluster that a service is deployed to, as far as services read it.
#[derive(Debug)]
pub struct Kubernetes {
    pub id: String,
    pub name: String,
    pub region: String,
    pub zone: String,
    /// The variables that the cloud provider of the cluster adds to every
    /// template, by their names.
    pub provider_variables: Vec<(String, String)>,
}

/// The environment that a service belongs to.
#[derive(Debug)]
pub struct Environment {
    pub id: String,
    pub project_id: String,
    pub owner_id: String,
    pub organization_id: String,
    pub namespace: String,
}

/// Where a service is deployed.
#[derive(Debug)]
pub struct DeploymentTarget {
    pub kubernetes: Kubernetes,
    pub environment: Environment,
}

/// What every template is told of a service.
#[derive(Debug)]
pub struct ServiceSummary {
    pub id: String,
    pub name: String,
    pub sanitized_name: String,
    pub total_cpus: String,
    pub total_ram_in_mib: u32,
    pub min_instances: u32,
    pub max_instances: u32,
    pub private_port: Option<u16>,
    pub version: String,
}

/// The values that every template of a service starts from.
pub open spec fn default_entries(service: &ServiceSummary, target: &DeploymentTarget) -> Map<
    Seq<char>,
    TemplateValue,
> {
    let common = Map::<Seq<char>, TemplateValue>::empty().insert(
        "id"@,
        TemplateValue::Text(service.id@),
    ).insert("owner_id"@, TemplateValue::Text(target.environment.owner_id@)).insert(
        "project_id"@,
        TemplateValue::Text(target.environment.project_id@),
    ).insert("organization_id"@, TemplateValue::Text(target.environment.organization_id@)).insert(
        "environment_id"@,
        TemplateValue::Text(target.environment.id@),
    ).insert("region"@, TemplateValue::Text(target.kubernetes.region@)).insert(
        "zone"@,
        TemplateValue::Text(target.kubernetes.zone@),
    ).insert("name"@, TemplateValue::Text(service.name@)).insert(
        "sanitized_name"@,
        TemplateValue::Text(service.sanitized_name@),
    ).insert("namespace"@, TemplateValue::Text(target.environment.namespace@)).insert(
        "cluster_name"@,
        TemplateValue::Text(target.kubernetes.name@),
    ).insert("total_cpus"@, TemplateValue::Text(service.total_cpus@)).insert(
        "total_ram_in_mib"@,
        TemplateValue::Number(service.total_ram_in_mib as u64),
    ).insert("min_instances"@, TemplateValue::Number(service.min_instances as u64)).insert(
        "max_instances"@,
        TemplateValue::Number(service.max_instances as u64),
    ).insert("is_private_port"@, TemplateValue::Flag(service.private_port is Some));
    let with_port = match service.private_port {
        Some(port) => common.insert("private_port"@, TemplateValue::Number(port as u64)),
        None => common,
    };
    with_port.insert("version"@, TemplateValue::Text(service.version@))
}

/// The context that every template of a service starts from: who and where
/// the service is, its size, its port where it has one, and its version.
#[verifier::rlimit(40)]
pub fn default_tera_context(service: &ServiceSummary, target: &DeploymentTarget) -> (r:
    tera::Context)
    ensures
        context_entries(r) == default_entries(service, target),
{
    let mut context = new_context();
    insert_text(&mut context, "id", service.id.as_str());
    insert_text(&mut context, "owner_id", target.environment.owner_id.as_str());
    insert_text(&mut context, "project_id", target.environment.project_id.as_str());
    insert_text(&mut context, "organization_id", target.environment.organization_id.as_str());
    insert_text(&mut context, "environment_id", target.environment.id.as_str());
    insert_text(&mut context, "region", target.kubernetes.region.as_str());
    insert_text(&mut context, "zone", target.kubernetes.zone.as_str());
    insert_text(&mut context, "name", service.name.as_str());
    insert_text(&mut context, "sanitized_name", service.sanitized_name.as_str());
    insert_text(&mut context, "namespace", target.environment.namespace.as_str());
    insert_text(&mut context, "cluster_name", target.kubernetes.name.as_str());
    insert_text(&mut context, "total_cpus", service.total_cpus.as_str());
    insert_number(&mut context, "total_ram_in_mib", service.total_ram_in_mib as u64);
    insert_number(&mut context, "min_instances", service.min_instances as u64);
    insert_number(&mut context, "max_instances", service.max_instances as u64);
    insert_flag(&mut context, "is_private_port", service.private_port.is_some());
    match service.private_port {
        Some(port) => {
            insert_number(&mut context, "private_port", port as u64);
        },
        None => {},
    }
    insert_text(&mut context, "version", service.version.as_str());
    context
}

/// The work that an action of a service asks the provisioning tools for.
#[derive(Debug)]
pub enum ServiceWork {
    /// Deploy the service with its state.
    DeployStatefulService,
    /// Scale the database down to so many replicas.
    ScaleDownDatabase { replicas: u32 },
    /// Delete the service with its state.
    DeleteStatefulService,
    /// Check that each of the domains resolves.
    CheckDomains(Vec<String>),
    /// Nothing.
    Nothing,
}

/// What a hook of a service asks for: what to log, and the work to do.
#[derive(Debug)]
pub struct Hook {
    pub notice: Option<Notice>,
    pub work: ServiceWork,
}

/// Where an action on a service stands.
#[derive(Clone, Copy, Debug, PartialEq, Eq, Structural)]
pub enum LifecycleState {
    /// The action has not begun.
    Idle,
    /// The preconditions of the action are being checked.
    PreCheck,
    /// The work of the action is being done.
    Executing,
    /// The service is being checked after the work.
    PostCheck,
    /// The action has succeeded.
    Succeeded,
    /// The action has failed.
    Failed,
}

/// What an action waits for.
#[derive(Clone, Copy, Debug, PartialEq, Eq, Structural)]
pub enum LifecycleRequest {
    /// The word to begin.
    Start,
    /// Check the preconditions.
    RunPreCheck,
    /// Do the work of the action.
    RunAction(Action),
    /// Check the service after the work of the action.
    RunPostCheck(Action),
    /// Run the error hook of the action.
    RunErrorHook(Action),
    /// Nothing: the action has ended.
    Complete,
}

/// What happened to an action.
#[derive(Debug)]
pub enum LifecycleEvent {
    /// The caller asks for the action to begin.
    Started,
    /// The step that the action waited for has ended.
    StepEnded(Result<(), EngineError>),
    /// The error hook has run.
    ErrorHookEnded,
}

/// An action on a service in progress, as the contracts see it.
pub struct LifecycleModel {
    pub action: Action,
    pub service_id: Seq<char>,
    pub service_name: Seq<char>,
    pub execution_id: Seq<char>,
    pub state: LifecycleState,
    /// Whether the error hook is still to run.
    pub hook_pending: bool,
    /// The error that failed the action.
    pub error: Option<EngineErrorView>,
}

impl LifecycleModel {
    pub open spec fn initial(
        action: Action,
        service_id: Seq<char>,
        service_name: Seq<char>,
        execution_id: Seq<char>,
    ) -> LifecycleModel {
        LifecycleModel {
            action,
            service_id,
            service_name,
            execution_id,
            state: LifecycleState::Idle,
            hook_pending: false,
            error: None,
        }
    }

    /// What holds of every action in progress: it has an error exactly when
    /// it has failed, and the error hook is pending only then.
    pub open spec fn wf(self) -> bool {
        &&& (self.state == LifecycleState::Failed) == (self.error is Some)
        &&& self.hook_pending ==> self.state == LifecycleState::Failed
    }

    /// Whether the action has ended: it has succeeded, or it has failed and
    /// its error hook has run.
    pub open spec fn ended(self) -> bool {
        self.state == LifecycleState::Succeeded || (self.state == LifecycleState::Failed
            && !self.hook_pending)
    }

    /// What the action waits for.
    pub open spec fn pending(self) -> LifecycleRequest {
        match self.state {
            LifecycleState::Idle => LifecycleRequest::Start,
            LifecycleState::PreCheck => LifecycleRequest::RunPreCheck,
            LifecycleState::Executing => LifecycleRequest::RunAction(self.action),
            LifecycleState::PostCheck => LifecycleRequest::RunPostCheck(self.action),
            LifecycleState::Succeeded => LifecycleRequest::Complete,
            LifecycleState::Failed => if self.hook_pending {
                LifecycleRequest::RunErrorHook(self.action)
            } else {
                LifecycleRequest::Complete
            },
        }
    }

    /// What the user is told when the action has succeeded.
    pub open spec fn success_text(self) -> Seq<char> {
        "✅ "@ + self.action.spec_name() + " of "@ + self.service_name + " succeeded"@
    }

    /// What the user is told when the action has failed: a cancellation is
    /// marked otherwise than a failure.
    pub open spec fn failure_text(self, e: EngineErrorView) -> Seq<char> {
        if e.tag == Tag::TaskCancellationRequested {
            "🚫 "@ + self.action.spec_name() + " of "@ + self.service_name
                + " has been cancelled"@
        } else {
            "❌ "@ + self.action.spec_name() + " of "@ + self.service_name + " failed: "@
                + shown_message(e)
        }
    }

    /// The action, failed by `e`: the error hook is to run, and the failure is
    /// told once to the user and once to the log.
    pub open spec fn failed(self, e: EngineErrorView) -> (LifecycleModel, Seq<NoticeView>) {
        (
            LifecycleModel {
                state: LifecycleState::Failed,
                hook_pending: true,
                error: Some(e),
                ..self
            },
            seq![
                crate::notice::application_progress(
                    ProgressKind::Error,
                    self.service_id,
                    ProgressLevel::Error,
                    self.failure_text(e),
                    self.execution_id,
                ),
                NoticeView::Failure(e),
            ],
        )
    }

    /// What becomes of the action when `event` happens, and what is told on
    /// that occasion. The steps follow each other in a fixed order; the first
    /// one that fails ends the action; an event that does not answer what the
    /// action waits for changes nothing.
    pub open spec fn transition(self, event: LifecycleEvent) -> (LifecycleModel, Seq<NoticeView>) {
        match (self.state, event) {
            (LifecycleState::Idle, LifecycleEvent::Started) => (
                LifecycleModel { state: LifecycleState::PreCheck, ..self },
                Seq::empty(),
            ),
            (LifecycleState::PreCheck, LifecycleEvent::StepEnded(r)) => match r {
                Ok(_) => (LifecycleModel { state: LifecycleState::Executing, ..self }, Seq::empty()),
                Err(e) => self.failed(e@),
            },
            (LifecycleState::Executing, LifecycleEvent::StepEnded(r)) => match r {
                Ok(_) => (LifecycleModel { state: LifecycleState::PostCheck, ..self }, Seq::empty()),
                Err(e) => self.failed(e@),
            },
            (LifecycleState::PostCheck, LifecycleEvent::StepEnded(r)) => match r {
                Ok(_) => (
                    LifecycleModel { state: LifecycleState::Succeeded, ..self },
                    seq![
                        crate::notice::application_progress(
                            ProgressKind::DeploymentInProgress,
                            self.service_id,
                            ProgressLevel::Info,
                            self.success_text(),
                            self.execution_id,
                        ),
                    ],
                ),
                Err(e) => self.failed(e@),
            },
            (LifecycleState::Failed, LifecycleEvent::ErrorHookEnded) => (
                LifecycleModel { hook_pending: false, ..self },
                Seq::empty(),
            ),
            _ => (self, Seq::empty()),
        }
    }
}

/// One action on one service, from its pre-check to its end.
#[derive(Debug)]
pub struct Lifecycle {
    action: Action,
    service_id: String,
    service_name: String,
    execution_id: String,
    state: LifecycleState,
    hook_pending: bool,
    error: Option<EngineError>,
}

impl View for Lifecycle {
    type V = LifecycleModel;

    closed spec fn view(&self) -> LifecycleModel {
        LifecycleModel {
            action: self.action,
            service_id: self.service_id@,
            service_name: self.service_name@,
            execution_id: self.execution_id@,
            state: self.state,
            hook_pending: self.hook_pending,
            error: match self.error {
                Some(e) => Some(e@),
                None => None,
            },
        }
    }
}

impl Lifecycle {
    /// The action `action` on the service, before it begins.
    pub fn new(action: Action, service_id: &str, service_name: &str, execution_id: &str) -> (r: Self)
        ensures
            r@ == LifecycleModel::initial(action, service_id@, service_name@, execution_id@),
    {
        Lifecycle {
            action,
            service_id: String::from_str(service_id),
            service_name: String::from_str(service_name),
            execution_id: String::from_str(execution_id),
            state: LifecycleState::Idle,
            hook_pending: false,
            error: None,
        }
    }

    pub fn state(&self) -> (r: LifecycleState)
        ensures
            r == self@.state,
    {
        self.state
    }

    /// What the action waits for.
    pub fn pending(&self) -> (r: LifecycleRequest)
        ensures
            r == self@.pending(),
    {
        match self.state {
            LifecycleState::Idle => LifecycleRequest::Start,
            LifecycleState::PreCheck => LifecycleRequest::RunPreCheck,
            LifecycleState::Executing => LifecycleRequest::RunAction(self.action),
            LifecycleState::PostCheck => LifecycleRequest::RunPostCheck(self.action),
            LifecycleState::Succeeded => LifecycleRequest::Complete,
            LifecycleState::Failed => {
                if self.hook_pending {
                    LifecycleRequest::RunErrorHook(self.action)
                } else {
                    LifecycleRequest::Complete
                }
            },
        }
    }

    #[verifier::rlimit(40)]
    fn fail(&mut self, e: EngineError) -> (told: Vec<Notice>)
        ensures
            final(self)@ == old(self)@.failed(e@).0,
            notices(told@) == old(self)@.failed(e@).1,
    {
        let mut out = no_notices();
        let mut text = if *e.tag() == Tag::TaskCancellationRequested {
            String::from_str("🚫 ")
        } else {
            String::from_str("❌ ")
        };
        text.append(self.action.name());
        text.append(" of ");
        text.append(self.service_name.as_str());
        if *e.tag() == Tag::TaskCancellationRequested {
            text.append(" has been cancelled");
        } else {
            text.append(" failed: ");
            text.append(e.message().as_str());
        }
        push_notice(
            &mut out,
            Notice::progress(
                ProgressKind::Error,
                self.service_id.as_str(),
                ProgressLevel::Error,
                text,
                self.execution_id.as_str(),
            ),
        );
        push_notice(&mut out, Notice::Failure(e.clone()));
        self.state = LifecycleState::Failed;
        self.hook_pending = true;
        self.error = Some(e);
        assert(notices(out@) =~= old(self)@.failed(e@).1);
        out
    }

    /// Takes what happened. Returns what is to be told, in order.
    #[verifier::rlimit(40)]
    pub fn absorb(&mut self, event: LifecycleEvent) -> (told: Vec<Notice>)
        ensures
            final(self)@ == old(self)@.transition(event).0,
            notices(told@) == old(self)@.transition(event).1,
    {
        match (self.state, event) {
            (LifecycleState::Idle, LifecycleEvent::Started) => {
                self.state = LifecycleState::PreCheck;
                no_notices()
            },
            (LifecycleState::PreCheck, LifecycleEvent::StepEnded(r)) => match r {
                Ok(_) => {
                    self.state = LifecycleState::Executing;
                    no_notices()
                },
                Err(e) => self.fail(e),
            },
            (LifecycleState::Executing, LifecycleEvent::StepEnded(r)) => match r {
                Ok(_) => {
                    self.state = LifecycleState::PostCheck;
                    no_notices()
                },
                Err(e) => self.fail(e),
            },
            (LifecycleState::PostCheck, LifecycleEvent::StepEnded(r)) => match r {
                Ok(_) => {
                    let mut out = no_notices();
                    let mut text = String::from_str("✅ ");
                    text.append(self.action.name());
                    text.append(" of ");
                    text.append(self.service_name.as_str());
                    text.append(" succeeded");
                    push_notice(
                        &mut out,
                        Notice::progress(
                            ProgressKind::DeploymentInProgress,
                            self.service_id.as_str(),
                            ProgressLevel::Info,
                            text,
                            self.execution_id.as_str(),
                        ),
                    );
                    self.state = LifecycleState::Succeeded;
                    assert(notices(out@) =~= old(self)@.transition(event).1);
                    out
                },
                Err(e) => self.fail(e),
            },
            (LifecycleState::Failed, LifecycleEvent::ErrorHookEnded) => {
                self.hook_pending = false;
                no_notices()
            },
            _ => no_notices(),
        }
    }

    /// The result of the action, once it has ended: success, or the error
    /// that failed it. There is none before the action has ended, and none
    /// while the error hook is still to run.
    pub fn into_result(self) -> (r: Option<Result<(), EngineError>>)
        ensures
            self@.state == LifecycleState::Succeeded ==> r matches Some(Ok(_)),
            self@.state == LifecycleState::Failed && !self@.hook_pending ==> match self@.error {
                Some(v) => r matches Some(Err(e)) && e@ == v,
                None => r is None,
            },
            !self@.ended() ==> r is None,
    {
        match self.state {
            LifecycleState::Succeeded => Some(Ok(())),
            LifecycleState::Failed => {
                if self.hook_pending {
                    None
                } else {
                    match self.error {
                        Some(e) => Some(Err(e)),
                        None => None,
                    }
                }
            },
            _ => None,
        }
    }
}

/// The services that an action is being applied to, by their ids: no service
/// is given a second action while one is in progress on it.
#[derive(Debug)]
pub struct ActiveActions {
    ids: Vec<String>,
}

/// The ids in a list.
pub open spec fn ids_in(ids: Seq<String>) -> Set<Seq<char>> {
    Set::new(|id: Seq<char>| exists|i: int| 0 <= i < ids.len() && (#[trigger] ids[i])@ == id)
}

impl View for ActiveActions {
    type V = Set<Seq<char>>;

    closed spec fn view(&self) -> Set<Seq<char>> {
        ids_in(self.ids@)
    }
}

impl ActiveActions {
    /// No action is in progress.
    pub fn new() -> (r: Self)
        ensures
            r@ == Set::<Seq<char>>::empty(),
    {
        let r = ActiveActions { ids: Vec::new() };
        assert(r@ =~= Set::<Seq<char>>::empty());
        r
    }

    fn position(&self, service_id: &str) -> (r: Option<usize>)
        ensures
            r is Some == self@.contains(service_id@),
            r matches Some(i) ==> i < self.ids@.len() && self.ids@[i as int]@ == service_id@,
    {
        let n: usize = self.ids.len();
        let mut i: usize = 0;
        while i < n
            invariant
                i <= n == self.ids.len(),
                forall|k: int| 0 <= k < i ==> (#[trigger] self.ids@[k])@ != service_id@,
            decreases n - i,
        {
            if *self.ids[i].as_str() == *service_id {
                return Some(i);
            }
            i = i + 1;
        }
        None
    }

    /// Whether an action is in progress on the service.
    pub fn is_active(&self, service_id: &str) -> (r: bool)
        ensures
            r == self@.contains(service_id@),
    {
        self.position(service_id).is_some()
    }

    /// Begins an action on the service, unless one is in progress on it.
    /// Says whether the action may begin.
    #[verifier::rlimit(40)]
    pub fn try_begin(&mut self, service_id: &str) -> (r: bool)
        ensures
            r == !old(self)@.contains(service_id@),
            final(self)@ == old(self)@.insert(service_id@),
    {
        if self.position(service_id).is_some() {
            assert(self@.insert(service_id@) =~= self@);
            false
        } else {
            let ghost before = self.ids@;
            self.ids.push(String::from_str(service_id));
            assert(self@ =~= old(self)@.insert(service_id@)) by {
                assert forall|id: Seq<char>| self@.contains(id) == old(self)@.insert(
                    service_id@,
                ).contains(id) by {
                    if old(self)@.contains(id) {
                        let i = choose|i: int| 0 <= i < before.len() && (#[trigger] before[i])@ == id;
                        assert(self.ids@[i]@ == id);
                    }
                    if id == service_id@ {
                        assert(self.ids@[before.len() as int]@ == id);
                    }
                    if self@.contains(id) {
                        let i = choose|i: int|
                            0 <= i < self.ids@.len() && (#[trigger] self.ids@[i])@ == id;
                        if i < before.len() {
                            assert(before[i]@ == id);
                        }
                    }
                }
            }
            true
        }
    }

    /// Ends the action on the service, if one is in progress on it.
    #[verifier::rlimit(40)]
    pub fn finish(&mut self, service_id: &str)
        ensures
            final(self)@ == old(self)@.remove(service_id@),
    {
        let ghost start = self.ids@;
        let mut kept: Vec<String> = Vec::new();
        let n: usize = self.ids.len();
        let mut i: usize = 0;
        while i < n
            invariant
                i <= n == self.ids.len(),
                self.ids@ == start,
                forall|id: Seq<char>|
                    ids_in(kept@).contains(id) <==> (id != service_id@ && ids_in(
                        start.take(i as int),
                    ).contains(id)),
            decreases n - i,
        {
            let ghost before = kept@;
            let keep = *self.ids[i].as_str() != *service_id;
            if keep {
                kept.push(self.ids[i].clone());
            }
            proof {
                assert forall|id: Seq<char>|
                    ids_in(kept@).contains(id) <==> (id != service_id@ && ids_in(
                        start.take(i + 1),
                    ).contains(id)) by {
                    let shorter = start.take(i as int);
                    let longer = start.take(i + 1);
                    if ids_in(kept@).contains(id) {
                        let k = choose|k: int| 0 <= k < kept@.len() && (#[trigger] kept@[k])@ == id;
                        if k < before.len() {
                            assert(before[k]@ == id);
                            assert(ids_in(before).contains(id));
                            let j = choose|j: int|
                                0 <= j < shorter.len() && (#[trigger] shorter[j])@ == id;
                            assert(longer[j]@ == id);
                        } else {
                            assert(longer[i as int]@ == id);
                        }
                    }
                    if id != service_id@ && ids_in(longer).contains(id) {
                        let j = choose|j: int| 0 <= j < longer.len() && (#[trigger] longer[j])@ == id;
                        if j < i {
                            assert(shorter[j]@ == id);
                            assert(ids_in(shorter).contains(id));
                            assert(ids_in(before).contains(id));
                            let k = choose|k: int|
                                0 <= k < before.len() && (#[trigger] before[k])@ == id;
                            assert(kept@[k]@ == id);
                        } else {
                            assert(kept@[before.len() as int]@ == id);
                        }
                    }
                }
            }
            i = i + 1;
        }
        assert(start.take(n as int) =~= start);
        self.ids = kept;
        assert(self@ =~= old(self)@.remove(service_id@));
    }
}

/// No overlapping actions: once an action has begun on a service, no other
/// action may begin on it until that one has ended; actions on other services
/// are not held up.
pub proof fn lemma_no_overlapping_actions(active: Set<Seq<char>>, id: Seq<char>, other: Seq<char>)
    requires
        other != id,
    ensures
        active.insert(id).contains(id),
        !active.insert(id).remove(id).contains(id),
        active.insert(id).contains(other) == active.contains(other),
        active.insert(id).remove(id).contains(other) == active.contains(other),
{
}

/// What becomes of an action when `event` happens.
#[verifier::opaque]
pub open spec fn lifecycle_step(s: LifecycleModel, event: LifecycleEvent) -> LifecycleModel {
    s.transition(event).0
}

/// What becomes of an action over a series of events, the first event first.
pub open spec fn lifecycle_after(s: LifecycleModel, events: Seq<LifecycleEvent>) -> LifecycleModel
    decreases events.len(),
{
    if events.len() == 0 {
        s
    } else {
        lifecycle_step(lifecycle_after(s, events.drop_last()), events.last())
    }
}

/// What is told over a series of events, in order.
pub open spec fn lifecycle_told(s: LifecycleModel, events: Seq<LifecycleEvent>) -> Seq<NoticeView>
    decreases events.len(),
{
    if events.len() == 0 {
        Seq::empty()
    } else {
        lifecycle_told(s, events.drop_last()) + lifecycle_after(
            s,
            events.drop_last(),
        ).transition(events.last()).1
    }
}

/// How many of the notices log an error.
pub open spec fn failures_in(told: Seq<NoticeView>) -> nat
    decreases told.len(),
{
    if told.len() == 0 {
        0
    } else {
        failures_in(told.drop_last()) + if told.last() is Failure {
            1nat
        } else {
            0nat
        }
    }
}

/// How many of the notices tell the listeners of an error.
pub open spec fn error_events_in(told: Seq<NoticeView>) -> nat
    decreases told.len(),
{
    if told.len() == 0 {
        0
    } else {
        error_events_in(told.drop_last()) + if told.last() matches NoticeView::Progress { info, .. }
            && info.level == ProgressLevel::Error {
            1nat
        } else {
            0nat
        }
    }
}

pub proof fn lemma_failures_in_append(a: Seq<NoticeView>, b: Seq<NoticeView>)
    ensures
        failures_in(a + b) == failures_in(a) + failures_in(b),
        error_events_in(a + b) == error_events_in(a) + error_events_in(b),
    decreases b.len(),
{
    if b.len() == 0 {
        assert(a + b =~= a);
    } else {
        lemma_failures_in_append(a, b.drop_last());
        assert((a + b).drop_last() =~= a + b.drop_last());
    }
}

/// An action stays well formed, and keeps the service and the action that it
/// was made for.
pub proof fn lemma_lifecycle_stays_well_formed(s: LifecycleModel, event: LifecycleEvent)
    requires
        s.wf(),
    ensures
        s.transition(event).0.wf(),
        s.transition(event).0.action == s.action,
        s.transition(event).0.service_id == s.service_id,
        LifecycleModel::initial(s.action, s.service_id, s.service_name, s.execution_id).wf(),
{
}

/// An action that has ended is final: nothing that happens afterwards
/// changes it or is told, and it is not begun again.
pub proof fn lemma_ended_action_is_final(s: LifecycleModel, events: Seq<LifecycleEvent>)
    requires
        s.ended(),
    ensures
        lifecycle_after(s, events) == s,
        lifecycle_told(s, events) == Seq::<NoticeView>::empty(),
    decreases events.len(),
{
    reveal(lifecycle_step);
    if events.len() > 0 {
        lemma_ended_action_is_final(s, events.drop_last());
        assert(lifecycle_told(s, events) =~= Seq::<NoticeView>::empty());
    }
}

/// What one event adds to the reports: one logged error and one error event
/// where it fails the action, and nothing otherwise.
#[verifier::rlimit(40)]
pub proof fn lemma_reports_of_one_event(s: LifecycleModel, event: LifecycleEvent)
    requires
        s.wf(),
    ensures
        failures_in(s.transition(event).1) == if s.state != LifecycleState::Failed && s.transition(
            event,
        ).0.state == LifecycleState::Failed {
            1nat
        } else {
            0nat
        },
        error_events_in(s.transition(event).1) == failures_in(s.transition(event).1),
        s.state == LifecycleState::Failed ==> s.transition(event).0.state == LifecycleState::Failed,
{
    let said = s.transition(event).1;
    let none = Seq::<NoticeView>::empty();
    assert(failures_in(none) == 0 && error_events_in(none) == 0);
    if said.len() == 0 {
        assert(said =~= none);
    } else if said.len() == 1 {
        assert(said.drop_last() =~= none);
        assert(said.last() == said[0]);
        assert(failures_in(said) == failures_in(said.drop_last()) + 0);
        assert(error_events_in(said) == error_events_in(said.drop_last()) + 0);
    } else {
        assert(said.len() == 2);
        let first = said.drop_last();
        assert(first.drop_last() =~= none);
        assert(first.last() == said[0]);
        assert(said.last() == said[1]);
        assert(failures_in(first) == failures_in(first.drop_last()) + 0);
        assert(error_events_in(first) == error_events_in(first.drop_last()) + 1);
        assert(failures_in(said) == failures_in(first) + 1);
        assert(error_events_in(said) == error_events_in(first) + 0);
    }
}

/// Every failure is reported exactly once: whatever happens to an action
/// from its beginning, one error is logged and one error event is told to the
/// listeners if the action has failed, and none otherwise.
#[verifier::rlimit(40)]
pub proof fn lemma_one_report_per_failure(s: LifecycleModel, events: Seq<LifecycleEvent>)
    requires
        s.wf(),
        s.state == LifecycleState::Idle,
    ensures
        lifecycle_after(s, events).wf(),
        failures_in(lifecycle_told(s, events)) == if lifecycle_after(s, events).state
            == LifecycleState::Failed {
            1nat
        } else {
            0nat
        },
        error_events_in(lifecycle_told(s, events)) == failures_in(lifecycle_told(s, events)),
    decreases events.len(),
{
    reveal(lifecycle_step);
    if events.len() > 0 {
        lemma_one_report_per_failure(s, events.drop_last());
        let before = lifecycle_after(s, events.drop_last());
        let said = before.transition(events.last()).1;
        lemma_failures_in_append(lifecycle_told(s, events.drop_last()), said);
        lemma_lifecycle_stays_well_formed(before, events.last());
        lemma_reports_of_one_event(before, events.last());
    }
}

/// The steps of an action follow each other in a fixed order: the work is
/// asked for only after the pre-check has passed, and the post-check only
/// after the work is done.
pub proof fn lemma_steps_in_order(s: LifecycleModel, event: LifecycleEvent)
    requires
        s.wf(),
    ensures
        s.transition(event).0.state == LifecycleState::Executing ==> s.state
            == LifecycleState::Executing || (s.state == LifecycleState::PreCheck && event
            matches LifecycleEvent::StepEnded(Ok(_))),
        s.transition(event).0.state == LifecycleState::PostCheck ==> s.state
            == LifecycleState::PostCheck || (s.state == LifecycleState::Executing && event
            matches LifecycleEvent::StepEnded(Ok(_))),
        s.transition(event).0.state == LifecycleState::Succeeded ==> s.state
            == LifecycleState::Succeeded || (s.state == LifecycleState::PostCheck && event
            matches LifecycleEvent::StepEnded(Ok(_))),
{
}

} // verus!
