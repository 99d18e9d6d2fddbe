//! Who reports, at which stage, and what is reported: the records that every
//! component hands to its observers instead of writing to a log itself.

use vstd::prelude::*;
use vstd::string::*;

verus! {

/// The step of an environment's deployment at which something happened.
#[derive(Clone, Copy, Debug, PartialEq, Eq, Structural)]
pub enum EnvironmentStep {
    Build,
    Deploy,
    Pause,
    Delete,
    LoadConfiguration,
}

/// The stage of the engine's work at which something happened.
#[derive(Clone, Copy, Debug, PartialEq, Eq, Structural)]
pub enum Stage {
    General,
    Environment(EnvironmentStep),
}

/// The component that reports.
#[derive(Debug)]
pub enum Transmitter {
    /// A build platform, by id and name.
    BuildPlatform(String, String),
    /// A container registry, by id and name.
    ContainerRegistry(String, String),
    /// A database, by id, kind and name.
    Database(String, String, String),
    /// An application, by id and name.
    Application(String, String),
}

impl Clone for Transmitter {
    fn clone(&self) -> (r: Self)
        ensures
            r == *self,
    {
        match self {
            Transmitter::BuildPlatform(id, name) => Transmitter::BuildPlatform(
                id.clone(),
                name.clone(),
            ),
            Transmitter::ContainerRegistry(id, name) => Transmitter::ContainerRegistry(
                id.clone(),
                name.clone(),
            ),
            Transmitter::Database(id, kind, name) => Transmitter::Database(
                id.clone(),
                kind.clone(),
                name.clone(),
            ),
            Transmitter::Application(id, name) => Transmitter::Application(id.clone(), name.clone()),
        }
    }
}

/// The context in which something happened: for whom, during which execution,
/// at which stage, and reported by whom.
#[derive(Debug)]
pub struct EventDetails {
    pub organisation_id: String,
    pub cluster_id: String,
    pub execution_id: String,
    pub stage: Stage,
    pub transmitter: Transmitter,
}

impl Clone for EventDetails {
    fn clone(&self) -> (r: Self)
        ensures
            r == *self,
    {
        EventDetails {
            organisation_id: self.organisation_id.clone(),
            cluster_id: self.cluster_id.clone(),
            execution_id: self.execution_id.clone(),
            stage: self.stage,
            transmitter: self.transmitter.clone(),
        }
    }
}

impl EventDetails {
    pub fn new(
        organisation_id: String,
        cluster_id: String,
        execution_id: String,
        stage: Stage,
        transmitter: Transmitter,
    ) -> (r: Self)
        ensures
            r == (EventDetails { organisation_id, cluster_id, execution_id, stage, transmitter }),
    {
        EventDetails { organisation_id, cluster_id, execution_id, stage, transmitter }
    }

    pub fn execution_id(&self) -> (r: &str)
        ensures
            r@ == self.execution_id@,
    {
        self.execution_id.as_str()
    }

    pub fn stage(&self) -> (r: Stage)
        ensures
            r == self.stage,
    {
        self.stage
    }

    pub fn transmitter(&self) -> (r: Transmitter)
        ensures
            r == self.transmitter,
    {
        self.transmitter.clone()
    }
}

/// How much a record matters.
#[derive(Clone, Copy, Debug, PartialEq, Eq, Structural)]
pub enum Level {
    Debug,
    Info,
    Warning,
    Error,
}

/// The mathematical content of an optional text.
pub open spec fn opt_text(o: Option<String>) -> Option<Seq<char>> {
    match o {
        Some(s) => Some(s@),
        None => None,
    }
}

/// A message in two renderings: the full one, which may hold secrets, and the
/// one that is safe to show, where there is one.
#[derive(Debug)]
pub struct EventMessage {
    pub raw: String,
    pub safe: Option<String>,
}

pub struct EventMessageView {
    pub raw: Seq<char>,
    pub safe: Option<Seq<char>>,
}

impl View for EventMessage {
    type V = EventMessageView;

    open spec fn view(&self) -> EventMessageView {
        EventMessageView { raw: self.raw@, safe: opt_text(self.safe) }
    }
}

impl EventMessage {
    pub fn new(raw: String, safe: Option<String>) -> (r: Self)
        ensures
            r@ == (EventMessageView { raw: raw@, safe: opt_text(safe) }),
    {
        EventMessage { raw, safe }
    }

    /// A message that holds nothing to hide: both renderings are `message`.
    pub fn new_from_safe(message: String) -> (r: Self)
        ensures
            r@ == (EventMessageView { raw: message@, safe: Some(message@) }),
    {
        let safe = message.clone();
        EventMessage { raw: message, safe: Some(safe) }
    }

    /// The rendering to show: the safe one where there is one.
    pub open spec fn spec_shown(v: EventMessageView) -> Seq<char> {
        match v.safe {
            Some(s) => s,
            None => v.raw,
        }
    }

    pub fn shown(&self) -> (r: String)
        ensures
            r@ == Self::spec_shown(self@),
    {
        match &self.safe {
            Some(s) => s.clone(),
            None => self.raw.clone(),
        }
    }
}

/// Whom a progress notification is about.
#[derive(Debug)]
pub enum ProgressScope {
    Application { id: String },
    Database { id: String },
}

/// How much a progress notification matters.
#[derive(Clone, Copy, Debug, PartialEq, Eq, Structural)]
pub enum ProgressLevel {
    Info,
    Warn,
    Error,
}

/// The callback of a listener that a progress notification is delivered to.
#[derive(Clone, Copy, Debug, PartialEq, Eq, Structural)]
pub enum ProgressKind {
    DeploymentInProgress,
    DeploymentError,
    Error,
}

/// A scoped, leveled progress notification with optional text.
#[derive(Debug)]
pub struct ProgressInfo {
    pub scope: ProgressScope,
    pub level: ProgressLevel,
    pub message: Option<String>,
    pub execution_id: String,
}

pub enum ProgressScopeView {
    Application { id: Seq<char> },
    Database { id: Seq<char> },
}

pub struct ProgressInfoView {
    pub scope: ProgressScopeView,
    pub level: ProgressLevel,
    pub message: Option<Seq<char>>,
    pub execution_id: Seq<char>,
}

impl View for ProgressScope {
    type V = ProgressScopeView;

    open spec fn view(&self) -> ProgressScopeView {
        match *self {
            ProgressScope::Application { id } => ProgressScopeView::Application { id: id@ },
            ProgressScope::Database { id } => ProgressScopeView::Database { id: id@ },
        }
    }
}

impl View for ProgressInfo {
    type V = ProgressInfoView;

    open spec fn view(&self) -> ProgressInfoView {
        ProgressInfoView {
            scope: self.scope@,
            level: self.level,
            message: opt_text(self.message),
            execution_id: self.execution_id@,
        }
    }
}

impl ProgressInfo {
    pub fn new(
        scope: ProgressScope,
        level: ProgressLevel,
        message: Option<String>,
        execution_id: &str,
    ) -> (r: Self)
        ensures
            r@ == (ProgressInfoView {
                scope: scope@,
                level,
                message: opt_text(message),
                execution_id: execution_id@,
            }),
    {
        ProgressInfo { scope, level, message, execution_id: String::from_str(execution_id) }
    }

    /// A notification about the application `id`.
    pub open spec fn spec_for_application(
        id: Seq<char>,
        level: ProgressLevel,
        message: Seq<char>,
        execution_id: Seq<char>,
    ) -> ProgressInfoView {
        ProgressInfoView {
            scope: ProgressScopeView::Application { id },
            level,
            message: Some(message),
            execution_id,
        }
    }

    pub fn for_application(id: &str, level: ProgressLevel, message: String, execution_id: &str) -> (r:
        Self)
        ensures
            r@ == Self::spec_for_application(id@, level, message@, execution_id@),
    {
        ProgressInfo {
            scope: ProgressScope::Application { id: String::from_str(id) },
            level,
            message: Some(message),
            execution_id: String::from_str(execution_id),
        }
    }
}

} // verus!
