//! What every component is given when it is made: the identifiers and the
//! settings of the execution it belongs to, and the listeners it reports to.

use crate::text::{split, split_on, texts};
use vstd::prelude::*;
use vstd::string::*;

verus! {

/// The settings of one execution of the engine.
#[derive(Debug)]
pub struct ExecutionContext {
    pub organization_id: String,
    pub cluster_id: String,
    pub execution_id: String,
    pub workspace_root_dir: String,
    pub lib_root_dir: String,
    pub test_cluster: bool,
    /// The address of the Docker daemon, where it is not the local one.
    pub docker_host: Option<String>,
    /// Options added to every build, separated by single spaces.
    pub docker_build_options: Option<String>,
    pub resource_expiration_in_seconds: Option<u32>,
}

impl Clone for ExecutionContext {
    fn clone(&self) -> (r: Self)
        ensures
            r == *self,
    {
        ExecutionContext {
            organization_id: self.organization_id.clone(),
            cluster_id: self.cluster_id.clone(),
            execution_id: self.execution_id.clone(),
            workspace_root_dir: self.workspace_root_dir.clone(),
            lib_root_dir: self.lib_root_dir.clone(),
            test_cluster: self.test_cluster,
            docker_host: match &self.docker_host {
                Some(s) => Some(s.clone()),
                None => None,
            },
            docker_build_options: match &self.docker_build_options {
                Some(s) => Some(s.clone()),
                None => None,
            },
            resource_expiration_in_seconds: self.resource_expiration_in_seconds,
        }
    }
}

impl ExecutionContext {
    pub fn execution_id(&self) -> (r: &str)
        ensures
            r@ == self.execution_id@,
    {
        self.execution_id.as_str()
    }

    pub fn workspace_root_dir(&self) -> (r: &str)
        ensures
            r@ == self.workspace_root_dir@,
    {
        self.workspace_root_dir.as_str()
    }

    pub fn lib_root_dir(&self) -> (r: &str)
        ensures
            r@ == self.lib_root_dir@,
    {
        self.lib_root_dir.as_str()
    }

    pub fn is_test_cluster(&self) -> (r: bool)
        ensures
            r == self.test_cluster,
    {
        self.test_cluster
    }

    pub fn docker_tcp_socket(&self) -> (r: &Option<String>)
        ensures
            *r == self.docker_host,
    {
        &self.docker_host
    }

    pub fn resource_expiration_in_seconds(&self) -> (r: Option<u32>)
        ensures
            r == self.resource_expiration_in_seconds,
    {
        self.resource_expiration_in_seconds
    }

    /// The options added to every build: the pieces of the configured text
    /// between single spaces, or nothing where none is configured.
    pub open spec fn spec_docker_build_options(&self) -> Seq<Seq<char>> {
        match self.docker_build_options {
            Some(options) => split(options@, ' '),
            None => Seq::empty(),
        }
    }

    /// The options added to every build, where some are configured.
    pub fn docker_build_options(&self) -> (r: Option<Vec<String>>)
        ensures
            r is Some == self.docker_build_options is Some,
            r is Some ==> texts(r->0@) == self.spec_docker_build_options(),
    {
        match &self.docker_build_options {
            Some(options) => Some(split_on(options.as_str(), ' ')),
            None => None,
        }
    }
}

/// An observer of progress, by the number under which the caller keeps it.
#[derive(Clone, Copy, Debug, PartialEq, Eq, Structural)]
pub struct Listener {
    pub id: u64,
}

/// The observers of a component, in the order in which they were added.
pub type Listeners = Vec<Listener>;

} // verus!
