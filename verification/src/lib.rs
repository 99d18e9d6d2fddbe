//! The orchestration core of a deployment engine: deciding when work can be
//! skipped, planning the commands that build and publish container images,
//! retrying remote calls and reporting typed errors, with every decision
//! stated as a contract and proved.

pub mod text;
pub mod events;
pub mod errors;
pub mod cmd;
pub mod backoff;
pub mod notice;
pub mod retried;
pub mod models;
pub mod build_platform;
pub mod cloud_provider;
pub mod container_registry;
