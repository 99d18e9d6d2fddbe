//! Services that run with a cloud provider.

pub mod digital_ocean;
pub mod redis;
pub mod service;
pub mod templating;
pub mod utilities;
