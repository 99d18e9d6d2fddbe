//! Container registries: where images are pushed to and pulled from.

pub mod docker;
pub mod ecr;
pub mod ecr_flow;

use crate::build_platform::Image;
use vstd::prelude::*;
use vstd::string::*;

verus! {

/// The kinds of container registry.
#[derive(Clone, Copy, Debug, PartialEq, Eq, Structural)]
pub enum Kind {
    DockerHub,
    Ecr,
    Docr,
    ScalewayCr,
}

impl Kind {
    /// The name of the provider of the registry, for messages.
    pub open spec fn spec_provider_name(self) -> Seq<char> {
        match self {
            Kind::DockerHub => "DockerHub"@,
            Kind::Ecr => "AWS ECR"@,
            Kind::Docr => "DigitalOcean Registry"@,
            Kind::ScalewayCr => "Scaleway Registry"@,
        }
    }

    pub fn provider_name(self) -> (r: &'static str)
        ensures
            r@ == self.spec_provider_name(),
    {
        match self {
            Kind::DockerHub => "DockerHub",
            Kind::Ecr => "AWS ECR",
            Kind::Docr => "DigitalOcean Registry",
            Kind::ScalewayCr => "Scaleway Registry",
        }
    }
}

/// An image that lies in a registry.
#[derive(Debug)]
pub struct PushResult {
    pub image: Image,
}

/// What a pull gave: the image, or nothing where the registry does not hold
/// it.
#[derive(Debug)]
pub enum PullResult {
    /// The image was pulled.
    Pulled(Image),
    /// The registry does not hold the image.
    Absent,
}

} // verus!
