//! The Elastic Container Registry of AWS: what the registry is, how its
//! credentials are read, and what the outcomes of its commands mean. The
//! course of a push or a pull is in `ecr_flow`.

use crate::build_platform::docker::utf8_text;
use crate::build_platform::local_docker::docker_envs;
use crate::build_platform::Image;
use crate::container_registry::docker::{
    docker_pull_image, docker_tag_and_push_image, pull_result, tag_and_push_result,
};
use crate::container_registry::{Kind, PullResult, PushResult};
use crate::errors::CommandErrorView;
use crate::retried::{SequenceFailure, SequenceOutcome, StopReason};
use crate::errors::{result_is, CommandError, EngineError, EngineErrorView, Tag};
use crate::events::{EnvironmentStep, EventDetails, Level, Stage, Transmitter};
use crate::models::{ExecutionContext, Listener, Listeners};
use crate::notice::{safe_log, Notice};
use crate::text::{decimal, decimal_text, pairs, split, split_on, texts};
use vstd::prelude::*;
use vstd::string::*;
use vstd::utf8::{decode_utf8, valid_utf8};

verus! {

/// Whether AWS has a region of this name, as `rusoto_core::Region` knows
/// them.
pub uninterp spec fn known_region(name: Seq<char>) -> bool;

/// Whether `name` names a region of AWS.
///
/// Trusted: parsing a `rusoto_core::Region` succeeds exactly on the names
/// of the regions that it knows, in any case and with or without hyphens.
#[verifier::external_body]
fn region_is_known(name: &str) -> (r: bool)
    ensures
        r == known_region(name@),
{
    name.parse::<rusoto_core::Region>().is_ok()
}

/// The bytes that a text in Base64 stands for, where it is well formed.
pub uninterp spec fn base64_decoded(text: Seq<char>) -> Option<Seq<u8>>;

/// The bytes that `text` stands for in Base64 with the standard alphabet and
/// padding.
///
/// Trusted: `base64::decode` gives the decoded bytes, or an error for a text
/// that is not well formed.
#[verifier::external_body]
fn base64_decode(text: &str) -> (r: Option<Vec<u8>>)
    ensures
        match r {
            Some(bytes) => base64_decoded(text@) == Some(bytes@),
            None => base64_decoded(text@) is None,
        },
{
    base64::decode(text).ok()
}

/// A registry of AWS, with the account that it is reached with.
#[derive(Debug)]
pub struct ECR {
    pub context: ExecutionContext,
    pub id: String,
    pub name: String,
    pub access_key_id: String,
    pub secret_access_key: String,
    pub region: String,
    pub listeners: Listeners,
}

/// What the registry hands out to log Docker in.
#[derive(Debug)]
pub struct ECRCredentials {
    pub access_token: String,
    pub password: String,
    pub endpoint_url: String,
}

pub struct ECRCredentialsView {
    pub access_token: Seq<char>,
    pub password: Seq<char>,
    pub endpoint_url: Seq<char>,
}

impl View for ECRCredentials {
    type V = ECRCredentialsView;

    open spec fn view(&self) -> ECRCredentialsView {
        ECRCredentialsView {
            access_token: self.access_token@,
            password: self.password@,
            endpoint_url: self.endpoint_url@,
        }
    }
}

impl ECRCredentials {
    pub fn new(access_token: String, password: String, endpoint_url: String) -> (r: Self)
        ensures
            r@ == (ECRCredentialsView {
                access_token: access_token@,
                password: password@,
                endpoint_url: endpoint_url@,
            }),
    {
        ECRCredentials { access_token, password, endpoint_url }
    }
}

/// A repository of the registry, as far as the engine reads it.
#[derive(Debug)]
pub struct Repository {
    pub repository_name: Option<String>,
    pub repository_uri: Option<String>,
}

/// One entry of the authorization that the registry hands out.
#[derive(Debug)]
pub struct AuthorizationData {
    /// The user and the password, joined by a colon, in Base64.
    pub authorization_token: Option<String>,
    /// The address to log in to.
    pub proxy_endpoint: Option<String>,
}

/// What the request for an authorization gave.
#[derive(Debug)]
pub enum AuthorizationProbe {
    /// The request failed.
    Failed,
    /// The registry answered, with entries or without.
    Answered(Option<Vec<AuthorizationData>>),
}

/// The credentials in decoded bytes and an address: the bytes have to be
/// text with a colon in it; the user stands before the first colon and the
/// password between the first and the second, or up to the end.
pub open spec fn credentials_in(decoded: Option<Seq<u8>>, endpoint: Option<Seq<char>>) -> Option<
    ECRCredentialsView,
> {
    match (decoded, endpoint) {
        (Some(bytes), Some(url)) => if valid_utf8(bytes) && split(decode_utf8(bytes), ':').len()
            >= 2 {
            Some(
                ECRCredentialsView {
                    access_token: split(decode_utf8(bytes), ':')[0],
                    password: split(decode_utf8(bytes), ':')[1],
                    endpoint_url: url,
                },
            )
        } else {
            None
        },
        _ => None,
    }
}

/// Whether optional credentials have the given content.
pub open spec fn credentials_eq(r: Option<ECRCredentials>, expected: Option<ECRCredentialsView>) -> bool {
    match (r, expected) {
        (Some(a), Some(b)) => a@ == b,
        (None, None) => true,
        _ => false,
    }
}

/// Reads the credentials from the decoded token and the address of an
/// authorization, where both are there and the token has the right form.
#[verifier::rlimit(40)]
pub fn credentials_from_token(decoded: Option<Vec<u8>>, endpoint: Option<String>) -> (r: Option<
    ECRCredentials,
>)
    ensures
        credentials_eq(
            r,
            credentials_in(
                match decoded {
                    Some(bytes) => Some(bytes@),
                    None => None,
                },
                crate::events::opt_text(endpoint),
            ),
        ),
{
    let bytes = match decoded {
        Some(bytes) => bytes,
        None => {
            return None;
        },
    };
    let url = match endpoint {
        Some(url) => url,
        None => {
            return None;
        },
    };
    let token = match utf8_text(&bytes) {
        Some(token) => token,
        None => {
            return None;
        },
    };
    let mut parts = split_on(token.as_str(), ':');
    assert(texts(parts@).len() == parts@.len());
    if parts.len() < 2 {
        return None;
    }
    assert(texts(parts@)[0] == parts@[0]@);
    assert(texts(parts@)[1] == parts@[1]@);
    let password = parts[1].clone();
    let access_token = parts[0].clone();
    Some(ECRCredentials::new(access_token, password, url))
}

/// The credentials in what the request for an authorization gave: those of
/// its first entry.
pub open spec fn credentials_of(probe: AuthorizationProbe) -> Option<ECRCredentialsView> {
    match probe {
        AuthorizationProbe::Answered(Some(entries)) => if entries@.len() > 0 {
            credentials_in(
                match entries@[0].authorization_token {
                    Some(token) => base64_decoded(token@),
                    None => None,
                },
                crate::events::opt_text(entries@[0].proxy_endpoint),
            )
        } else {
            None
        },
        _ => None,
    }
}

/// The text of the retention policy of a repository: images expire so many
/// days after they were pushed. It is the JSON document with the keys of each
/// object in alphabetical order and without white space.
pub open spec fn lifecycle_policy_text(days: u32) -> Seq<char> {
    "{\"rules\":[{\"action\":{\"type\":\"expire\"},\"description\":\"Images retention policy\",\"rulePriority\":1,\"selection\":{\"countNumber\":"@
        + decimal(days as nat)
        + ",\"countType\":\"sinceImagePushed\",\"countUnit\":\"days\",\"tagStatus\":\"any\"}}]}"@
}

/// The retention policy of a repository as JSON text.
pub fn lifecycle_policy(days: u32) -> (r: String)
    ensures
        r@ == lifecycle_policy_text(days),
{
    let mut out = String::from_str(
        "{\"rules\":[{\"action\":{\"type\":\"expire\"},\"description\":\"Images retention policy\",\"rulePriority\":1,\"selection\":{\"countNumber\":",
    );
    out.append(decimal_text(days as u64).as_str());
    out.append(
        ",\"countType\":\"sinceImagePushed\",\"countUnit\":\"days\",\"tagStatus\":\"any\"}}]}",
    );
    out
}

impl ECR {
    /// A registry in the region `region`, which has to be a region of AWS.
    pub fn new(
        context: ExecutionContext,
        id: &str,
        name: &str,
        access_key_id: &str,
        secret_access_key: &str,
        region: &str,
    ) -> (r: Self)
        requires
            known_region(region@),
        ensures
            r.context == context,
            r.id@ == id@,
            r.name@ == name@,
            r.access_key_id@ == access_key_id@,
            r.secret_access_key@ == secret_access_key@,
            r.region@ == region@,
            r.listeners@ == Seq::<Listener>::empty(),
    {
        ECR {
            context,
            id: String::from_str(id),
            name: String::from_str(name),
            access_key_id: String::from_str(access_key_id),
            secret_access_key: String::from_str(secret_access_key),
            region: String::from_str(region),
            listeners: Vec::new(),
        }
    }

    /// A registry in the region `region`, or nothing where AWS has no region
    /// of that name.
    pub fn try_new(
        context: ExecutionContext,
        id: &str,
        name: &str,
        access_key_id: &str,
        secret_access_key: &str,
        region: &str,
    ) -> (r: Option<Self>)
        ensures
            r is Some == known_region(region@),
            r matches Some(ecr) ==> {
                &&& ecr.context == context
                &&& ecr.id@ == id@
                &&& ecr.name@ == name@
                &&& ecr.access_key_id@ == access_key_id@
                &&& ecr.secret_access_key@ == secret_access_key@
                &&& ecr.region@ == region@
                &&& ecr.listeners@ == Seq::<Listener>::empty()
            },
    {
        if region_is_known(region) {
            Some(ECR::new(context, id, name, access_key_id, secret_access_key, region))
        } else {
            None
        }
    }

    pub fn context(&self) -> (r: &ExecutionContext)
        ensures
            *r == self.context,
    {
        &self.context
    }

    pub fn kind(&self) -> (r: Kind)
        ensures
            r == Kind::Ecr,
    {
        Kind::Ecr
    }

    pub fn id(&self) -> (r: &str)
        ensures
            r@ == self.id@,
    {
        self.id.as_str()
    }

    pub fn name(&self) -> (r: &str)
        ensures
            r@ == self.name@,
    {
        self.name.as_str()
    }

    /// The name, with the id in round brackets behind it.
    pub open spec fn spec_name_with_id(&self) -> Seq<char> {
        self.name@ + " ("@ + self.id@ + ")"@
    }

    pub fn name_with_id(&self) -> (r: String)
        ensures
            r@ == self.spec_name_with_id(),
    {
        let mut out = self.name.clone();
        out.append(" (");
        out.append(self.id.as_str());
        out.append(")");
        out
    }

    pub open spec fn spec_to_transmitter(&self) -> Transmitter {
        Transmitter::ContainerRegistry(self.id, self.name)
    }

    pub fn to_transmitter(&self) -> (r: Transmitter)
        ensures
            r == self.spec_to_transmitter(),
    {
        Transmitter::ContainerRegistry(self.id.clone(), self.name.clone())
    }

    /// The context of what this registry reports.
    pub open spec fn spec_event_details(&self) -> EventDetails {
        EventDetails {
            organisation_id: self.context.organization_id,
            cluster_id: self.context.cluster_id,
            execution_id: self.context.execution_id,
            stage: Stage::Environment(EnvironmentStep::Build),
            transmitter: self.spec_to_transmitter(),
        }
    }

    pub fn get_event_details(&self) -> (r: EventDetails)
        ensures
            r == self.spec_event_details(),
    {
        EventDetails {
            organisation_id: self.context.organization_id.clone(),
            cluster_id: self.context.cluster_id.clone(),
            execution_id: self.context.execution_id.clone(),
            stage: Stage::Environment(EnvironmentStep::Build),
            transmitter: self.to_transmitter(),
        }
    }

    pub fn listeners(&self) -> (r: &Listeners)
        ensures
            *r == self.listeners,
    {
        &self.listeners
    }

    /// Adds a listener behind those that are there.
    pub fn add_listener(&mut self, listener: Listener)
        ensures
            final(self).listeners@ == old(self).listeners@.push(listener),
            final(self).context == old(self).context,
            final(self).id == old(self).id,
            final(self).name == old(self).name,
            final(self).access_key_id == old(self).access_key_id,
            final(self).secret_access_key == old(self).secret_access_key,
            final(self).region == old(self).region,
    {
        self.listeners.push(listener);
    }

    /// The environment that points Docker at the daemon of this registry.
    pub fn docker_envs(&self) -> (r: Vec<(String, String)>)
        ensures
            pairs(r@) == crate::build_platform::local_docker::docker_host_envs(&self.context),
    {
        docker_envs(&self.context)
    }

    /// The repository in an answer of the registry: the first one that it
    /// lists, or nothing where the request failed or lists none.
    pub fn get_repository(&self, described: Result<Vec<Repository>, String>) -> (r: Option<
        Repository,
    >)
        ensures
            r == match described {
                Ok(found) => if found@.len() > 0 {
                    Some(found@[0])
                } else {
                    None
                },
                Err(_) => None::<Repository>,
            },
    {
        match described {
            Ok(mut found) => {
                if found.len() > 0 {
                    Some(found.swap_remove(0))
                } else {
                    None
                }
            },
            Err(_) => None,
        }
    }

    /// Whether the registry holds an image, from its answer to the request
    /// for the details of the image: whether the answer lists any.
    pub fn does_image_exists(&self, details_listed: Option<usize>) -> (r: bool)
        ensures
            r == (details_listed matches Some(n) && n > 0),
    {
        match details_listed {
            Some(n) => n > 0,
            None => false,
        }
    }

    pub open spec fn credentials_error(&self) -> EngineErrorView {
        EngineError::described(
            Tag::ContainerRegistryGetCredentialsError,
            self.spec_event_details(),
            "Failed to retrieve credentials and endpoint URL from container registry `"@
                + self.spec_name_with_id() + "`."@,
            None,
            None,
        )
    }

    /// Reads the credentials from what the request for an authorization
    /// gave: the user, the password and the address of the first entry. A
    /// request that failed, an answer without entries and an entry that
    /// cannot be read are the error of missing credentials.
    #[verifier::rlimit(40)]
    pub fn get_credentials(&self, probe: AuthorizationProbe) -> (r: Result<
        ECRCredentials,
        EngineError,
    >)
        ensures
            match credentials_of(probe) {
                Some(c) => r matches Ok(found) && found@ == c,
                None => r matches Err(e) && e@ == self.credentials_error(),
            },
    {
        let found = match probe {
            AuthorizationProbe::Answered(Some(mut entries)) => {
                if entries.len() > 0 {
                    let first = entries.swap_remove(0);
                    let decoded = match &first.authorization_token {
                        Some(token) => base64_decode(token.as_str()),
                        None => None,
                    };
                    credentials_from_token(decoded, first.proxy_endpoint)
                } else {
                    None
                }
            },
            _ => None,
        };
        match found {
            Some(credentials) => Ok(credentials),
            None => Err(
                EngineError::new_container_registry_get_credentials_error(
                    self.get_event_details(),
                    self.name_with_id().as_str(),
                ),
            ),
        }
    }

    pub open spec fn invalid_credentials(&self) -> EngineErrorView {
        EngineError::described(
            Tag::ClientInvalidCloudProviderCredentials,
            self.spec_event_details(),
            "Your cloud provider account seems to be no longer valid (bad credentials)."@,
            None,
            Some(
                "Please check or change your cloud provider credentials in your organization settings."@,
            ),
        )
    }

    /// Sums up the login of Docker from the outcome of the login command: a
    /// login that fails is the error of invalid credentials.
    pub fn exec_docker_login(&self, outcome: &Result<(), crate::cmd::ExecError>) -> (r: Result<
        (),
        EngineError,
    >)
        ensures
            result_is(
                r,
                if *outcome is Ok {
                    Ok(())
                } else {
                    Err(self.invalid_credentials())
                },
            ),
    {
        if outcome.is_ok() {
            Ok(())
        } else {
            Err(EngineError::new_client_invalid_cloud_provider_credentials(self.get_event_details()))
        }
    }

    /// Whether the account is valid, from whether AWS told who the caller
    /// is.
    pub fn is_valid(&self, identity_known: bool) -> (r: Result<(), EngineError>)
        ensures
            result_is(
                r,
                if identity_known {
                    Ok(())
                } else {
                    Err(self.invalid_credentials())
                },
            ),
    {
        if identity_known {
            Ok(())
        } else {
            Err(EngineError::new_client_invalid_cloud_provider_credentials(self.get_event_details()))
        }
    }

    /// What is logged when the registry is created: there is nothing to do.
    pub fn on_create(&self) -> (r: (Notice, Result<(), EngineError>))
        ensures
            r.0@ == safe_log(Level::Info, self.spec_event_details(), "ECR.on_create() called"@),
            r.1 is Ok,
    {
        (
            Notice::log(
                Level::Info,
                self.get_event_details(),
                String::from_str("ECR.on_create() called"),
            ),
            Ok(()),
        )
    }

    /// The image after a push that failed: the image as it was.
    pub fn push_error(&self, image: &Image) -> (r: Result<PushResult, EngineError>)
        ensures
            r == Ok::<PushResult, EngineError>(PushResult { image: *image }),
    {
        Ok(PushResult { image: image.clone() })
    }

    /// The number of days after which the images of a repository expire:
    /// one for a test cluster, and a year otherwise.
    pub fn retention_policy_in_days(&self) -> (r: u32)
        ensures
            r == if self.context.test_cluster {
                1u32
            } else {
                365u32
            },
    {
        if self.context.is_test_cluster() {
            1
        } else {
            365
        }
    }
}

impl ECR {
    /// The error of a task that was cancelled.
    pub open spec fn cancelled(&self) -> EngineErrorView {
        EngineError::described(
            Tag::TaskCancellationRequested,
            self.spec_event_details(),
            "Task cancellation has been requested."@,
            None,
            None,
        )
    }

    /// The failure, with its step told as the first or the second of a pair
    /// of tagging and pushing: the steps of a push alternate between the two.
    pub open spec fn in_pair(f: SequenceFailure) -> SequenceFailure {
        SequenceFailure { step: (f.step % 2) as usize, ..f }
    }

    /// The error of a push to `dest` that failed as `f` says: the error of a
    /// cancelled task where the task was cancelled between two attempts, and
    /// otherwise the error of a push, with what tagging or pushing said as its
    /// cause.
    pub open spec fn push_image_error(&self, image: &Image, dest: Seq<char>, f: SequenceFailure) -> EngineErrorView {
        if f.reason == StopReason::Cancelled {
            self.cancelled()
        } else {
            EngineError::described(
                Tag::DockerPushImageError,
                self.spec_event_details(),
                "Error, trying to push Docker image `"@ + image.name@ + "` to repository `"@
                    + dest + "`."@,
                Some(
                    CommandErrorView {
                        message: tag_and_push_result(
                            Kind::Ecr,
                            image.name@,
                            image.tag@,
                            Err(Self::in_pair(f)),
                        )->Err_0.message,
                        message_safe: Some(
                            tag_and_push_result(
                                Kind::Ecr,
                                image.name@,
                                image.tag@,
                                Err(Self::in_pair(f)),
                            )->Err_0.message_safe,
                        ),
                    },
                ),
                None,
            )
        }
    }

    /// The error of a pull of `dest` that failed as `f` says: the error of a
    /// cancelled task where the task was cancelled between two attempts, and
    /// otherwise the error of a pull, with what the pull said as its cause.
    pub open spec fn pull_image_error(&self, image: &Image, dest: Seq<char>, f: SequenceFailure) -> EngineErrorView {
        if f.reason == StopReason::Cancelled {
            self.cancelled()
        } else {
            EngineError::described(
                Tag::DockerPullImageError,
                self.spec_event_details(),
                "Error, trying to pull Docker image `"@ + image.name@ + "` from repository `"@
                    + dest + "`."@,
                Some(
                    CommandErrorView {
                        message: pull_result(Kind::Ecr, dest, Err(f))->Err_0.message,
                        message_safe: Some(pull_result(Kind::Ecr, dest, Err(f))->Err_0.message_safe),
                    },
                ),
                None,
            )
        }
    }

    /// Sums up a push to `dest` from how its steps ended: the image at its
    /// place in the repository, or the error of a push that failed or was
    /// cancelled.
    #[verifier::rlimit(40)]
    pub fn push_image(&self, dest: String, image: &Image, outcome: SequenceOutcome) -> (r: Result<
        PushResult,
        EngineError,
    >)
        ensures
            match outcome {
                Ok(_) => r == Ok::<PushResult, EngineError>(
                    PushResult { image: Image { registry_url: Some(dest), ..*image } },
                ),
                Err(f) => r matches Err(error) && error@ == self.push_image_error(image, dest@, f),
            },
    {
        match outcome {
            Ok(_) => Ok(PushResult { image: image.located_at(dest) }),
            Err(f) => {
                if f.reason == StopReason::Cancelled {
                    return Err(
                        EngineError::new_task_cancellation_requested(self.get_event_details()),
                    );
                }
                let paired = SequenceFailure { step: f.step % 2, error: f.error, reason: f.reason };
                let cause = match docker_tag_and_push_image(
                    Kind::Ecr,
                    image.name.clone(),
                    image.tag.clone(),
                    Err(paired),
                ) {
                    Err(simple) => CommandError::new(
                        String::from_str(simple.message()),
                        Some(String::from_str(simple.message_safe())),
                    ),
                    Ok(_) => CommandError::new(String::new(), None),
                };
                Err(
                    EngineError::new_docker_push_image_error(
                        self.get_event_details(),
                        image.name.as_str(),
                        dest.as_str(),
                        cause,
                    ),
                )
            },
        }
    }

    /// Sums up a pull of `dest` from how its step ended: the image at its
    /// place in the repository, or the error of a pull that failed or was
    /// cancelled.
    #[verifier::rlimit(40)]
    pub fn pull_image(&self, dest: String, image: &Image, outcome: SequenceOutcome) -> (r: Result<
        PullResult,
        EngineError,
    >)
        ensures
            match outcome {
                Ok(_) => r == Ok::<PullResult, EngineError>(
                    PullResult::Pulled(Image { registry_url: Some(dest), ..*image }),
                ),
                Err(f) => r matches Err(error) && error@ == self.pull_image_error(image, dest@, f),
            },
    {
        match outcome {
            Ok(_) => Ok(PullResult::Pulled(image.located_at(dest))),
            Err(f) => {
                if f.reason == StopReason::Cancelled {
                    return Err(
                        EngineError::new_task_cancellation_requested(self.get_event_details()),
                    );
                }
                let cause = match docker_pull_image(Kind::Ecr, dest.clone(), Err(f)) {
                    Err(simple) => CommandError::new(
                        String::from_str(simple.message()),
                        Some(String::from_str(simple.message_safe())),
                    ),
                    Ok(_) => CommandError::new(String::new(), None),
                };
                Err(
                    EngineError::new_docker_pull_image_error(
                        self.get_event_details(),
                        image.name.as_str(),
                        dest.as_str(),
                        cause,
                    ),
                )
            },
        }
    }
}

} // verus!
