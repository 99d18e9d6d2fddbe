//! Registries through the Docker command line: the commands to run, and what
//! their outcomes mean.

use crate::backoff::RetryPolicy;
use crate::cmd::{command_text, copy_pairs, CommandLine, CommandLineView, ExecError};
use crate::container_registry::Kind;
use crate::errors::{SimpleError, SimpleErrorView};
use crate::retried::{
    after, failing, lemma_after_append, lemma_step_exhaustion, lemma_step_succeeds_after_retries,
    lemma_two_steps_succeed_independently, runs_in, steps, succeeding_after, SequenceEvent,
    SequenceFailure, SequenceOutcome, SequenceState, Step, StepView, StopReason,
};
use crate::text::{join, joined, lemma_pairs_push, pairs, push_text, texts};
use vstd::prelude::*;
use vstd::string::*;

verus! {

/// The manifest of an image, as `docker manifest inspect` prints it.
#[derive(Debug)]
pub struct DockerImageManifest {
    pub schema_version: i64,
    pub media_type: String,
    pub config: Config,
    pub layers: Vec<Layer>,
}

/// The configuration object of a manifest.
#[derive(Debug)]
pub struct Config {
    pub media_type: String,
    pub size: i64,
    pub digest: String,
}

/// One layer of a manifest.
#[derive(Debug)]
pub struct Layer {
    pub media_type: String,
    pub size: i64,
    pub digest: String,
}

impl Default for Config {
    fn default() -> (r: Self)
        ensures
            r.media_type@ == Seq::<char>::empty(),
            r.size == 0,
            r.digest@ == Seq::<char>::empty(),
    {
        Config { media_type: String::new(), size: 0, digest: String::new() }
    }
}

impl Default for Layer {
    fn default() -> (r: Self)
        ensures
            r.media_type@ == Seq::<char>::empty(),
            r.size == 0,
            r.digest@ == Seq::<char>::empty(),
    {
        Layer { media_type: String::new(), size: 0, digest: String::new() }
    }
}

impl Default for DockerImageManifest {
    fn default() -> (r: Self)
        ensures
            r.schema_version == 0,
            r.media_type@ == Seq::<char>::empty(),
            r.config.media_type@ == Seq::<char>::empty(),
            r.config.size == 0,
            r.config.digest@ == Seq::<char>::empty(),
            r.layers@ == Seq::<Layer>::empty(),
    {
        DockerImageManifest {
            schema_version: 0,
            media_type: String::new(),
            config: Config::default(),
            layers: Vec::new(),
        }
    }
}

impl Clone for Config {
    fn clone(&self) -> (r: Self)
        ensures
            r == *self,
    {
        Config {
            media_type: self.media_type.clone(),
            size: self.size,
            digest: self.digest.clone(),
        }
    }
}

impl Clone for Layer {
    fn clone(&self) -> (r: Self)
        ensures
            r == *self,
    {
        Layer { media_type: self.media_type.clone(), size: self.size, digest: self.digest.clone() }
    }
}

impl Clone for DockerImageManifest {
    fn clone(&self) -> (r: Self)
        ensures
            r.schema_version == self.schema_version,
            r.media_type == self.media_type,
            r.config == self.config,
            r.layers@ == self.layers@,
    {
        let mut layers: Vec<Layer> = Vec::new();
        let n: usize = self.layers.len();
        let mut i: usize = 0;
        while i < n
            invariant
                i <= n == self.layers.len(),
                layers@ == self.layers@.take(i as int),
            decreases n - i,
        {
            layers.push(self.layers[i].clone());
            assert(layers@ =~= self.layers@.take(i + 1));
            i = i + 1;
        }
        assert(self.layers@.take(n as int) =~= self.layers@);
        DockerImageManifest {
            schema_version: self.schema_version,
            media_type: self.media_type.clone(),
            config: self.config.clone(),
            layers,
        }
    }
}

/// The name of an image with its tag.
pub open spec fn image_with_tag(image_name: Seq<char>, image_tag: Seq<char>) -> Seq<char> {
    image_name + ":"@ + image_tag
}

/// The place of an image in a registry.
pub open spec fn image_full_url(
    registry_url: Seq<char>,
    image_name: Seq<char>,
    image_tag: Seq<char>,
) -> Seq<char> {
    registry_url + "/"@ + image_with_tag(image_name, image_tag)
}

fn image_with_tag_text(image_name: &str, image_tag: &str) -> (r: String)
    ensures
        r@ == image_with_tag(image_name@, image_tag@),
{
    crate::text::concat3(image_name, ":", image_tag)
}

fn image_full_url_text(registry_url: &str, image_name: &str, image_tag: &str) -> (r: String)
    ensures
        r@ == image_full_url(registry_url@, image_name@, image_tag@),
{
    let mut out = String::from_str(registry_url);
    out.append("/");
    out.append(image_with_tag_text(image_name, image_tag).as_str());
    out
}

/// The command that asks a registry for the manifest of an image. The
/// inspection of manifests is switched on for it.
pub open spec fn spec_manifest_inspect_command(
    docker_envs: Seq<(Seq<char>, Seq<char>)>,
    image_name: Seq<char>,
    image_tag: Seq<char>,
    registry_url: Seq<char>,
) -> CommandLineView {
    CommandLineView {
        binary: "docker"@,
        args: seq!["manifest"@, "inspect"@, image_full_url(registry_url, image_name, image_tag)],
        envs: docker_envs.push(("DOCKER_CLI_EXPERIMENTAL"@, "enabled"@)),
        timeout_minutes: Some(1),
    }
}

pub fn docker_manifest_inspect_command(
    docker_envs: &Vec<(String, String)>,
    image_name: &str,
    image_tag: &str,
    registry_url: &str,
) -> (r: CommandLine)
    ensures
        r@ == spec_manifest_inspect_command(
            pairs(docker_envs@),
            image_name@,
            image_tag@,
            registry_url@,
        ),
{
    let mut envs = copy_pairs(docker_envs);
    let pair = (String::from_str("DOCKER_CLI_EXPERIMENTAL"), String::from_str("enabled"));
    proof {
        lemma_pairs_push(envs@, pair);
    }
    envs.push(pair);
    let mut args: Vec<String> = Vec::new();
    assert(texts(args@) =~= Seq::<Seq<char>>::empty());
    push_text(&mut args, "manifest");
    push_text(&mut args, "inspect");
    push_text(&mut args, image_full_url_text(registry_url, image_name, image_tag).as_str());
    assert(texts(args@) =~= seq![
        "manifest"@,
        "inspect"@,
        image_full_url(registry_url@, image_name@, image_tag@),
    ]);
    CommandLine::new("docker", args, envs).within(1)
}

/// The document that a command printed: its lines, one after the other.
pub fn manifest_document(raw_output: &Vec<String>) -> (r: String)
    ensures
        r@ == join(texts(raw_output@), ""@),
{
    joined(raw_output, "")
}

/// What the look for a manifest gave.
#[derive(Debug)]
pub enum ManifestProbe {
    /// The registry answered with this manifest.
    Found(DockerImageManifest),
    /// The registry answered with something that is no manifest; the text
    /// says what is wrong with it.
    Unreadable(String),
    /// The command failed.
    Failed(ExecError),
}

/// What is said of a look for a manifest that gave none.
pub open spec fn manifest_complaint(
    kind: Kind,
    command: CommandLineView,
    image_name: Seq<char>,
    image_tag: Seq<char>,
    registry_url: Seq<char>,
    probe: ManifestProbe,
) -> Option<Seq<char>> {
    match probe {
        ManifestProbe::Found(_) => None,
        ManifestProbe::Unreadable(why) => Some(
            "error while trying to deserialize manifest image manifest for image "@
                + image_with_tag(image_name, image_tag) + " in "@ + kind.spec_provider_name()
                + " ("@ + registry_url + "): "@ + why@,
        ),
        ManifestProbe::Failed(e) => Some(
            "error while trying to inspect image manifest for image "@ + image_with_tag(
                image_name,
                image_tag,
            ) + " in "@ + kind.spec_provider_name() + " ("@ + registry_url + "), command `"@
                + command_text(command) + "`: "@ + ExecError::spec_describe(e.failure, e.message@),
        ),
    }
}

/// The manifest of an image in a registry, from what the look for it gave:
/// the manifest where the registry answered with one, and nothing otherwise,
/// with the line to log about it.
#[verifier::rlimit(40)]
pub fn docker_manifest_inspect(
    container_registry_kind: Kind,
    docker_envs: Vec<(String, String)>,
    image_name: String,
    image_tag: String,
    registry_url: String,
    probe: ManifestProbe,
) -> (r: (Option<DockerImageManifest>, Option<String>))
    ensures
        match probe {
            ManifestProbe::Found(m) => r.0 == Some(m),
            _ => r.0 is None,
        },
        crate::events::opt_text(r.1) == manifest_complaint(
            container_registry_kind,
            spec_manifest_inspect_command(
                pairs(docker_envs@),
                image_name@,
                image_tag@,
                registry_url@,
            ),
            image_name@,
            image_tag@,
            registry_url@,
            probe,
        ),
{
    match probe {
        ManifestProbe::Found(m) => (Some(m), None),
        ManifestProbe::Unreadable(why) => {
            let mut line = String::from_str(
                "error while trying to deserialize manifest image manifest for image ",
            );
            line.append(image_with_tag_text(image_name.as_str(), image_tag.as_str()).as_str());
            line.append(" in ");
            line.append(container_registry_kind.provider_name());
            line.append(" (");
            line.append(registry_url.as_str());
            line.append("): ");
            line.append(why.as_str());
            (None, Some(line))
        },
        ManifestProbe::Failed(e) => {
            let command = docker_manifest_inspect_command(
                &docker_envs,
                image_name.as_str(),
                image_tag.as_str(),
                registry_url.as_str(),
            );
            let mut line = String::from_str(
                "error while trying to inspect image manifest for image ",
            );
            line.append(image_with_tag_text(image_name.as_str(), image_tag.as_str()).as_str());
            line.append(" in ");
            line.append(container_registry_kind.provider_name());
            line.append(" (");
            line.append(registry_url.as_str());
            line.append("), command `");
            line.append(command.to_text().as_str());
            line.append("`: ");
            line.append(e.describe().as_str());
            (None, Some(line))
        },
    }
}

/// The command that logs Docker in to a registry.
pub open spec fn spec_login_command(
    docker_envs: Seq<(Seq<char>, Seq<char>)>,
    registry_login: Seq<char>,
    registry_pass: Seq<char>,
    registry_url: Seq<char>,
) -> CommandLineView {
    CommandLineView {
        binary: "docker"@,
        args: seq!["login"@, registry_url, "-u"@, registry_login, "-p"@, registry_pass],
        envs: docker_envs,
        timeout_minutes: None,
    }
}

pub fn docker_login_command(
    docker_envs: &Vec<(String, String)>,
    registry_login: &str,
    registry_pass: &str,
    registry_url: &str,
) -> (r: CommandLine)
    ensures
        r@ == spec_login_command(
            pairs(docker_envs@),
            registry_login@,
            registry_pass@,
            registry_url@,
        ),
{
    let mut args: Vec<String> = Vec::new();
    assert(texts(args@) =~= Seq::<Seq<char>>::empty());
    push_text(&mut args, "login");
    push_text(&mut args, registry_url);
    push_text(&mut args, "-u");
    push_text(&mut args, registry_login);
    push_text(&mut args, "-p");
    push_text(&mut args, registry_pass);
    assert(texts(args@) =~= seq![
        "login"@,
        registry_url@,
        "-u"@,
        registry_login@,
        "-p"@,
        registry_pass@,
    ]);
    CommandLine::new("docker", args, copy_pairs(docker_envs))
}

/// What is said of a login that failed, without the command.
pub open spec fn login_failure_safe(kind: Kind, registry_url: Seq<char>) -> Seq<char> {
    "error while trying to login to registry "@ + kind.spec_provider_name() + " "@ + registry_url
}

/// The error of a login that failed. Its full message holds the command,
/// and with it the password; its safe message does not.
pub open spec fn login_failure(
    kind: Kind,
    command: CommandLineView,
    registry_url: Seq<char>,
    e: ExecError,
) -> SimpleErrorView {
    SimpleErrorView {
        message: login_failure_safe(kind, registry_url) + ", command `"@ + command_text(command)
            + "`: "@ + ExecError::spec_describe(e.failure, e.message@),
        message_safe: login_failure_safe(kind, registry_url),
    }
}

/// Whether `r` is `expected`, content for content.
pub open spec fn simple_result_is(r: Result<(), SimpleError>, expected: Result<(), SimpleErrorView>) -> bool {
    match (r, expected) {
        (Ok(_), Ok(_)) => true,
        (Err(a), Err(b)) => a@ == b,
        _ => false,
    }
}

/// Sums up a login to a registry from the outcome of the login command:
/// success where the command succeeded, and otherwise an error that names the
/// registry and the command.
#[verifier::rlimit(40)]
pub fn docker_login(
    container_registry_kind: Kind,
    docker_envs: Vec<(String, String)>,
    registry_login: String,
    registry_pass: String,
    registry_url: String,
    outcome: Result<(), ExecError>,
) -> (r: Result<(), SimpleError>)
    ensures
        simple_result_is(
            r,
            match outcome {
                Ok(_) => Ok(()),
                Err(e) => Err(
                    login_failure(
                        container_registry_kind,
                        spec_login_command(
                            pairs(docker_envs@),
                            registry_login@,
                            registry_pass@,
                            registry_url@,
                        ),
                        registry_url@,
                        e,
                    ),
                ),
            },
        ),
{
    match outcome {
        Ok(_) => Ok(()),
        Err(e) => {
            let command = docker_login_command(
                &docker_envs,
                registry_login.as_str(),
                registry_pass.as_str(),
                registry_url.as_str(),
            );
            let mut safe = String::from_str("error while trying to login to registry ");
            safe.append(container_registry_kind.provider_name());
            safe.append(" ");
            safe.append(registry_url.as_str());
            let mut message = safe.clone();
            message.append(", command `");
            message.append(command.to_text().as_str());
            message.append("`: ");
            message.append(e.describe().as_str());
            Err(SimpleError::new(message, safe))
        },
    }
}

/// The command that removes an image of a registry from the local Docker.
pub open spec fn spec_delete_image_command(
    docker_envs: Seq<(Seq<char>, Seq<char>)>,
    image_name: Seq<char>,
    image_tag: Seq<char>,
    registry_url: Seq<char>,
) -> CommandLineView {
    CommandLineView {
        binary: "docker"@,
        args: seq!["image"@, "rm"@, image_full_url(registry_url, image_name, image_tag)],
        envs: docker_envs,
        timeout_minutes: None,
    }
}

pub fn docker_delete_image_command(
    docker_envs: &Vec<(String, String)>,
    image_name: &str,
    image_tag: &str,
    registry_url: &str,
) -> (r: CommandLine)
    ensures
        r@ == spec_delete_image_command(pairs(docker_envs@), image_name@, image_tag@, registry_url@),
{
    let mut args: Vec<String> = Vec::new();
    assert(texts(args@) =~= Seq::<Seq<char>>::empty());
    push_text(&mut args, "image");
    push_text(&mut args, "rm");
    push_text(&mut args, image_full_url_text(registry_url, image_name, image_tag).as_str());
    assert(texts(args@) =~= seq![
        "image"@,
        "rm"@,
        image_full_url(registry_url@, image_name@, image_tag@),
    ]);
    CommandLine::new("docker", args, copy_pairs(docker_envs))
}

/// What is said of a removal that failed, without the command.
pub open spec fn delete_failure_safe(
    kind: Kind,
    image_name: Seq<char>,
    image_tag: Seq<char>,
    registry_url: Seq<char>,
) -> Seq<char> {
    "error while trying to delete image "@ + image_with_tag(image_name, image_tag) + " from "@
        + kind.spec_provider_name() + " registry "@ + registry_url
}

/// The error of a removal that failed.
pub open spec fn delete_failure(
    kind: Kind,
    command: CommandLineView,
    image_name: Seq<char>,
    image_tag: Seq<char>,
    registry_url: Seq<char>,
    e: ExecError,
) -> SimpleErrorView {
    SimpleErrorView {
        message: delete_failure_safe(kind, image_name, image_tag, registry_url) + ", command `"@
            + command_text(command) + "`: "@ + ExecError::spec_describe(e.failure, e.message@),
        message_safe: delete_failure_safe(kind, image_name, image_tag, registry_url),
    }
}

/// Sums up the removal of an image from the outcome of the command: success
/// where the command succeeded, and otherwise an error that names the image,
/// the registry and the command.
#[verifier::rlimit(40)]
pub fn docker_delete_image(
    container_registry_kind: Kind,
    docker_envs: Vec<(String, String)>,
    image_name: String,
    image_tag: String,
    registry_url: String,
    outcome: Result<(), ExecError>,
) -> (r: Result<(), SimpleError>)
    ensures
        simple_result_is(
            r,
            match outcome {
                Ok(_) => Ok(()),
                Err(e) => Err(
                    delete_failure(
                        container_registry_kind,
                        spec_delete_image_command(
                            pairs(docker_envs@),
                            image_name@,
                            image_tag@,
                            registry_url@,
                        ),
                        image_name@,
                        image_tag@,
                        registry_url@,
                        e,
                    ),
                ),
            },
        ),
{
    match outcome {
        Ok(_) => Ok(()),
        Err(e) => {
            let command = docker_delete_image_command(
                &docker_envs,
                image_name.as_str(),
                image_tag.as_str(),
                registry_url.as_str(),
            );
            let mut safe = String::from_str("error while trying to delete image ");
            safe.append(image_with_tag_text(image_name.as_str(), image_tag.as_str()).as_str());
            safe.append(" from ");
            safe.append(container_registry_kind.provider_name());
            safe.append(" registry ");
            safe.append(registry_url.as_str());
            let mut message = safe.clone();
            message.append(", command `");
            message.append(command.to_text().as_str());
            message.append("`: ");
            message.append(e.describe().as_str());
            Err(SimpleError::new(message, safe))
        },
    }
}

/// The time that one push or pull may take, in minutes.
pub const TRANSFER_TIMEOUT_MIN: u64 = 10;

/// The policy under which the tagging of an image is tried again: growing
/// delays from three seconds, five retries.
pub open spec fn tag_policy() -> RetryPolicy {
    RetryPolicy { shape: crate::backoff::Backoff::Fibonacci, base_millis: 3000, retries: 5 }
}

/// The policy under which a push or a pull is tried again: growing delays
/// from five seconds, five retries.
pub open spec fn transfer_policy() -> RetryPolicy {
    RetryPolicy { shape: crate::backoff::Backoff::Fibonacci, base_millis: 5000, retries: 5 }
}

/// The two steps that bring a local image to `dest`: tag it as `dest`, then
/// push `dest`. Each is tried again under its own policy.
pub open spec fn tag_and_push_steps(
    docker_envs: Seq<(Seq<char>, Seq<char>)>,
    image_name: Seq<char>,
    image_tag: Seq<char>,
    dest: Seq<char>,
) -> Seq<StepView> {
    seq![
        StepView {
            command: CommandLineView {
                binary: "docker"@,
                args: seq!["tag"@, image_with_tag(image_name, image_tag), dest],
                envs: docker_envs,
                timeout_minutes: None,
            },
            delays: tag_policy().spec_delays(),
        },
        StepView {
            command: CommandLineView {
                binary: "docker"@,
                args: seq!["push"@, dest],
                envs: docker_envs,
                timeout_minutes: Some(TRANSFER_TIMEOUT_MIN),
            },
            delays: transfer_policy().spec_delays(),
        },
    ]
}

/// The steps that tag a local image as `dest` and push it there.
#[verifier::rlimit(40)]
pub fn docker_tag_and_push_steps(
    docker_envs: &Vec<(String, String)>,
    image_name: &str,
    image_tag: &str,
    dest: &str,
) -> (r: Vec<Step>)
    ensures
        steps(r@) == tag_and_push_steps(pairs(docker_envs@), image_name@, image_tag@, dest@),
{
    let mut tag_args: Vec<String> = Vec::new();
    assert(texts(tag_args@) =~= Seq::<Seq<char>>::empty());
    push_text(&mut tag_args, "tag");
    push_text(&mut tag_args, image_with_tag_text(image_name, image_tag).as_str());
    push_text(&mut tag_args, dest);
    assert(texts(tag_args@) =~= seq!["tag"@, image_with_tag(image_name@, image_tag@), dest@]);
    let mut push_args: Vec<String> = Vec::new();
    assert(texts(push_args@) =~= Seq::<Seq<char>>::empty());
    push_text(&mut push_args, "push");
    push_text(&mut push_args, dest);
    assert(texts(push_args@) =~= seq!["push"@, dest@]);
    let mut out: Vec<Step> = Vec::new();
    out.push(
        Step {
            command: CommandLine::new("docker", tag_args, copy_pairs(docker_envs)),
            policy: RetryPolicy::fibonacci(3000, 5),
        },
    );
    out.push(
        Step {
            command: CommandLine::new("docker", push_args, copy_pairs(docker_envs)).within(
                TRANSFER_TIMEOUT_MIN,
            ),
            policy: RetryPolicy::fibonacci(5000, 5),
        },
    );
    assert(steps(out@) =~= tag_and_push_steps(
        pairs(docker_envs@),
        image_name@,
        image_tag@,
        dest@,
    ));
    out
}

/// What is said while a step of tagging and pushing is tried again.
pub open spec fn retry_text(kind: Kind, image_name: Seq<char>, image_tag: Seq<char>, step: usize, e: ExecError) -> Seq<char> {
    if step == 0 {
        "failed to tag image "@ + image_with_tag(image_name, image_tag) + ", retrying..."@
    } else {
        "failed to push image "@ + image_with_tag(image_name, image_tag) + " on "@
            + kind.spec_provider_name() + ", "@ + e.message@ + " retrying..."@
    }
}

/// What is said while the step at position `step` is tried again after the
/// failure `e`.
pub fn docker_tag_and_push_retry_text(
    kind: Kind,
    image_name: &str,
    image_tag: &str,
    step: usize,
    e: &ExecError,
) -> (r: String)
    ensures
        r@ == retry_text(kind, image_name@, image_tag@, step, *e),
{
    if step == 0 {
        let mut out = String::from_str("failed to tag image ");
        out.append(image_with_tag_text(image_name, image_tag).as_str());
        out.append(", retrying...");
        out
    } else {
        let mut out = String::from_str("failed to push image ");
        out.append(image_with_tag_text(image_name, image_tag).as_str());
        out.append(" on ");
        out.append(kind.provider_name());
        out.append(", ");
        out.append(e.message.as_str());
        out.append(" retrying...");
        out
    }
}

/// The error of a transfer that was given up because the task was cancelled.
pub open spec fn transfer_cancelled() -> SimpleErrorView {
    SimpleErrorView {
        message: "Task cancellation has been requested."@,
        message_safe: "Task cancellation has been requested."@,
    }
}

fn transfer_cancelled_error() -> (r: SimpleError)
    ensures
        r@ == transfer_cancelled(),
{
    SimpleError::new_from_safe_message(String::from_str("Task cancellation has been requested."))
}

/// What tagging and pushing gave: success where both steps succeeded; the
/// error of a cancelled task where the task was cancelled between two
/// attempts; the error of tagging where the tag could not be set at any
/// attempt; and otherwise the last failure of the push.
pub open spec fn tag_and_push_result(
    kind: Kind,
    image_name: Seq<char>,
    image_tag: Seq<char>,
    outcome: SequenceOutcome,
) -> Result<(), SimpleErrorView> {
    match outcome {
        Ok(_) => Ok(()),
        Err(f) => if f.reason == StopReason::Cancelled {
            Err(transfer_cancelled())
        } else if f.step == 0 {
            Err(
                SimpleErrorView {
                    message: "failed to tag image "@ + image_with_tag(image_name, image_tag)
                        + ": "@ + f.error.message@,
                    message_safe: "failed to tag image "@ + image_with_tag(image_name, image_tag),
                },
            )
        } else {
            Err(
                SimpleErrorView {
                    message: ExecError::spec_describe(f.error.failure, f.error.message@),
                    message_safe: "failed to push image "@ + image_with_tag(image_name, image_tag)
                        + " on "@ + kind.spec_provider_name(),
                },
            )
        },
    }
}

/// Sums up tagging and pushing from how the two steps ended.
#[verifier::rlimit(40)]
pub fn docker_tag_and_push_image(
    container_registry_kind: Kind,
    image_name: String,
    image_tag: String,
    outcome: SequenceOutcome,
) -> (r: Result<(), SimpleError>)
    ensures
        simple_result_is(
            r,
            tag_and_push_result(container_registry_kind, image_name@, image_tag@, outcome),
        ),
{
    match outcome {
        Ok(_) => Ok(()),
        Err(f) => {
            if f.reason == StopReason::Cancelled {
                Err(transfer_cancelled_error())
            } else if f.step == 0 {
                let mut safe = String::from_str("failed to tag image ");
                safe.append(image_with_tag_text(image_name.as_str(), image_tag.as_str()).as_str());
                let mut message = safe.clone();
                message.append(": ");
                message.append(f.error.message.as_str());
                Err(SimpleError::new(message, safe))
            } else {
                let mut safe = String::from_str("failed to push image ");
                safe.append(image_with_tag_text(image_name.as_str(), image_tag.as_str()).as_str());
                safe.append(" on ");
                safe.append(container_registry_kind.provider_name());
                Err(SimpleError::new(f.error.describe(), safe))
            }
        },
    }
}

/// Tagging and pushing are retried independently: where the tag is set at
/// some attempt and the push succeeds at some attempt, each after at most
/// five failures of whatever kind, the transfer ends with success. The tag
/// command is run once more than it failed and not again once the tag is set;
/// then the push command is run once more than it failed.
pub proof fn lemma_tag_then_push(
    docker_envs: Seq<(Seq<char>, Seq<char>)>,
    image_name: Seq<char>,
    image_tag: Seq<char>,
    dest: Seq<char>,
    tag_errors: Seq<ExecError>,
    push_errors: Seq<ExecError>,
)
    requires
        tag_errors.len() <= 5,
        push_errors.len() <= 5,
    ensures
        ({
            let plan = tag_and_push_steps(docker_envs, image_name, image_tag, dest);
            let start = SequenceState::initial(plan);
            &&& start.pending() == crate::retried::SequenceRequestView::Run(plan[0].command)
            &&& after(start, succeeding_after(tag_errors)).pending()
                == crate::retried::SequenceRequestView::Run(plan[1].command)
            &&& after(start, succeeding_after(tag_errors) + succeeding_after(push_errors)).outcome
                == Some(Ok::<(), SequenceFailure>(()))
            &&& runs_in(succeeding_after(tag_errors)) == tag_errors.len() + 1
            &&& runs_in(succeeding_after(push_errors)) == push_errors.len() + 1
        }),
{
    let plan = tag_and_push_steps(docker_envs, image_name, image_tag, dest);
    let start = SequenceState::initial(plan);
    lemma_two_steps_succeed_independently(start, tag_errors, push_errors);
}

/// Exhaustion of the push: where the tag is set at the first attempt and the
/// push fails every time, in whatever way, the push command is run six times,
/// once and then once more after each of the five delays of its policy, and
/// the tag command once; then the transfer ends with the failure of the last
/// push, marked as retries exhausted, and pushing sums it up as that failure.
pub proof fn lemma_push_exhaustion(
    kind: Kind,
    docker_envs: Seq<(Seq<char>, Seq<char>)>,
    image_name: Seq<char>,
    image_tag: Seq<char>,
    dest: Seq<char>,
    push_errors: Seq<ExecError>,
)
    requires
        push_errors.len() == 6,
    ensures
        ({
            let plan = tag_and_push_steps(docker_envs, image_name, image_tag, dest);
            let start = SequenceState::initial(plan);
            let events = seq![SequenceEvent::Ran(Ok(()))] + failing(push_errors);
            let failure = SequenceFailure {
                step: 1,
                error: push_errors.last(),
                reason: StopReason::RetriesExhausted,
            };
            &&& runs_in(failing(push_errors)) == transfer_policy().spec_max_attempts()
            &&& after(start, events).outcome == Some(Err::<(), SequenceFailure>(failure))
            &&& tag_and_push_result(kind, image_name, image_tag, Err(failure)) == Err::<
                (),
                SimpleErrorView,
            >(
                SimpleErrorView {
                    message: ExecError::spec_describe(
                        push_errors.last().failure,
                        push_errors.last().message@,
                    ),
                    message_safe: "failed to push image "@ + image_with_tag(image_name, image_tag)
                        + " on "@ + kind.spec_provider_name(),
                },
            )
        }),
{
    let plan = tag_and_push_steps(docker_envs, image_name, image_tag, dest);
    let start = SequenceState::initial(plan);
    let none = Seq::<ExecError>::empty();
    lemma_step_succeeds_after_retries(start, none);
    assert(succeeding_after(none) == seq![SequenceEvent::Ran(Ok(()))]);
    let middle = after(start, succeeding_after(none));
    lemma_step_exhaustion(middle, push_errors, Seq::empty());
    lemma_after_append(start, succeeding_after(none), failing(push_errors));
}

/// The step that pulls `dest`, tried again under the policy of transfers.
pub open spec fn pull_steps(docker_envs: Seq<(Seq<char>, Seq<char>)>, dest: Seq<char>) -> Seq<
    StepView,
> {
    seq![
        StepView {
            command: CommandLineView {
                binary: "docker"@,
                args: seq!["pull"@, dest],
                envs: docker_envs,
                timeout_minutes: Some(TRANSFER_TIMEOUT_MIN),
            },
            delays: transfer_policy().spec_delays(),
        },
    ]
}

/// The step that pulls `dest`.
pub fn docker_pull_steps(docker_envs: &Vec<(String, String)>, dest: &str) -> (r: Vec<Step>)
    ensures
        steps(r@) == pull_steps(pairs(docker_envs@), dest@),
{
    let mut args: Vec<String> = Vec::new();
    assert(texts(args@) =~= Seq::<Seq<char>>::empty());
    push_text(&mut args, "pull");
    push_text(&mut args, dest);
    assert(texts(args@) =~= seq!["pull"@, dest@]);
    let mut out: Vec<Step> = Vec::new();
    out.push(
        Step {
            command: CommandLine::new("docker", args, copy_pairs(docker_envs)).within(
                TRANSFER_TIMEOUT_MIN,
            ),
            policy: RetryPolicy::fibonacci(5000, 5),
        },
    );
    assert(steps(out@) =~= pull_steps(pairs(docker_envs@), dest@));
    out
}

/// What a pull gave: success; the error of a cancelled task where the task
/// was cancelled between two attempts; and otherwise the last failure of the
/// pull.
pub open spec fn pull_result(kind: Kind, dest: Seq<char>, outcome: SequenceOutcome) -> Result<
    (),
    SimpleErrorView,
> {
    match outcome {
        Ok(_) => Ok(()),
        Err(f) => if f.reason == StopReason::Cancelled {
            Err(transfer_cancelled())
        } else {
            Err(
                SimpleErrorView {
                    message: ExecError::spec_describe(f.error.failure, f.error.message@),
                    message_safe: "failed to pull image from "@ + kind.spec_provider_name()
                        + " registry "@ + dest,
                },
            )
        },
    }
}

/// Sums up a pull from how its step ended.
pub fn docker_pull_image(container_registry_kind: Kind, dest: String, outcome: SequenceOutcome) -> (r:
    Result<(), SimpleError>)
    ensures
        simple_result_is(r, pull_result(container_registry_kind, dest@, outcome)),
{
    match outcome {
        Ok(_) => Ok(()),
        Err(f) => {
            if f.reason == StopReason::Cancelled {
                Err(transfer_cancelled_error())
            } else {
                let mut safe = String::from_str("failed to pull image from ");
                safe.append(container_registry_kind.provider_name());
                safe.append(" registry ");
                safe.append(dest.as_str());
                Err(SimpleError::new(f.error.describe(), safe))
            }
        },
    }
}

} // verus!
