use deploy_core::build_platform::Image;
use deploy_core::cmd::{ExecError, ExecFailure};
use deploy_core::retried::{SequenceFailure, StopReason};
use deploy_core::container_registry::docker::{
    docker_delete_image, docker_delete_image_command, docker_login, docker_login_command,
    docker_manifest_inspect, docker_manifest_inspect_command, docker_pull_image,
    docker_pull_steps, docker_tag_and_push_image, docker_tag_and_push_retry_text,
    docker_tag_and_push_steps, manifest_document, Config, DockerImageManifest, Layer,
    ManifestProbe,
};
use deploy_core::container_registry::ecr::{
    credentials_from_token, lifecycle_policy, AuthorizationData, AuthorizationProbe, Repository,
    ECR,
};
use deploy_core::container_registry::ecr_flow::{
    DescribeOutcome, RegistryEvent, RegistryGoal, RegistryMachine, RegistryOutcome,
    RegistryPhase, RegistryRequest,
};
use deploy_core::container_registry::{Kind, PullResult};
use deploy_core::errors::Tag;
use deploy_core::events::Level;
use deploy_core::models::{ExecutionContext, Listener};
use deploy_core::notice::Notice;

fn context(test_cluster: bool) -> ExecutionContext {
    ExecutionContext {
        organization_id: "org".to_string(),
        cluster_id: "cluster".to_string(),
        execution_id: "exec-1".to_string(),
        workspace_root_dir: "/tmp/workspace".to_string(),
        lib_root_dir: "/lib".to_string(),
        test_cluster,
        docker_host: Some("tcp://docker:2375".to_string()),
        docker_build_options: None,
        resource_expiration_in_seconds: None,
    }
}

fn registry() -> ECR {
    ECR::try_new(context(true), "ecr-1", "my ecr", "AKIA", "SECRET-REDACTED", "eu-west-3").unwrap()
}

fn image() -> Image {
    Image {
        application_id: "app-1".to_string(),
        name: "app".to_string(),
        tag: "c0ffee".to_string(),
        commit_id: "c0ffee".to_string(),
        registry_url: None,
    }
}

fn repository(uri: Option<&str>) -> Repository {
    Repository { repository_name: Some("app".to_string()), repository_uri: uri.map(|s| s.to_string()) }
}

fn failed(message: &str) -> ExecError {
    ExecError::new(ExecFailure::ExitStatusError, message.to_string())
}

fn gave_up(step: usize, message: &str) -> SequenceFailure {
    SequenceFailure { step, error: failed(message), reason: StopReason::RetriesExhausted }
}

fn cancelled(step: usize) -> SequenceFailure {
    SequenceFailure { step, error: failed("before"), reason: StopReason::Cancelled }
}

fn token() -> AuthorizationProbe {
    // "AWS:password" in Base64.
    AuthorizationProbe::Answered(Some(vec![AuthorizationData {
        authorization_token: Some("QVdTOnBhc3N3b3Jk".to_string()),
        proxy_endpoint: Some("https://123.dkr.ecr.eu-west-3.amazonaws.com".to_string()),
    }]))
}

#[test]
fn registry_kinds_have_provider_names() {
    assert_eq!(Kind::DockerHub.provider_name(), "DockerHub");
    assert_eq!(Kind::Ecr.provider_name(), "AWS ECR");
    assert_eq!(Kind::Docr.provider_name(), "DigitalOcean Registry");
    assert_eq!(Kind::ScalewayCr.provider_name(), "Scaleway Registry");
}

#[test]
fn manifest_defaults_are_empty() {
    let m = DockerImageManifest::default();
    assert_eq!(m.schema_version, 0);
    assert_eq!(m.media_type, "");
    assert_eq!(m.config.size, 0);
    assert!(m.layers.is_empty());
    assert_eq!(Config::default().digest, "");
    assert_eq!(Layer::default().media_type, "");
    let full = DockerImageManifest {
        schema_version: 2,
        media_type: "application/vnd.docker.distribution.manifest.v2+json".to_string(),
        config: Config { media_type: "c".to_string(), size: 7, digest: "sha256:1".to_string() },
        layers: vec![Layer { media_type: "l".to_string(), size: 9, digest: "sha256:2".to_string() }],
    };
    let copy = full.clone();
    assert_eq!(copy.schema_version, 2);
    assert_eq!(copy.config.digest, "sha256:1");
    assert_eq!(copy.layers.len(), 1);
    assert_eq!(copy.layers[0].size, 9);
}

#[test]
fn manifest_inspection_switches_the_experimental_cli_on() {
    let envs = vec![("DOCKER_HOST".to_string(), "tcp://d:1".to_string())];
    let c = docker_manifest_inspect_command(&envs, "app", "1.0", "registry.example");
    assert_eq!(c.binary, "docker");
    assert_eq!(c.args, vec!["manifest", "inspect", "registry.example/app:1.0"]);
    assert_eq!(
        c.envs,
        vec![
            ("DOCKER_HOST".to_string(), "tcp://d:1".to_string()),
            ("DOCKER_CLI_EXPERIMENTAL".to_string(), "enabled".to_string())
        ]
    );
    assert_eq!(c.timeout_minutes, Some(1));
    assert_eq!(manifest_document(&vec!["{\"a\":".to_string(), "1}".to_string()]), "{\"a\":1}");
}

#[test]
fn manifest_inspection_gives_the_manifest_or_a_complaint() {
    let found = docker_manifest_inspect(
        Kind::Ecr,
        Vec::new(),
        "app".to_string(),
        "1.0".to_string(),
        "r".to_string(),
        ManifestProbe::Found(DockerImageManifest::default()),
    );
    assert!(found.0.is_some());
    assert_eq!(found.1, None);
    let unreadable = docker_manifest_inspect(
        Kind::Docr,
        Vec::new(),
        "app".to_string(),
        "1.0".to_string(),
        "r".to_string(),
        ManifestProbe::Unreadable("missing field `config`".to_string()),
    );
    assert!(unreadable.0.is_none());
    assert_eq!(
        unreadable.1,
        Some("error while trying to deserialize manifest image manifest for image app:1.0 in DigitalOcean Registry (r): missing field `config`".to_string())
    );
    let failed = docker_manifest_inspect(
        Kind::ScalewayCr,
        Vec::new(),
        "app".to_string(),
        "1.0".to_string(),
        "r".to_string(),
        ManifestProbe::Failed(failed("1")),
    );
    assert!(failed.0.is_none());
    assert_eq!(
        failed.1,
        Some("error while trying to inspect image manifest for image app:1.0 in Scaleway Registry (r), command `DOCKER_CLI_EXPERIMENTAL=enabled \"docker\" manifest inspect r/app:1.0`: ExitStatusError(1)".to_string())
    );
}

#[test]
fn login_failure_hides_the_password_in_the_safe_message() {
    let c = docker_login_command(&Vec::new(), "me", "hunter2", "registry.example");
    assert_eq!(c.args, vec!["login", "registry.example", "-u", "me", "-p", "hunter2"]);
    assert!(docker_login(
        Kind::DockerHub,
        Vec::new(),
        "me".to_string(),
        "hunter2".to_string(),
        "registry.example".to_string(),
        Ok(())
    )
    .is_ok());
    let e = docker_login(
        Kind::DockerHub,
        Vec::new(),
        "me".to_string(),
        "hunter2".to_string(),
        "registry.example".to_string(),
        Err(failed("denied")),
    )
    .unwrap_err();
    assert_eq!(
        e.message(),
        "error while trying to login to registry DockerHub registry.example, command ` \"docker\" login registry.example -u me -p hunter2`: ExitStatusError(denied)"
    );
    assert_eq!(e.message_safe(), "error while trying to login to registry DockerHub registry.example");
    assert!(!e.message_safe().contains("hunter2"));
}

#[test]
fn image_removal_names_the_image() {
    let c = docker_delete_image_command(&Vec::new(), "app", "1.0", "registry.example");
    assert_eq!(c.args, vec!["image", "rm", "registry.example/app:1.0"]);
    assert!(docker_delete_image(
        Kind::Ecr,
        Vec::new(),
        "app".to_string(),
        "1.0".to_string(),
        "registry.example".to_string(),
        Ok(())
    )
    .is_ok());
    let e = docker_delete_image(
        Kind::Ecr,
        Vec::new(),
        "app".to_string(),
        "1.0".to_string(),
        "registry.example".to_string(),
        Err(failed("in use")),
    )
    .unwrap_err();
    assert_eq!(
        e.message_safe(),
        "error while trying to delete image app:1.0 from AWS ECR registry registry.example"
    );
    assert_eq!(
        e.message(),
        "error while trying to delete image app:1.0 from AWS ECR registry registry.example, command ` \"docker\" image rm registry.example/app:1.0`: ExitStatusError(in use)"
    );
}

#[test]
fn tagging_and_pushing_are_two_steps_with_their_own_policies() {
    let steps = docker_tag_and_push_steps(&Vec::new(), "app", "1.0", "registry/app:1.0");
    assert_eq!(steps.len(), 2);
    assert_eq!(steps[0].command.args, vec!["tag", "app:1.0", "registry/app:1.0"]);
    assert_eq!(steps[0].command.timeout_minutes, None);
    assert_eq!(steps[0].policy.delays(), vec![3000, 3000, 6000, 9000, 15000]);
    assert_eq!(steps[1].command.args, vec!["push", "registry/app:1.0"]);
    assert_eq!(steps[1].command.timeout_minutes, Some(10));
    assert_eq!(steps[1].policy.delays(), vec![5000, 5000, 10000, 15000, 25000]);
    let pull = docker_pull_steps(&Vec::new(), "registry/app:1.0");
    assert_eq!(pull.len(), 1);
    assert_eq!(pull[0].command.args, vec!["pull", "registry/app:1.0"]);
    assert_eq!(pull[0].policy.max_attempts(), 6);
}

#[test]
fn tagging_and_pushing_sum_up_their_outcome() {
    assert!(docker_tag_and_push_image(Kind::Ecr, "app".to_string(), "1.0".to_string(), Ok(())).is_ok());
    let e = docker_tag_and_push_image(
        Kind::Ecr,
        "app".to_string(),
        "1.0".to_string(),
        Err(gave_up(0, "no such image")),
    )
    .unwrap_err();
    assert_eq!(e.message(), "failed to tag image app:1.0: no such image");
    let e = docker_tag_and_push_image(
        Kind::Ecr,
        "app".to_string(),
        "1.0".to_string(),
        Err(gave_up(1, "timeout")),
    )
    .unwrap_err();
    assert_eq!(e.message(), "ExitStatusError(timeout)");
    assert_eq!(e.message_safe(), "failed to push image app:1.0 on AWS ECR");
    assert_eq!(
        docker_tag_and_push_retry_text(Kind::Ecr, "app", "1.0", 0, &failed("x")),
        "failed to tag image app:1.0, retrying..."
    );
    assert_eq!(
        docker_tag_and_push_retry_text(Kind::Ecr, "app", "1.0", 1, &failed("x")),
        "failed to push image app:1.0 on AWS ECR, x retrying..."
    );
    let e = docker_pull_image(Kind::Ecr, "r/app:1".to_string(), Err(gave_up(0, "gone"))).unwrap_err();
    assert_eq!(e.message_safe(), "failed to pull image from AWS ECR registry r/app:1");
    let e = docker_pull_image(Kind::Ecr, "r/app:1".to_string(), Err(cancelled(0))).unwrap_err();
    assert_eq!(e.message(), "Task cancellation has been requested.");
    let e = docker_tag_and_push_image(Kind::Ecr, "app".to_string(), "1.0".to_string(), Err(cancelled(1)))
        .unwrap_err();
    assert_eq!(e.message_safe(), "Task cancellation has been requested.");
}

#[test]
fn a_registry_needs_a_region_of_aws() {
    assert!(ECR::try_new(context(true), "id", "name", "a", "b", "eu-west-3").is_some());
    assert!(ECR::try_new(context(true), "id", "name", "a", "b", "US-EAST-1").is_some());
    assert!(ECR::try_new(context(true), "id", "name", "a", "b", "useast1").is_some());
    assert!(ECR::try_new(context(true), "id", "name", "a", "b", "mars-north-1").is_none());
    assert!(ECR::try_new(context(true), "id", "name", "a", "b", "").is_none());
    let mut r = registry();
    assert_eq!(r.kind(), Kind::Ecr);
    assert_eq!(r.id(), "ecr-1");
    assert_eq!(r.name(), "my ecr");
    assert_eq!(r.name_with_id(), "my ecr (ecr-1)");
    assert_eq!(r.region, "eu-west-3");
    r.add_listener(Listener { id: 7 });
    assert_eq!(r.listeners(), &vec![Listener { id: 7 }]);
    assert_eq!(r.docker_envs(), vec![("DOCKER_HOST".to_string(), "tcp://docker:2375".to_string())]);
}

#[test]
fn credentials_are_read_from_the_token() {
    let r = registry();
    let c = r.get_credentials(token()).unwrap();
    assert_eq!(c.access_token, "AWS");
    assert_eq!(c.password, "password");
    assert_eq!(c.endpoint_url, "https://123.dkr.ecr.eu-west-3.amazonaws.com");
}

#[test]
fn credentials_that_cannot_be_read_are_an_error() {
    let r = registry();
    let probes = vec![
        AuthorizationProbe::Failed,
        AuthorizationProbe::Answered(None),
        AuthorizationProbe::Answered(Some(Vec::new())),
        AuthorizationProbe::Answered(Some(vec![AuthorizationData {
            authorization_token: None,
            proxy_endpoint: Some("https://e".to_string()),
        }])),
        AuthorizationProbe::Answered(Some(vec![AuthorizationData {
            authorization_token: Some("not base64!".to_string()),
            proxy_endpoint: Some("https://e".to_string()),
        }])),
        // "nocolon" in Base64.
        AuthorizationProbe::Answered(Some(vec![AuthorizationData {
            authorization_token: Some("bm9jb2xvbg==".to_string()),
            proxy_endpoint: Some("https://e".to_string()),
        }])),
        AuthorizationProbe::Answered(Some(vec![AuthorizationData {
            authorization_token: Some("QVdTOnBhc3N3b3Jk".to_string()),
            proxy_endpoint: None,
        }])),
    ];
    for probe in probes {
        let e = r.get_credentials(probe).unwrap_err();
        assert_eq!(*e.tag(), Tag::ContainerRegistryGetCredentialsError);
        assert_eq!(
            e.user_log_message(),
            "Failed to retrieve credentials and endpoint URL from container registry `my ecr (ecr-1)`."
        );
    }
}

#[test]
fn credentials_from_decoded_bytes() {
    let c = credentials_from_token(Some(b"user:pass:more".to_vec()), Some("e".to_string())).unwrap();
    assert_eq!(c.access_token, "user");
    assert_eq!(c.password, "pass");
    assert!(credentials_from_token(Some(b"user".to_vec()), Some("e".to_string())).is_none());
    assert!(credentials_from_token(Some(vec![0xff]), Some("e".to_string())).is_none());
    assert!(credentials_from_token(None, Some("e".to_string())).is_none());
    let c = credentials_from_token(Some(b":".to_vec()), Some("e".to_string())).unwrap();
    assert_eq!(c.access_token, "");
    assert_eq!(c.password, "");
}

#[test]
fn lifecycle_policy_is_the_json_document() {
    let text = lifecycle_policy(1);
    let parsed: serde_json::Value = serde_json::from_str(&text).unwrap();
    let rule = &parsed["rules"][0];
    assert_eq!(rule["action"]["type"], "expire");
    assert_eq!(rule["selection"]["countType"], "sinceImagePushed");
    assert_eq!(rule["selection"]["countUnit"], "days");
    assert_eq!(rule["selection"]["countNumber"], 1);
    assert_eq!(rule["selection"]["tagStatus"], "any");
    assert_eq!(rule["description"], "Images retention policy");
    assert_eq!(rule["rulePriority"], 1);
    assert_eq!(parsed["rules"].as_array().unwrap().len(), 1);
    // The text is what serde_json writes for the document.
    assert_eq!(text, parsed.to_string());
    let year: serde_json::Value = serde_json::from_str(&lifecycle_policy(365)).unwrap();
    assert_eq!(year["rules"][0]["selection"]["countNumber"], 365);
}

#[test]
fn retention_is_shorter_on_test_clusters() {
    assert_eq!(registry().retention_policy_in_days(), 1);
    let production =
        ECR::try_new(context(false), "ecr-1", "my ecr", "a", "b", "eu-west-3").unwrap();
    assert_eq!(production.retention_policy_in_days(), 365);
}

#[test]
fn simple_outcomes_of_the_registry() {
    let r = registry();
    assert!(r.is_valid(true).is_ok());
    assert_eq!(*r.is_valid(false).unwrap_err().tag(), Tag::ClientInvalidCloudProviderCredentials);
    assert!(r.exec_docker_login(&Ok(())).is_ok());
    assert_eq!(
        *r.exec_docker_login(&Err(failed("denied"))).unwrap_err().tag(),
        Tag::ClientInvalidCloudProviderCredentials
    );
    assert!(r.does_image_exists(Some(1)));
    assert!(!r.does_image_exists(Some(0)));
    assert!(!r.does_image_exists(None));
    assert!(r.get_repository(Err("boom".to_string())).is_none());
    assert!(r.get_repository(Ok(Vec::new())).is_none());
    let first = r.get_repository(Ok(vec![repository(Some("uri-1")), repository(Some("uri-2"))]));
    assert_eq!(first.unwrap().repository_uri, Some("uri-1".to_string()));
    assert_eq!(r.push_error(&image()).unwrap().image.name, "app");
    let (notice, result) = r.on_create();
    assert!(result.is_ok());
    assert!(matches!(notice, Notice::Log { message, .. } if message.raw == "ECR.on_create() called"));
    let pushed = r.push_image("uri:c0ffee".to_string(), &image(), Ok(())).unwrap();
    assert_eq!(pushed.image.registry_url, Some("uri:c0ffee".to_string()));
    let e = r.push_image("uri:c0ffee".to_string(), &image(), Err(gave_up(2, "x"))).unwrap_err();
    assert_eq!(*e.tag(), Tag::DockerPushImageError);
    assert_eq!(e.message(), "failed to tag image app:c0ffee");
    let e = r.pull_image("uri:c0ffee".to_string(), &image(), Err(gave_up(0, "x"))).unwrap_err();
    assert_eq!(*e.tag(), Tag::DockerPullImageError);
    let e = r.pull_image("uri:c0ffee".to_string(), &image(), Err(cancelled(0))).unwrap_err();
    assert_eq!(*e.tag(), Tag::TaskCancellationRequested);
    let e = r.push_image("uri:c0ffee".to_string(), &image(), Err(cancelled(3))).unwrap_err();
    assert_eq!(*e.tag(), Tag::TaskCancellationRequested);
}

#[test]
fn an_existing_repository_is_not_created_again() {
    let (mut m, told) = registry().get_or_create_repository(image());
    assert!(told.is_empty());
    assert!(matches!(
        m.pending(),
        RegistryRequest::DescribeRepository { repository_name } if repository_name == "app"
    ));
    let told = m.absorb(RegistryEvent::Described(DescribeOutcome::Found(Some(repository(Some("uri"))))));
    assert!(matches!(
        &told[0],
        Notice::Log { level: Level::Info, message, .. } if message.raw == "ECR repository app already exists"
    ));
    assert!(matches!(m.pending(), RegistryRequest::Complete));
    match m.into_result() {
        Some(Ok(RegistryOutcome::Repository(r))) => assert_eq!(r.repository_uri, Some("uri".to_string())),
        other => panic!("the repository was due, not {:?}", other),
    }
}

#[test]
fn a_missing_repository_is_created_and_given_its_policy() {
    let (mut m, _) = registry().get_or_create_repository(image());
    let told = m.absorb(RegistryEvent::Described(DescribeOutcome::NotFound));
    assert!(matches!(
        &told[0],
        Notice::Log { message, .. } if message.raw == "Creating ECR repository app"
    ));
    assert_eq!(m.phase(), RegistryPhase::Describing);
    assert!(m.absorb(RegistryEvent::Described(DescribeOutcome::NotFound)).is_empty());
    assert!(matches!(
        m.pending(),
        RegistryRequest::CreateRepository { repository_name } if repository_name == "app"
    ));
    m.absorb(RegistryEvent::Created(Ok(())));
    assert!(matches!(m.pending(), RegistryRequest::Sleep(5000)));
    m.absorb(RegistryEvent::Slept);
    let told = m.absorb(RegistryEvent::Described(DescribeOutcome::Found(None)));
    assert!(matches!(
        &told[0],
        Notice::Log { message, .. } if message.raw == "repository app created after 1 attempt(s)"
    ));
    match m.pending() {
        RegistryRequest::PutLifecyclePolicy { repository_name, policy_text } => {
            assert_eq!(repository_name, "app");
            assert_eq!(policy_text, lifecycle_policy(1));
        }
        other => panic!("the policy was due, not {:?}", other),
    }
    m.absorb(RegistryEvent::PolicySet(Ok(())));
    assert_eq!(m.phase(), RegistryPhase::FetchingRepository);
    m.absorb(RegistryEvent::Described(DescribeOutcome::Found(Some(repository(Some("uri"))))));
    assert!(matches!(m.into_result(), Some(Ok(RegistryOutcome::Repository(_)))));
}

#[test]
fn the_creation_of_a_repository_gives_up_after_25_attempts() {
    let (mut m, told) = registry().create_repository(image());
    assert_eq!(told.len(), 1);
    let mut describes = 0;
    let mut creates = 0;
    let mut sleeps = Vec::new();
    loop {
        match m.pending() {
            RegistryRequest::DescribeRepository { .. } => {
                describes += 1;
                let told = m.absorb(RegistryEvent::Described(DescribeOutcome::NotFound));
                if describes == 1 {
                    assert!(told.is_empty());
                } else {
                    assert!(matches!(
                        &told[0],
                        Notice::Log { level: Level::Warning, message, .. }
                            if message.raw == format!("Repository app was not found, {}x retrying...", describes - 1)
                    ));
                }
            }
            RegistryRequest::CreateRepository { .. } => {
                creates += 1;
                m.absorb(RegistryEvent::Created(Err(format!("refused {}", creates))));
            }
            RegistryRequest::Sleep(millis) => {
                sleeps.push(millis);
                m.absorb(RegistryEvent::Slept);
            }
            RegistryRequest::Complete => break,
            other => panic!("unexpected request {:?}", other),
        }
    }
    assert_eq!(describes, 25);
    assert_eq!(creates, 25);
    assert_eq!(sleeps, vec![5000u64; 24]);
    let failure = m.into_result().unwrap().unwrap_err();
    assert!(failure.exhausted);
    let e = failure.error;
    assert_eq!(*e.tag(), Tag::ContainerRegistryNamespaceCreationError);
    assert_eq!(e.message(), "Can't create ECR repository");
    assert_eq!(
        e.user_log_message(),
        "Error, trying to create registry `app` in namespace `my ecr (ecr-1)`."
    );
}

#[test]
fn a_policy_that_cannot_be_set_fails_the_creation() {
    let (mut m, _) = registry().create_repository(image());
    m.absorb(RegistryEvent::Described(DescribeOutcome::Found(None)));
    m.absorb(RegistryEvent::PolicySet(Err("denied".to_string())));
    let failure = m.into_result().unwrap().unwrap_err();
    assert!(!failure.exhausted);
    let e = failure.error;
    assert_eq!(*e.tag(), Tag::ContainerRegistryRepositorySetLifecycleError);
    assert_eq!(e.message(), "denied");
}

#[test]
fn an_image_that_is_not_there_is_not_pulled() {
    let (mut m, _) = registry().pull(image());
    assert!(matches!(
        m.pending(),
        RegistryRequest::DescribeImage { repository_name, image_tag }
            if repository_name == "app" && image_tag == "c0ffee"
    ));
    let told = m.absorb(RegistryEvent::ImageDescribed(false));
    assert_eq!(told.len(), 2);
    assert!(matches!(
        &told[0],
        Notice::Log { message, .. }
            if message.raw == "image `app:c0ffee` does not exist in ECR my ecr repository"
    ));
    assert!(matches!(m.pending(), RegistryRequest::Complete));
    assert!(matches!(m.into_result(), Some(Ok(RegistryOutcome::Pulled(PullResult::Absent)))));
}

#[test]
fn an_image_is_pulled_after_login() {
    let (mut m, _) = registry().pull(image());
    m.absorb(RegistryEvent::ImageDescribed(true));
    assert!(matches!(m.pending(), RegistryRequest::FetchAuthorization));
    m.absorb(RegistryEvent::Authorization(token()));
    match m.pending() {
        RegistryRequest::Run(c) => {
            assert_eq!(c.binary, "docker");
            assert_eq!(
                c.args,
                vec!["login", "-u", "AWS", "-p", "password", "https://123.dkr.ecr.eu-west-3.amazonaws.com"]
            );
            assert_eq!(c.envs, vec![("DOCKER_HOST".to_string(), "tcp://docker:2375".to_string())]);
        }
        other => panic!("the login was due, not {:?}", other),
    }
    m.absorb(RegistryEvent::Ran(Ok(())));
    m.absorb(RegistryEvent::Described(DescribeOutcome::Found(Some(repository(Some("123.dkr/app"))))));
    match m.pending() {
        RegistryRequest::RunSequence(steps) => {
            assert_eq!(steps.len(), 1);
            assert_eq!(steps[0].command.args, vec!["pull", "123.dkr/app:c0ffee"]);
        }
        other => panic!("the pull was due, not {:?}", other),
    }
    m.absorb(RegistryEvent::SequenceEnded(Ok(())));
    match m.into_result() {
        Some(Ok(RegistryOutcome::Pulled(PullResult::Pulled(i)))) => {
            assert_eq!(i.registry_url, Some("123.dkr/app:c0ffee".to_string()));
            assert_eq!(i.name, "app");
        }
        other => panic!("the image was due, not {:?}", other),
    }
}

#[test]
fn a_login_that_fails_is_final() {
    let (mut m, _) = registry().push(image(), false);
    m.absorb(RegistryEvent::Authorization(token()));
    m.absorb(RegistryEvent::Ran(Err(failed("denied"))));
    assert!(matches!(m.pending(), RegistryRequest::Complete));
    assert_eq!(
        *m.into_result().unwrap().unwrap_err().error.tag(),
        Tag::ClientInvalidCloudProviderCredentials
    );
    let (mut m, _) = registry().push(image(), false);
    m.absorb(RegistryEvent::Authorization(AuthorizationProbe::Failed));
    assert_eq!(
        *m.into_result().unwrap().unwrap_err().error.tag(),
        Tag::ContainerRegistryGetCredentialsError
    );
}

#[test]
fn an_image_that_the_registry_holds_is_not_pushed_again() {
    let (mut m, _) = registry().push(image(), false);
    m.absorb(RegistryEvent::Authorization(token()));
    m.absorb(RegistryEvent::Ran(Ok(())));
    m.absorb(RegistryEvent::Described(DescribeOutcome::Found(Some(repository(Some("123.dkr/app"))))));
    assert_eq!(m.phase(), RegistryPhase::CheckingImage);
    let told = m.absorb(RegistryEvent::ImageDescribed(true));
    assert!(matches!(
        &told[0],
        Notice::Log { message, .. }
            if message.raw == "image app:c0ffee found on ECR my ecr repository, container build is not required"
    ));
    assert!(matches!(m.pending(), RegistryRequest::Complete));
    match m.into_result() {
        Some(Ok(RegistryOutcome::Pushed(p))) => {
            assert_eq!(p.image.registry_url, Some("123.dkr/app:c0ffee".to_string()))
        }
        other => panic!("the image was due, not {:?}", other),
    }
}

#[test]
fn a_forced_push_creates_the_repository_and_pushes() {
    let (mut m, _) = registry().push(image(), true);
    m.absorb(RegistryEvent::Authorization(token()));
    let told = m.absorb(RegistryEvent::Ran(Ok(())));
    assert!(matches!(&told[0], Notice::Log { message, .. } if message.raw == "Creating ECR repository app"));
    assert_eq!(m.phase(), RegistryPhase::Describing);
    m.absorb(RegistryEvent::Described(DescribeOutcome::Found(None)));
    m.absorb(RegistryEvent::PolicySet(Ok(())));
    let told = m.absorb(RegistryEvent::Described(DescribeOutcome::Found(Some(repository(Some("123.dkr/app"))))));
    assert!(matches!(
        &told[0],
        Notice::Log { message, .. }
            if message.raw == "image `app:c0ffee` does not exist on ECR my ecr repository, starting image upload"
    ));
    match m.pending() {
        RegistryRequest::RunSequence(steps) => {
            let args: Vec<Vec<String>> = steps.into_iter().map(|s| s.command.args).collect();
            assert_eq!(
                args,
                vec![
                    vec!["tag", "app:c0ffee", "123.dkr/app:c0ffee"],
                    vec!["push", "123.dkr/app:c0ffee"],
                    vec!["tag", "app:c0ffee", "123.dkr/app:latest"],
                    vec!["push", "123.dkr/app:latest"],
                ]
            );
        }
        other => panic!("the push was due, not {:?}", other),
    }
    m.absorb(RegistryEvent::SequenceEnded(Err(gave_up(1, "network"))));
    let failure = m.into_result().unwrap().unwrap_err();
    assert!(failure.exhausted);
    let e = failure.error;
    assert_eq!(*e.tag(), Tag::DockerPushImageError);
    assert_eq!(
        e.user_log_message(),
        "Error, trying to push Docker image `app` to repository `123.dkr/app:c0ffee`."
    );
    assert_eq!(e.message(), "failed to push image app:c0ffee on AWS ECR");
}

#[test]
fn a_repository_without_address_cannot_be_pushed_to() {
    let (mut m, _) = registry().push(image(), false);
    m.absorb(RegistryEvent::Authorization(token()));
    m.absorb(RegistryEvent::Ran(Ok(())));
    m.absorb(RegistryEvent::Described(DescribeOutcome::Found(Some(repository(None)))));
    assert_eq!(
        *m.into_result().unwrap().unwrap_err().error.tag(),
        Tag::ContainerRegistryNamespaceCreationError
    );
}

#[test]
fn a_push_that_is_cancelled_between_attempts_is_a_cancelled_task() {
    let (mut m, _) = registry().push(image(), true);
    m.absorb(RegistryEvent::Authorization(token()));
    m.absorb(RegistryEvent::Ran(Ok(())));
    m.absorb(RegistryEvent::Described(DescribeOutcome::Found(None)));
    m.absorb(RegistryEvent::PolicySet(Ok(())));
    m.absorb(RegistryEvent::Described(DescribeOutcome::Found(Some(repository(Some("123.dkr/app"))))));
    m.absorb(RegistryEvent::SequenceEnded(Err(cancelled(1))));
    let failure = m.into_result().unwrap().unwrap_err();
    assert!(!failure.exhausted);
    assert_eq!(*failure.error.tag(), Tag::TaskCancellationRequested);
}

#[test]
fn a_repository_that_cannot_be_fetched_is_not_an_exhaustion() {
    let (mut m, _) = registry().create_repository(image());
    m.absorb(RegistryEvent::Described(DescribeOutcome::Found(None)));
    m.absorb(RegistryEvent::PolicySet(Ok(())));
    m.absorb(RegistryEvent::Described(DescribeOutcome::NotFound));
    let failure = m.into_result().unwrap().unwrap_err();
    assert!(!failure.exhausted);
    assert_eq!(*failure.error.tag(), Tag::ContainerRegistryNamespaceCreationError);
    assert_eq!(failure.error.message(), "cannot get repository");
}
