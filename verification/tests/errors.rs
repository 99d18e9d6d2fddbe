use deploy_core::errors::{
    CommandError, EngineError, EngineErrorCause, EngineErrorScope, SimpleError, Tag,
};
use deploy_core::events::{EnvironmentStep, EventDetails, Stage, Transmitter};

fn details() -> EventDetails {
    EventDetails::new(
        "org".to_string(),
        "cluster".to_string(),
        "exec-1".to_string(),
        Stage::Environment(EnvironmentStep::Build),
        Transmitter::BuildPlatform("bp-1".to_string(), "local docker".to_string()),
    )
}

#[test]
fn simple_error_keeps_both_messages() {
    let e = SimpleError::new("secret: hunter2".to_string(), "secret: ***".to_string());
    assert_eq!(e.message(), "secret: hunter2");
    assert_eq!(e.message_safe(), "secret: ***");
}

#[test]
fn simple_error_from_safe_message_uses_it_twice() {
    let e = SimpleError::new_from_safe_message("nothing to hide".to_string());
    assert_eq!(e.message(), "nothing to hide");
    assert_eq!(e.message_safe(), "nothing to hide");
}

#[test]
fn command_error_shows_the_safe_message_first() {
    let e = CommandError::new("raw".to_string(), Some("safe".to_string()));
    assert_eq!(e.message(), "safe");
    assert_eq!(e.message_raw(), "raw");
    assert_eq!(e.message_safe(), Some("safe".to_string()));
    let e = CommandError::new("raw".to_string(), None);
    assert_eq!(e.message(), "raw");
    assert_eq!(e.message_safe(), None);
}

#[test]
fn engine_error_message_prefers_safe_over_raw() {
    let e = EngineError::new_unknown(
        details(),
        "for the team".to_string(),
        "for the user".to_string(),
        Some("password=hunter2".to_string()),
        Some("password=***".to_string()),
        None,
        None,
    );
    assert_eq!(e.message(), "password=***");
    assert_ne!(e.message(), "password=hunter2");
    assert_eq!(*e.tag(), Tag::Unknown);
    assert_eq!(e.qovery_log_message(), "for the team");
    assert_eq!(e.user_log_message(), "for the user");
}

#[test]
fn engine_error_message_falls_back_to_raw_then_to_a_fixed_text() {
    let raw_only = EngineError::new_unknown(
        details(),
        "a".to_string(),
        "b".to_string(),
        Some("raw".to_string()),
        None,
        None,
        None,
    );
    assert_eq!(raw_only.message(), "raw");
    let neither =
        EngineError::new_unknown(details(), "a".to_string(), "b".to_string(), None, None, None, None);
    assert_eq!(neither.message(), "no error message defined");
}

#[test]
fn engine_error_carries_its_link() {
    let link = url::Url::parse("https://hub.qovery.com/docs").unwrap();
    let e = EngineError::new_unknown(
        details(),
        "a".to_string(),
        "b".to_string(),
        None,
        None,
        Some(link.clone()),
        Some("a hint".to_string()),
    );
    assert_eq!(e.link(), &Some(link));
    assert_eq!(e.hint_message(), &Some("a hint".to_string()));
    let copy = e.clone();
    assert_eq!(copy.link(), e.link());
    assert_eq!(copy.message(), e.message());
}

#[test]
fn unsupported_instance_type_names_the_type() {
    let e = EngineError::new_unsupported_instance_type(details(), "t2.nano", "raw".to_string());
    assert_eq!(*e.tag(), Tag::UnsupportedInstanceType);
    assert_eq!(e.user_log_message(), "`t2.nano` instance type is not supported");
    assert_eq!(e.qovery_log_message(), "`t2.nano` instance type is not supported");
    assert_eq!(e.message(), "raw");
    assert_eq!(
        e.hint_message(),
        &Some(
            "Selected instance type is not supported, please check provider's documentation."
                .to_string()
        )
    );
}

#[test]
fn cluster_errors_have_their_own_tags() {
    let e = EngineError::new_cannot_retrieve_cluster_config_file(details(), "raw".to_string());
    assert_eq!(*e.tag(), Tag::CannotRetrieveClusterConfigFile);
    assert_eq!(e.message(), "raw");
    let e = EngineError::new_cannot_get_cluster_nodes(details(), "nodes".to_string());
    assert_eq!(*e.tag(), Tag::CannotGetClusterNodes);
    assert_eq!(e.user_log_message(), "Cannot get Kubernetes nodes");
    assert_eq!(e.message(), "nodes");
}

#[test]
fn not_enough_resources_lists_what_is_short() {
    let e = EngineError::new_cannot_deploy_not_enough_resources_available(
        details(),
        2048,
        512,
        Some("4 CPU requested and only 2 CPU available".to_string()),
    );
    assert_eq!(*e.tag(), Tag::NotEnoughResourcesToDeployEnvironment);
    assert_eq!(
        e.user_log_message(),
        "There is not enough resources on the cluster:\n4 CPU requested and only 2 CPU available\n2048mib RAM requested and only 512mib RAM  available"
    );
    let e =
        EngineError::new_cannot_deploy_not_enough_resources_available(details(), 512, 2048, None);
    assert_eq!(e.user_log_message(), "There is not enough resources on the cluster:");
    assert_eq!(e.message(), "no error message defined");
}

#[test]
fn not_enough_pods_gives_the_numbers() {
    let e = EngineError::new_cannot_deploy_not_enough_free_pods_available(details(), 10, 3);
    assert_eq!(*e.tag(), Tag::NotEnoughResourcesToDeployEnvironment);
    assert_eq!(
        e.user_log_message(),
        "There is not enough free Pods (free 3 VS 10 required) on the cluster."
    );
}

#[test]
fn cancellation_has_its_own_tag() {
    let e = EngineError::new_task_cancellation_requested(details());
    assert_eq!(*e.tag(), Tag::TaskCancellationRequested);
    assert_eq!(e.user_log_message(), "Task cancellation has been requested.");
}

#[test]
fn errors_with_a_cause_take_its_two_messages() {
    let cause = CommandError::new("raw cause".to_string(), Some("safe cause".to_string()));
    let e = EngineError::new_docker_push_image_error(details(), "app", "registry/app:1", cause);
    assert_eq!(*e.tag(), Tag::DockerPushImageError);
    assert_eq!(
        e.user_log_message(),
        "Error, trying to push Docker image `app` to repository `registry/app:1`."
    );
    assert_eq!(e.message(), "safe cause");
    let cause = CommandError::new("raw cause".to_string(), None);
    let e = EngineError::new_builder_clone_repository_error(details(), "git@host:repo", cause);
    assert_eq!(*e.tag(), Tag::BuilderCloningRepositoryError);
    assert_eq!(e.message(), "raw cause");
}

#[test]
fn buildpack_error_names_every_builder() {
    let builders = vec!["heroku/buildpacks:20".to_string(), "paketo:base".to_string()];
    let e = EngineError::new_buildpack_cannot_build_container_image(
        details(),
        "platform (bp-1)",
        &builders,
        CommandError::new("boom".to_string(), None),
    );
    assert_eq!(*e.tag(), Tag::BuildpackCannotBuildContainerImage);
    assert_eq!(
        e.user_log_message(),
        "Error while trying to build container image `platform (bp-1)` with one of the following builders: heroku/buildpacks:20, paketo:base."
    );
}

#[test]
fn legacy_error_keeps_the_safe_message() {
    let e = EngineError::new_unknown(
        details(),
        "a".to_string(),
        "b".to_string(),
        Some("raw".to_string()),
        Some("safe".to_string()),
        None,
        None,
    );
    let legacy = e.to_legacy_engine_error();
    assert_eq!(legacy.cause, EngineErrorCause::Internal);
    assert_eq!(legacy.execution_id, "exec-1");
    assert_eq!(legacy.message, Some("safe".to_string()));
    assert!(matches!(
        legacy.scope,
        EngineErrorScope::BuildPlatform(id, name) if id == "bp-1" && name == "local docker"
    ));
}
