use deploy_core::cloud_provider::redis::{get_managed_redis_version, RedisAws};
use deploy_core::cloud_provider::service::{
    check_service_version, default_tera_context, Action, ActiveActions, DatabaseMode,
    DatabaseOptions, DeploymentTarget, Environment, Kubernetes, Lifecycle, LifecycleEvent,
    LifecycleRequest, LifecycleState, ServiceWork,
};
use deploy_core::cloud_provider::utilities::{
    add_minor_line, get_self_hosted_redis_version, get_supported_version_to_use, print_action,
    VersionTable, VersionsNumber,
};
use deploy_core::errors::{CommandError, EngineError, Tag};
use deploy_core::events::{
    EnvironmentStep, EventDetails, Level, ProgressKind, ProgressLevel, Stage, Transmitter,
};
use deploy_core::models::{ExecutionContext, Listener};
use deploy_core::notice::Notice;

fn context() -> ExecutionContext {
    ExecutionContext {
        organization_id: "org".to_string(),
        cluster_id: "cluster".to_string(),
        execution_id: "exec-1".to_string(),
        workspace_root_dir: "/tmp/workspace".to_string(),
        lib_root_dir: "/lib".to_string(),
        test_cluster: true,
        docker_host: None,
        docker_build_options: None,
        resource_expiration_in_seconds: Some(3600),
    }
}

fn options(mode: DatabaseMode, publicly_accessible: bool) -> DatabaseOptions {
    DatabaseOptions {
        login: "admin".to_string(),
        password: "hunter2".to_string(),
        host: "redis.example.com".to_string(),
        port: 6379,
        mode,
        disk_size_in_gib: 10,
        database_disk_type: "gp2".to_string(),
        activate_high_availability: false,
        activate_backups: false,
        publicly_accessible,
    }
}

fn redis(name: &str, version: &str, mode: DatabaseMode) -> RedisAws {
    RedisAws::new(
        context(),
        "db-1",
        Action::Create,
        name,
        version,
        "redis.public.example.com",
        "fqdn-1",
        "250m".to_string(),
        512,
        "cache.t3.micro",
        options(mode, false),
        Vec::new(),
    )
}

fn target() -> DeploymentTarget {
    DeploymentTarget {
        kubernetes: Kubernetes {
            id: "k8s-1".to_string(),
            name: "my cluster".to_string(),
            region: "eu-west-3".to_string(),
            zone: "eu-west-3a".to_string(),
            provider_variables: vec![
                ("aws_access_key".to_string(), "AKIA".to_string()),
                ("aws_region".to_string(), "eu-west-3".to_string()),
            ],
        },
        environment: Environment {
            id: "env-1".to_string(),
            project_id: "proj-1".to_string(),
            owner_id: "owner-1".to_string(),
            organization_id: "org".to_string(),
            namespace: "proj-1-env-1".to_string(),
        },
    }
}

fn details() -> EventDetails {
    EventDetails::new(
        "org".to_string(),
        "cluster".to_string(),
        "exec-1".to_string(),
        Stage::Environment(EnvironmentStep::Deploy),
        Transmitter::Database("db-1".to_string(), "Redis".to_string(), "cache".to_string()),
    )
}

#[test]
fn version_numbers_are_read_by_their_dots() {
    let v = VersionsNumber::parse("v6.0+.9");
    assert_eq!(v.major, "6");
    assert_eq!(v.minor, Some("0".to_string()));
    assert_eq!(v.patch, Some("9".to_string()));
    let v = VersionsNumber::parse("5");
    assert_eq!(v.major, "5");
    assert_eq!(v.minor, None);
    assert_eq!(v.patch, None);
    let v = VersionsNumber::parse("1.2.3.4");
    assert_eq!(v.patch, Some("3".to_string()));
}

#[test]
fn version_table_replaces_and_finds() {
    let mut t = VersionTable::new();
    assert!(t.get("6").is_none());
    t.insert("6".to_string(), "6.0.1".to_string());
    t.insert("5".to_string(), "5.0.6".to_string());
    t.insert("6".to_string(), "6.x".to_string());
    assert_eq!(t.get("6"), Some(&"6.x".to_string()));
    assert_eq!(t.get("5"), Some(&"5.0.6".to_string()));
    assert!(t.get("7").is_none());
}

#[test]
fn a_minor_line_maps_short_versions_to_the_last_patch() {
    let mut t = VersionTable::new();
    add_minor_line(&mut t, 12, 3, 1, 4);
    assert_eq!(t.get("12"), Some(&"12.3.4".to_string()));
    assert_eq!(t.get("12.3"), Some(&"12.3.4".to_string()));
    assert!(t.get("12.3.0").is_none());
    assert_eq!(t.get("12.3.1"), Some(&"12.3.1".to_string()));
    assert_eq!(t.get("12.3.4"), Some(&"12.3.4".to_string()));
    assert!(t.get("12.3.5").is_none());
    assert_eq!(get_supported_version_to_use("Db", &t, "12.3.2").unwrap(), "12.3.2");
    assert_eq!(get_supported_version_to_use("Db", &t, "v12").unwrap(), "12.3.4");
    assert_eq!(
        get_supported_version_to_use("Db", &t, "13").unwrap_err().message(),
        "Db 13 version is not supported"
    );
}

#[test]
fn redis_versions_managed_and_hosted() {
    assert_eq!(get_managed_redis_version("6".to_string()).unwrap(), "6.x");
    assert_eq!(get_managed_redis_version("5".to_string()).unwrap(), "5.0.6");
    assert!(get_managed_redis_version("6.0".to_string()).is_err());
    assert_eq!(get_self_hosted_redis_version("5".to_string()).unwrap(), "5.0.10");
    assert_eq!(get_self_hosted_redis_version("5.0".to_string()).unwrap(), "5.0.10");
    assert_eq!(get_self_hosted_redis_version("5.0.3".to_string()).unwrap(), "5.0.3");
    assert_eq!(get_self_hosted_redis_version("6.0.9".to_string()).unwrap(), "6.0.9");
    assert!(get_self_hosted_redis_version("6.0.10".to_string()).is_err());
    assert!(get_self_hosted_redis_version("".to_string()).is_err());
}

#[test]
fn redis_getters() {
    let mut r = redis("my_redis-cache", "6", DatabaseMode::Managed);
    assert_eq!(r.id(), "db-1");
    assert_eq!(r.name(), "my_redis-cache");
    assert_eq!(r.version(), "6");
    assert_eq!(*r.action(), Action::Create);
    assert_eq!(r.cloud_provider_name(), "aws");
    assert_eq!(r.struct_name(), "redis");
    assert!(r.is_managed_service());
    assert_eq!(r.private_port(), Some(6379));
    assert_eq!(r.total_cpus(), "250m");
    assert_eq!(r.total_ram_in_mib(), 512);
    assert_eq!(r.min_instances(), 1);
    assert_eq!(r.max_instances(), 1);
    assert!(!r.publicly_accessible());
    assert_eq!(r.sanitized_name(), "redismyrediscache");
    assert_eq!(r.selector(), Some("app=redismyrediscache".to_string()));
    assert_eq!(r.helm_selector(), Some("app=redismyrediscache".to_string()));
    assert_eq!(r.helm_release_name(), "redis-db-1");
    assert_eq!(r.helm_chart_dir(), "/lib/common/services/redis");
    assert_eq!(r.helm_chart_values_dir(), "/lib/aws/chart_values/redis");
    assert_eq!(r.helm_chart_external_name_service_dir(), "/lib/common/charts/external-name-svc");
    assert_eq!(r.terraform_common_resource_dir_path(), "/lib/aws/services/common");
    assert_eq!(r.terraform_resource_dir_path(), "/lib/aws/services/redis");
    r.add_listener(Listener { id: 3 });
    assert_eq!(r.listeners(), &vec![Listener { id: 3 }]);
    assert!(matches!(
        r.to_transmitter(),
        Transmitter::Database(id, kind, name) if id == "db-1" && kind == "Redis" && name == "my_redis-cache"
    ));
}

#[test]
fn sanitized_name_is_cut_to_the_limit() {
    let long = "a".repeat(60);
    let r = redis(&long, "6", DatabaseMode::Managed);
    assert_eq!(r.sanitized_name(), format!("redis{}", "a".repeat(42)));
    assert_eq!(r.sanitized_name().len(), 47);
    let exact = "b".repeat(42);
    assert_eq!(redis(&exact, "6", DatabaseMode::Managed).sanitized_name(), format!("redis{}", exact));
}

#[test]
fn the_check_of_a_version_tells_when_another_one_is_used() {
    let r = redis("cache", "6", DatabaseMode::Managed);
    let (told, check) = r.matching_correct_version(true, details());
    let check = check.unwrap();
    assert_eq!(check.requested_version(), "6");
    assert_eq!(check.matched_version(), "6.x");
    assert_eq!(told.len(), 2);
    assert!(matches!(
        &told[0],
        Notice::Log { level: Level::Info, message, .. }
            if message.raw == "Redis version `6` has been requested by the user; but matching version is `6.x`"
    ));
    let same = redis("cache", "6.0.9", DatabaseMode::Container);
    let (told, check) = same.matching_correct_version(false, details());
    assert!(told.is_empty());
    assert_eq!(check.unwrap().matched_version(), "6.0.9");
}

#[test]
fn the_check_of_a_version_refuses_what_is_not_supported() {
    let r = redis("cache", "1.0", DatabaseMode::Managed);
    let (told, check) = r.matching_correct_version(true, details());
    let e = check.unwrap_err();
    assert_eq!(*e.tag(), Tag::UnsupportedVersion);
    assert_eq!(e.message(), "Elasticache 1.0 version is not supported");
    assert!(matches!(
        &told[0],
        Notice::Progress { kind: ProgressKind::DeploymentError, info }
            if info.message == Some("Redis version 1.0 is not supported!".to_string())
                && info.level == ProgressLevel::Error
    ));
    assert!(matches!(&told[1], Notice::Failure(_)));
    let (_, direct) = check_service_version(
        Err(CommandError::new_from_safe_message("nope".to_string())),
        "Redis",
        "9",
        "db-1",
        "exec-1",
        details(),
    );
    assert_eq!(direct.unwrap_err().user_log_message(), "Error, version `9` is not supported for `Redis`.");
}

#[test]
fn default_context_tells_who_and_where() {
    let r = redis("cache", "6", DatabaseMode::Managed);
    let ctx = default_tera_context(&r.summary(), &target());
    let json = ctx.into_json();
    assert_eq!(json["id"], "db-1");
    assert_eq!(json["owner_id"], "owner-1");
    assert_eq!(json["project_id"], "proj-1");
    assert_eq!(json["organization_id"], "org");
    assert_eq!(json["environment_id"], "env-1");
    assert_eq!(json["region"], "eu-west-3");
    assert_eq!(json["zone"], "eu-west-3a");
    assert_eq!(json["name"], "cache");
    assert_eq!(json["sanitized_name"], "rediscache");
    assert_eq!(json["namespace"], "proj-1-env-1");
    assert_eq!(json["cluster_name"], "my cluster");
    assert_eq!(json["total_cpus"], "250m");
    assert_eq!(json["total_ram_in_mib"], 512);
    assert_eq!(json["min_instances"], 1);
    assert_eq!(json["max_instances"], 1);
    assert_eq!(json["is_private_port"], true);
    assert_eq!(json["private_port"], 6379);
    assert_eq!(json["version"], "6");
    assert_eq!(json.as_object().unwrap().len(), 18);
}

#[test]
fn redis_context_holds_the_values_of_its_templates() {
    let r = redis("cache", "6", DatabaseMode::Managed);
    let (told, ctx) = r.tera_context(&target(), Ok("/tmp/kubeconfig".to_string()));
    assert_eq!(told.len(), 2);
    let json = ctx.unwrap().into_json();
    assert_eq!(json["kubeconfig_path"], "/tmp/kubeconfig");
    assert_eq!(json["database_elasticache_parameter_group_name"], "default.redis6.x");
    assert_eq!(json["version"], "6.x");
    assert_eq!(json["aws_access_key"], "AKIA");
    assert_eq!(json["aws_region"], "eu-west-3");
    assert_eq!(json["kubernetes_cluster_id"], "k8s-1");
    assert_eq!(json["kubernetes_cluster_name"], "my cluster");
    assert_eq!(json["fqdn_id"], "fqdn-1");
    assert_eq!(json["fqdn"], "db-1-dns.proj-1-env-1.svc.cluster.local");
    assert_eq!(json["service_name"], "fqdn-1");
    assert_eq!(json["database_login"], "admin");
    assert_eq!(json["database_password"], "hunter2");
    assert_eq!(json["database_port"], 6379);
    assert_eq!(json["database_disk_size_in_gib"], 10);
    assert_eq!(json["database_instance_type"], "cache.t3.micro");
    assert_eq!(json["database_disk_type"], "gp2");
    assert_eq!(json["database_ram_size_in_mib"], 512);
    assert_eq!(json["database_total_cpus"], "250m");
    assert_eq!(json["database_fqdn"], "redis.example.com");
    assert_eq!(json["database_id"], "db-1");
    assert_eq!(json["tfstate_suffix_name"], "db-1");
    assert_eq!(json["tfstate_name"], "tfstate-default-db-1");
    assert_eq!(json["publicly_accessible"], false);
    assert_eq!(json["skip_final_snapshot"], false);
    assert_eq!(json["final_snapshot_name"], "qovery-db-1-final-snap");
    assert_eq!(json["delete_automated_backups"], true);
    assert_eq!(json["resource_expiration_in_seconds"], 3600);
    assert_eq!(json["namespace"], "proj-1-env-1");
}

#[test]
fn redis_context_fails_without_configuration_or_version_or_group() {
    let r = redis("cache", "6", DatabaseMode::Managed);
    let missing = EngineError::new_cannot_retrieve_cluster_config_file(details(), "gone".to_string());
    let (told, ctx) = r.tera_context(&target(), Err(missing));
    assert!(told.is_empty());
    assert_eq!(*ctx.unwrap_err().tag(), Tag::CannotRetrieveClusterConfigFile);

    let unsupported = redis("cache", "1.0", DatabaseMode::Managed);
    let (_, ctx) = unsupported.tera_context(&target(), Ok("/k".to_string()));
    assert_eq!(*ctx.unwrap_err().tag(), Tag::UnsupportedVersion);

    let hosted = redis("cache", "5.0.3", DatabaseMode::Container);
    let (_, ctx) = hosted.tera_context(&target(), Ok("/k".to_string()));
    let json = ctx.unwrap().into_json();
    assert_eq!(json["database_elasticache_parameter_group_name"], "default.redis5.0");
    assert_eq!(json["fqdn"], "rediscache.proj-1-env-1.svc.cluster.local");
}

#[test]
fn hooks_say_what_to_log_and_what_to_do() {
    let r = redis("cache", "6", DatabaseMode::Managed);
    let hook = r.on_create();
    assert!(matches!(hook.work, ServiceWork::DeployStatefulService));
    assert!(matches!(
        hook.notice,
        Some(Notice::Log { level: Level::Info, message, details })
            if message.raw == "aws.redis.on_create called for cache"
                && details.stage() == Stage::Environment(EnvironmentStep::Deploy)
    ));
    let hook = r.on_create_error();
    assert!(matches!(hook.work, ServiceWork::Nothing));
    assert!(matches!(
        hook.notice,
        Some(Notice::Log { level: Level::Warning, message, .. })
            if message.raw == "aws.redis.on_create_error called for cache"
    ));
    assert!(matches!(
        r.on_create_check().work,
        ServiceWork::CheckDomains(d) if d == vec!["redis.public.example.com"]
    ));
    assert!(matches!(r.on_pause().work, ServiceWork::ScaleDownDatabase { replicas: 0 }));
    assert!(matches!(r.on_pause_check().work, ServiceWork::Nothing));
    assert!(r.on_pause_check().notice.is_none());
    assert!(matches!(r.on_pause_error().notice, Some(Notice::Log { level: Level::Warning, .. })));
    assert!(matches!(r.on_delete().work, ServiceWork::DeleteStatefulService));
    assert!(matches!(r.on_delete_check().work, ServiceWork::Nothing));
    assert!(matches!(
        r.on_delete_error().notice,
        Some(Notice::Log { details, .. }) if details.stage() == Stage::Environment(EnvironmentStep::Delete)
    ));
    let plain = print_action("aws", "redis", "on_pause", "cache", details());
    assert!(matches!(plain, Notice::Log { level: Level::Info, .. }));
}

#[test]
fn an_action_runs_its_steps_in_order() {
    let mut l = Lifecycle::new(Action::Create, "db-1", "cache", "exec-1");
    assert_eq!(l.state(), LifecycleState::Idle);
    assert_eq!(l.pending(), LifecycleRequest::Start);
    assert!(l.absorb(LifecycleEvent::StepEnded(Ok(()))).is_empty());
    assert_eq!(l.state(), LifecycleState::Idle);
    l.absorb(LifecycleEvent::Started);
    assert_eq!(l.pending(), LifecycleRequest::RunPreCheck);
    l.absorb(LifecycleEvent::StepEnded(Ok(())));
    assert_eq!(l.pending(), LifecycleRequest::RunAction(Action::Create));
    l.absorb(LifecycleEvent::StepEnded(Ok(())));
    assert_eq!(l.pending(), LifecycleRequest::RunPostCheck(Action::Create));
    let told = l.absorb(LifecycleEvent::StepEnded(Ok(())));
    assert_eq!(l.state(), LifecycleState::Succeeded);
    assert!(matches!(
        &told[0],
        Notice::Progress { info, .. } if info.message == Some("✅ create of cache succeeded".to_string())
    ));
    assert_eq!(l.pending(), LifecycleRequest::Complete);
    assert!(l.absorb(LifecycleEvent::Started).is_empty());
    assert!(matches!(l.into_result(), Some(Ok(()))));
}

#[test]
fn a_failed_step_ends_the_action_after_its_error_hook() {
    let mut l = Lifecycle::new(Action::Delete, "db-1", "cache", "exec-1");
    l.absorb(LifecycleEvent::Started);
    l.absorb(LifecycleEvent::StepEnded(Ok(())));
    let error = EngineError::new_unknown(
        details(),
        "a".to_string(),
        "b".to_string(),
        Some("terraform destroy failed".to_string()),
        None,
        None,
        None,
    );
    let told = l.absorb(LifecycleEvent::StepEnded(Err(error)));
    assert_eq!(told.len(), 2);
    assert!(matches!(
        &told[0],
        Notice::Progress { kind: ProgressKind::Error, info }
            if info.message == Some("❌ delete of cache failed: terraform destroy failed".to_string())
                && info.level == ProgressLevel::Error
    ));
    assert!(matches!(&told[1], Notice::Failure(_)));
    assert_eq!(l.state(), LifecycleState::Failed);
    assert_eq!(l.pending(), LifecycleRequest::RunErrorHook(Action::Delete));
    // Nothing more is told, whatever happens afterwards.
    assert!(l.absorb(LifecycleEvent::StepEnded(Ok(()))).is_empty());
    assert!(l.absorb(LifecycleEvent::ErrorHookEnded).is_empty());
    assert_eq!(l.pending(), LifecycleRequest::Complete);
    assert!(l.absorb(LifecycleEvent::Started).is_empty());
    assert!(matches!(l.into_result(), Some(Err(e)) if *e.tag() == Tag::Unknown));
}

#[test]
fn a_cancelled_action_is_told_as_cancelled() {
    let mut l = Lifecycle::new(Action::Pause, "db-1", "cache", "exec-1");
    l.absorb(LifecycleEvent::Started);
    let told = l.absorb(LifecycleEvent::StepEnded(Err(
        EngineError::new_task_cancellation_requested(details()),
    )));
    assert!(matches!(
        &told[0],
        Notice::Progress { info, .. } if info.message == Some("🚫 pause of cache has been cancelled".to_string())
    ));
    assert!(l.into_result().is_none());
}

#[test]
fn a_service_has_one_action_at_a_time() {
    let mut active = ActiveActions::new();
    assert!(!active.is_active("db-1"));
    assert!(active.try_begin("db-1"));
    assert!(active.is_active("db-1"));
    assert!(!active.try_begin("db-1"));
    assert!(active.try_begin("db-2"));
    active.finish("db-1");
    assert!(!active.is_active("db-1"));
    assert!(active.is_active("db-2"));
    assert!(active.try_begin("db-1"));
    active.finish("unknown");
    assert!(active.is_active("db-1"));
}
