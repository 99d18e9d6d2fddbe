use deploy_core::build_platform::{Build, BuildOptions, EnvironmentVariable, GitRepository, Image};
use deploy_core::cloud_provider::digital_ocean::{
    full_image_name_with_tag, Application, CpuLimits, DoStorageType, Port, Protocol, Storage,
};
use deploy_core::cloud_provider::service::{
    Action, DeploymentTarget, Environment, Kubernetes, ServiceSummary,
};
use deploy_core::errors::{CommandError, Tag};
use deploy_core::models::ExecutionContext;

fn context() -> ExecutionContext {
    ExecutionContext {
        organization_id: "org".to_string(),
        cluster_id: "cluster".to_string(),
        execution_id: "exec-1".to_string(),
        workspace_root_dir: "/tmp/workspace".to_string(),
        lib_root_dir: "/lib".to_string(),
        test_cluster: false,
        docker_host: None,
        docker_build_options: None,
        resource_expiration_in_seconds: None,
    }
}

fn image(registry_url: Option<&str>) -> Image {
    Image {
        application_id: "app-1".to_string(),
        name: "app".to_string(),
        tag: "c0ffee1234".to_string(),
        commit_id: "c0ffee1234abcdef".to_string(),
        registry_url: registry_url.map(|s| s.to_string()),
    }
}

fn application() -> Application {
    Application {
        context: context(),
        id: "app-1".to_string(),
        action: Action::Create,
        name: "web".to_string(),
        ports: vec![Port {
            id: "port-1".to_string(),
            long_id: "0000-1111".to_string(),
            port: 8080,
            public_port: Some(443),
            name: None,
            publicly_accessible: true,
            protocol: Protocol::HTTP,
        }],
        total_cpus: "500m".to_string(),
        cpu_burst: "250m".to_string(),
        total_ram_in_mib: 256,
        min_instances: 1,
        max_instances: 3,
        start_timeout_in_seconds: 60,
        build: Build {
            git_repository: GitRepository {
                url: "https://git.example/app.git".to_string(),
                credentials: None,
                ssh_keys: Vec::new(),
                commit_id: "c0ffee1234abcdef".to_string(),
                dockerfile_path: None,
                root_path: "/".to_string(),
                buildpack_language: None,
            },
            image: image(Some("registry.digitalocean.com/qovery")),
            options: BuildOptions { environment_variables: Vec::new() },
        },
        storage: vec![Storage {
            id: "s1".to_string(),
            name: "data".to_string(),
            storage_type: DoStorageType::Standard,
            size_in_gib: 10,
            mount_point: "/data".to_string(),
            snapshot_retention_in_days: 7,
        }],
        environment_variables: vec![
            EnvironmentVariable { key: "A".to_string(), value: "1".to_string() },
            EnvironmentVariable { key: "B".to_string(), value: "2".to_string() },
        ],
        listeners: Vec::new(),
    }
}

fn summary() -> ServiceSummary {
    ServiceSummary {
        id: "app-1".to_string(),
        name: "web".to_string(),
        sanitized_name: "app-web".to_string(),
        total_cpus: "500m".to_string(),
        total_ram_in_mib: 256,
        min_instances: 1,
        max_instances: 3,
        private_port: None,
        version: "c0ffee1234abcdef".to_string(),
    }
}

fn target() -> DeploymentTarget {
    DeploymentTarget {
        kubernetes: Kubernetes {
            id: "k8s-1".to_string(),
            name: "my cluster".to_string(),
            region: "nyc3".to_string(),
            zone: "".to_string(),
            provider_variables: Vec::new(),
        },
        environment: Environment {
            id: "env-1".to_string(),
            project_id: "proj-1".to_string(),
            owner_id: "owner-1".to_string(),
            organization_id: "org".to_string(),
            namespace: "proj-1-env-1".to_string(),
        },
    }
}

#[test]
fn full_image_name_has_the_registry_where_it_is_known() {
    assert_eq!(full_image_name_with_tag(&image(None)), "app:c0ffee1234");
    assert_eq!(full_image_name_with_tag(&image(Some("r.example/qovery"))), "r.example/qovery/app:c0ffee1234");
    assert_eq!(Protocol::TCP.name(), "TCP");
    assert_eq!(Protocol::UDP.name(), "UDP");
}

#[test]
fn application_context_holds_the_values_of_its_templates() {
    let limits = CpuLimits { cpu_request: "500m".to_string(), cpu_limit: "500m".to_string() };
    let json = application().to_tera_context(&summary(), &target(), Ok(limits)).unwrap().into_json();
    assert_eq!(json["helm_app_version"], "c0ffee1");
    assert_eq!(json["image_name_with_tag"], "registry.digitalocean.com/qovery/app:c0ffee1234");
    assert_eq!(json["cpu_burst"], "500m");
    let vars = json["environment_variables"].as_array().unwrap();
    assert_eq!(vars.len(), 2);
    assert_eq!(vars[0]["key"], "A");
    assert_eq!(vars[0]["value"], "1");
    assert_eq!(vars[1]["key"], "B");
    let ports = json["ports"].as_array().unwrap();
    assert_eq!(ports.len(), 1);
    assert_eq!(ports[0]["id"], "port-1");
    assert_eq!(ports[0]["long_id"], "0000-1111");
    assert_eq!(ports[0]["port"], 8080);
    assert_eq!(ports[0]["public_port"], 443);
    assert!(ports[0]["name"].is_null());
    assert_eq!(ports[0]["publicly_accessible"], true);
    assert_eq!(ports[0]["protocol"], "HTTP");
    assert_eq!(json["is_registry_secret"], true);
    assert_eq!(json["registry_secret"], "do-container-registry-secret-for-cluster");
    let storage = json["storage"].as_array().unwrap();
    assert_eq!(storage[0]["id"], "s1");
    assert_eq!(storage[0]["name"], "data");
    assert_eq!(storage[0]["storage_type"], "do-block-storage");
    assert_eq!(storage[0]["size_in_gib"], 10);
    assert_eq!(storage[0]["mount_point"], "/data");
    assert_eq!(storage[0]["snapshot_retention_in_days"], 7);
    assert_eq!(json["is_storage"], true);
    assert_eq!(json["clone"], false);
    assert_eq!(json["start_timeout_in_seconds"], 60);
    assert!(json.get("resource_expiration_in_seconds").is_none());
    assert_eq!(json["is_private_port"], false);
    assert!(json.get("private_port").is_none());
    assert_eq!(json["name"], "web");
}

#[test]
fn application_context_without_volumes_and_with_expiration() {
    let mut app = application();
    app.storage = Vec::new();
    app.context.resource_expiration_in_seconds = Some(600);
    let limits = CpuLimits { cpu_request: "500m".to_string(), cpu_limit: "1".to_string() };
    let json = app.to_tera_context(&summary(), &target(), Ok(limits)).unwrap().into_json();
    assert_eq!(json["is_storage"], false);
    assert_eq!(json["storage"].as_array().unwrap().len(), 0);
    assert_eq!(json["resource_expiration_in_seconds"], 600);
    assert_eq!(json["cpu_burst"], "1");
}

#[test]
fn cpu_limits_that_do_not_fit_are_an_error() {
    let cause = CommandError::new_from_safe_message("burst below request".to_string());
    let e = application().to_tera_context(&summary(), &target(), Err(cause)).unwrap_err();
    assert_eq!(*e.tag(), Tag::K8sValidateRequiredCPUandBurstableError);
    assert_eq!(
        e.user_log_message(),
        "Error while trying to validate required CPU (500m) and burstable (250m)."
    );
    assert_eq!(e.message(), "burst below request");
}
