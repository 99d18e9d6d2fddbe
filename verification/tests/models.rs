use deploy_core::build_platform::Image;
use deploy_core::events::{
    EventMessage, Level, ProgressInfo, ProgressKind, ProgressLevel, ProgressScope,
};
use deploy_core::models::ExecutionContext;
use deploy_core::notice::Notice;

fn context(options: Option<&str>) -> ExecutionContext {
    ExecutionContext {
        organization_id: "org".to_string(),
        cluster_id: "cluster".to_string(),
        execution_id: "exec-1".to_string(),
        workspace_root_dir: "/tmp/workspace".to_string(),
        lib_root_dir: "/lib".to_string(),
        test_cluster: true,
        docker_host: Some("tcp://docker:2375".to_string()),
        docker_build_options: options.map(|s| s.to_string()),
        resource_expiration_in_seconds: Some(3600),
    }
}

#[test]
fn context_gives_its_settings() {
    let c = context(None);
    assert_eq!(c.execution_id(), "exec-1");
    assert_eq!(c.workspace_root_dir(), "/tmp/workspace");
    assert_eq!(c.lib_root_dir(), "/lib");
    assert!(c.is_test_cluster());
    assert_eq!(c.docker_tcp_socket(), &Some("tcp://docker:2375".to_string()));
    assert_eq!(c.resource_expiration_in_seconds(), Some(3600));
    assert_eq!(c.docker_build_options(), None);
    let copy = c.clone();
    assert_eq!(copy.execution_id(), "exec-1");
    assert_eq!(copy.docker_host, c.docker_host);
}

#[test]
fn build_options_are_split_at_single_spaces() {
    assert_eq!(
        context(Some("--network host")).docker_build_options(),
        Some(vec!["--network".to_string(), "host".to_string()])
    );
    assert_eq!(
        context(Some("a  b")).docker_build_options(),
        Some(vec!["a".to_string(), "".to_string(), "b".to_string()])
    );
    assert_eq!(context(Some("")).docker_build_options(), Some(vec!["".to_string()]));
}

#[test]
fn image_names_with_tags() {
    let image = Image {
        application_id: "app-1".to_string(),
        name: "app".to_string(),
        tag: "1.0".to_string(),
        commit_id: "c0ffee".to_string(),
        registry_url: None,
    };
    assert_eq!(image.name_with_tag(), "app:1.0");
    assert_eq!(image.name_with_latest_tag(), "app:latest");
    let placed = image.located_at("registry/app:1.0".to_string());
    assert_eq!(placed.registry_url, Some("registry/app:1.0".to_string()));
    assert_eq!(placed.name, "app");
    assert_eq!(placed.tag, "1.0");
    assert_eq!(image.registry_url, None);
    let copy = placed.clone();
    assert_eq!(copy.registry_url, placed.registry_url);
}

#[test]
fn messages_show_their_safe_rendering() {
    let m = EventMessage::new("raw".to_string(), Some("safe".to_string()));
    assert_eq!(m.shown(), "safe");
    let m = EventMessage::new("raw".to_string(), None);
    assert_eq!(m.shown(), "raw");
    let m = EventMessage::new_from_safe("both".to_string());
    assert_eq!(m.raw, "both");
    assert_eq!(m.safe, Some("both".to_string()));
}

#[test]
fn progress_is_scoped_and_leveled() {
    let info = ProgressInfo::new(
        ProgressScope::Database { id: "db-1".to_string() },
        ProgressLevel::Warn,
        None,
        "exec-1",
    );
    assert!(matches!(info.scope, ProgressScope::Database { id } if id == "db-1"));
    assert_eq!(info.level, ProgressLevel::Warn);
    assert_eq!(info.message, None);
    assert_eq!(info.execution_id, "exec-1");
    let info = ProgressInfo::for_application("app-1", ProgressLevel::Info, "hello".to_string(), "exec-1");
    assert!(matches!(info.scope, ProgressScope::Application { id } if id == "app-1"));
    assert_eq!(info.message, Some("hello".to_string()));
    let notice = Notice::progress(
        ProgressKind::DeploymentError,
        "app-1",
        ProgressLevel::Error,
        "bad".to_string(),
        "exec-1",
    );
    assert!(matches!(
        notice,
        Notice::Progress { kind: ProgressKind::DeploymentError, info } if info.level == ProgressLevel::Error
    ));
    assert!(matches!(Level::Debug, Level::Debug));
}
