use deploy_core::build_platform::build_flow::{
    BuildEvent, BuildMachine, BuildPhase, BuildRequest, DiskProbe, PathWork,
};
use deploy_core::build_platform::docker::{assignment_key, match_used_env_var_args};
use deploy_core::build_platform::local_docker::{
    buildpack_name, check_docker_space_usage_and_clean, docker_prune_command, docker_prune_images,
    normalized_dockerfile_path, split_env_vars, CacheProbe, DiskUsage, LocalDocker,
};
use deploy_core::build_platform::{
    Build, BuildOptions, CacheResult, CloneCredential, Credentials, EnvironmentVariable,
    GitRepository, Image, Kind, SshKey,
};
use deploy_core::cmd::{ExecError, ExecFailure};
use deploy_core::errors::Tag;
use deploy_core::events::{EnvironmentStep, Level, ProgressKind, ProgressLevel, Stage};
use deploy_core::models::{ExecutionContext, Listener};
use deploy_core::notice::Notice;

fn context() -> ExecutionContext {
    ExecutionContext {
        organization_id: "org".to_string(),
        cluster_id: "cluster".to_string(),
        execution_id: "exec-1".to_string(),
        workspace_root_dir: "/tmp/workspace".to_string(),
        lib_root_dir: "/lib".to_string(),
        test_cluster: true,
        docker_host: None,
        docker_build_options: None,
        resource_expiration_in_seconds: None,
    }
}

fn platform() -> LocalDocker {
    LocalDocker::new(context(), "bp-1", "local")
}

fn env(key: &str, value: &str) -> EnvironmentVariable {
    EnvironmentVariable { key: key.to_string(), value: value.to_string() }
}

fn build(dockerfile_path: Option<&str>, language: Option<&str>, vars: Vec<EnvironmentVariable>) -> Build {
    Build {
        git_repository: GitRepository {
            url: "https://git.example/app.git".to_string(),
            credentials: None,
            ssh_keys: Vec::new(),
            commit_id: "c0ffee".to_string(),
            dockerfile_path: dockerfile_path.map(|s| s.to_string()),
            root_path: "svc".to_string(),
            buildpack_language: language.map(|s| s.to_string()),
        },
        image: Image {
            application_id: "app-1".to_string(),
            name: "app".to_string(),
            tag: "c0ffee".to_string(),
            commit_id: "c0ffee".to_string(),
            registry_url: None,
        },
        options: BuildOptions { environment_variables: vars },
    }
}

fn failed(message: &str) -> BuildEvent {
    BuildEvent::Ran(Err(ExecError::new(ExecFailure::ExitStatusError, message.to_string())))
}

fn killed() -> BuildEvent {
    BuildEvent::Ran(Err(ExecError::new(ExecFailure::Killed, "stopped".to_string())))
}

fn args_of(request: BuildRequest) -> (String, Vec<String>, bool) {
    match request {
        BuildRequest::Run { command, abortable } => (command.binary, command.args, abortable),
        other => panic!("a command was due, not {:?}", other),
    }
}

/// Brings a machine to the point where the way to build is chosen.
fn clone_done(machine: &mut BuildMachine) {
    machine.absorb(BuildEvent::Cancellation(false));
    if machine.phase() == BuildPhase::LookingUpImage {
        machine.absorb(failed("no such image"));
    }
    machine.absorb(BuildEvent::Workspace(Ok("/tmp/workspace/exec-1/build/app".to_string())));
    machine.absorb(BuildEvent::WorkspaceReset);
    machine.absorb(BuildEvent::Cancellation(false));
    machine.absorb(BuildEvent::Cloned(Ok(())));
    assert_eq!(machine.phase(), BuildPhase::ProbingDisk);
}

#[test]
fn platform_is_made_with_the_usual_builder() {
    let mut p = platform();
    assert_eq!(p.id(), "bp-1");
    assert_eq!(p.name(), "local");
    assert_eq!(p.name_with_id(), "local (bp-1)");
    assert_eq!(p.kind(), Kind::LocalDocker);
    assert_eq!(p.builders, vec!["heroku/buildpacks:20"]);
    assert!(p.listeners().is_empty());
    p.add_listener(Listener { id: 1 });
    p.add_listener(Listener { id: 2 });
    assert_eq!(p.listeners(), &vec![Listener { id: 1 }, Listener { id: 2 }]);
    let details = p.get_event_details();
    assert_eq!(details.execution_id(), "exec-1");
    assert_eq!(details.stage(), Stage::Environment(EnvironmentStep::Build));
}

#[test]
fn docker_host_is_handed_to_docker() {
    assert!(platform().get_docker_host_envs().is_empty());
    let mut c = context();
    c.docker_host = Some("tcp://docker:2375".to_string());
    let p = LocalDocker::new(c, "bp-1", "local");
    assert_eq!(
        p.get_docker_host_envs(),
        vec![("DOCKER_HOST".to_string(), "tcp://docker:2375".to_string())]
    );
}

#[test]
fn dockerfile_path_is_normalized() {
    for path in ["", ".", "/", "/.", "./", "Dockerfile"] {
        assert_eq!(normalized_dockerfile_path(path), "Dockerfile");
    }
    assert_eq!(normalized_dockerfile_path("docker/Dockerfile.prod"), "docker/Dockerfile.prod");
    assert_eq!(normalized_dockerfile_path("./Dockerfile"), "./Dockerfile");
    assert_eq!(normalized_dockerfile_path("dockerfile"), "dockerfile");
}

#[test]
fn other_dockerfile_paths_are_used_verbatim() {
    assert_eq!(normalized_dockerfile_path(" a/Df "), " a/Df ");
    assert_eq!(normalized_dockerfile_path(" ./ "), " ./ ");
    assert_eq!(normalized_dockerfile_path(" Dockerfile"), " Dockerfile");
    assert_eq!(normalized_dockerfile_path("Dockerfile.dev\n"), "Dockerfile.dev\n");
    assert_eq!(normalized_dockerfile_path("//"), "//");
}

#[test]
fn cache_switch_is_kept_out_of_the_variables() {
    let vars = vec![
        env("A", "1"),
        env("QOVERY_DISABLE_BUILD_CACHE", "TRUE"),
        env("B", "x=y"),
    ];
    let (disable, args) = split_env_vars(&vars);
    assert!(disable);
    assert_eq!(args, vec!["A=1", "B=x=y"]);
    let (disable, args) = split_env_vars(&Vec::new());
    assert!(!disable);
    assert!(args.is_empty());
}

#[test]
fn cache_switch_is_never_forwarded_whatever_its_value() {
    for value in ["false", "", "yes", "0", "true "] {
        let vars = vec![env("QOVERY_DISABLE_BUILD_CACHE", value), env("A", "")];
        let (disable, args) = split_env_vars(&vars);
        assert!(!disable);
        assert_eq!(args, vec!["A="]);
    }
    let vars = vec![
        env("QOVERY_DISABLE_BUILD_CACHE", "false"),
        env("K", "v"),
        env("QOVERY_DISABLE_BUILD_CACHE", "tRuE"),
    ];
    let (disable, args) = split_env_vars(&vars);
    assert!(disable);
    assert_eq!(args, vec!["K=v"]);
    // A name that only begins like the switch is a variable like any other.
    let (_, args) = split_env_vars(&vec![env("QOVERY_DISABLE_BUILD_CACHE_2", "true")]);
    assert_eq!(args, vec!["QOVERY_DISABLE_BUILD_CACHE_2=true"]);
}

#[test]
fn only_variables_that_the_dockerfile_uses_are_forwarded() {
    let dockerfile = b"FROM node\nARG NODE_ENV\nARG API_URL=default\nRUN echo $NODE_ENV\n".to_vec();
    let given = vec![
        "NODE_ENV=production".to_string(),
        "SECRET_TOKEN=hunter2".to_string(),
        "API_URL=https://api".to_string(),
    ];
    let kept = match_used_env_var_args(given, dockerfile).unwrap();
    assert_eq!(kept, vec!["NODE_ENV=production", "API_URL=https://api"]);
    assert_eq!(assignment_key("API_URL=a=b"), "API_URL");
    assert_eq!(assignment_key("NOVALUE"), "NOVALUE");
}

#[test]
fn a_dockerfile_that_is_not_text_is_an_error() {
    let e = match_used_env_var_args(vec!["A=1".to_string()], vec![0xff, 0xfe]).unwrap_err();
    assert_eq!(e.message(), "Cannot read Dockerfile content.");
    assert_eq!(e.message_raw(), "Dockerfile content is not valid UTF-8");
}

#[test]
fn buildpack_is_read_from_the_language_hint() {
    assert_eq!(buildpack_name("heroku/python@3"), Some("heroku/python".to_string()));
    assert_eq!(buildpack_name("heroku/python"), Some("heroku/python".to_string()));
    assert_eq!(buildpack_name(""), Some("".to_string()));
    assert_eq!(buildpack_name("a@b@c"), None);
}

#[test]
fn docker_build_command_tags_the_image_twice() {
    let p = platform();
    let b = build(Some("Dockerfile"), None, Vec::new());
    let c = p.docker_build_command(
        &b.image,
        "/w/svc/Dockerfile",
        "/w/svc/.",
        &vec!["A=1".to_string(), "B=2".to_string()],
        true,
    );
    assert_eq!(c.binary, "docker");
    assert_eq!(
        c.args,
        vec![
            "build", "-f", "/w/svc/Dockerfile", "-t", "app:c0ffee", "-t", "app:latest",
            "--build-arg", "A=1", "--build-arg", "B=2", "/w/svc/."
        ]
    );
    assert_eq!(c.timeout_minutes, Some(30));
    let mut ctx = context();
    ctx.docker_build_options = Some("--network host".to_string());
    let p = LocalDocker::new(ctx, "bp-1", "local");
    let c = p.docker_build_command(&b.image, "D", "dir", &Vec::new(), false);
    assert_eq!(
        c.args,
        vec![
            "build", "--no-cache", "--network", "host", "-f", "D", "-t", "app:c0ffee", "-t",
            "app:latest", "dir"
        ]
    );
}

#[test]
fn pack_build_command_names_builder_and_buildpack() {
    let p = platform();
    let b = build(None, Some("heroku/python@3"), Vec::new());
    let c = p.pack_build_command(
        &b,
        "/w/svc/.",
        &vec!["A=1".to_string()],
        false,
        "heroku/buildpacks:20",
        &Some("heroku/python".to_string()),
        true,
    );
    assert_eq!(c.binary, "pack");
    assert_eq!(
        c.args,
        vec![
            "build", "app:c0ffee", "--tag", "app:latest", "--clear-cache", "--path", "/w/svc/.",
            "--env", "A=1", "-B", "heroku/buildpacks:20", "-b", "heroku/python",
            "--default-process", "worker"
        ]
    );
    let c = p.pack_build_command(&b, "dir", &Vec::new(), true, "builder", &None, false);
    assert_eq!(
        c.args,
        vec!["build", "app:c0ffee", "--tag", "app:latest", "--path", "dir", "-B", "builder"]
    );
}

#[test]
fn a_build_is_skipped_when_the_image_exists() {
    let b = build(Some("Dockerfile"), None, Vec::new());
    let mut m = platform().build(b, false);
    assert!(matches!(m.pending(), BuildRequest::PollCancellation));
    m.absorb(BuildEvent::Cancellation(false));
    match m.pending() {
        BuildRequest::LookUpImage { command } => {
            assert_eq!(command.binary, "docker");
            assert_eq!(command.args, vec!["image", "inspect", "app:c0ffee"]);
        }
        other => panic!("the look-up was due, not {:?}", other),
    }
    let told = m.absorb(BuildEvent::Ran(Ok(())));
    assert_eq!(told.len(), 1);
    assert!(matches!(
        &told[0],
        Notice::Log { level: Level::Info, message, .. }
            if message.raw == "Image `app:c0ffee` found on repository, container build is not required"
    ));
    assert!(m.is_finished());
    assert!(matches!(m.pending(), BuildRequest::Complete));
    let result = m.into_result().unwrap().unwrap();
    assert_eq!(result.build.image.name, "app");
}

#[test]
fn a_forced_build_does_not_look_the_image_up() {
    let mut m = BuildMachine::new(platform(), build(Some("Dockerfile"), None, Vec::new()), true);
    m.absorb(BuildEvent::Cancellation(false));
    assert_eq!(m.phase(), BuildPhase::AllocatingWorkspace);
    assert!(matches!(
        m.pending(),
        BuildRequest::AllocateWorkspace { root_dir, execution_id, suffix }
            if root_dir == "/tmp/workspace" && execution_id == "exec-1" && suffix == "build/app"
    ));
}

#[test]
fn a_cancelled_task_is_not_built() {
    let mut m = BuildMachine::new(platform(), build(None, None, Vec::new()), false);
    m.absorb(BuildEvent::Cancellation(true));
    let e = m.into_result().unwrap().unwrap_err();
    assert_eq!(*e.tag(), Tag::TaskCancellationRequested);

    let mut m = BuildMachine::new(platform(), build(None, None, Vec::new()), true);
    m.absorb(BuildEvent::Cancellation(false));
    m.absorb(BuildEvent::Workspace(Ok("/w".to_string())));
    assert!(matches!(
        m.pending(),
        BuildRequest::OnPath { work: PathWork::ResetDirectory, path } if path == "/w"
    ));
    m.absorb(BuildEvent::WorkspaceReset);
    m.absorb(BuildEvent::Cancellation(true));
    assert!(m.is_finished());
    assert_eq!(*m.into_result().unwrap().unwrap_err().tag(), Tag::TaskCancellationRequested);
}

#[test]
fn a_workspace_or_a_clone_that_fails_ends_the_build() {
    let mut m = BuildMachine::new(platform(), build(None, None, Vec::new()), true);
    m.absorb(BuildEvent::Cancellation(false));
    m.absorb(BuildEvent::Workspace(Err("disk full".to_string())));
    let e = m.into_result().unwrap().unwrap_err();
    assert_eq!(*e.tag(), Tag::CannotGetWorkspaceDirectory);
    assert_eq!(e.message(), "disk full");

    let mut m = BuildMachine::new(platform(), build(None, None, Vec::new()), true);
    m.absorb(BuildEvent::Cancellation(false));
    m.absorb(BuildEvent::Workspace(Ok("/w".to_string())));
    m.absorb(BuildEvent::WorkspaceReset);
    m.absorb(BuildEvent::Cancellation(false));
    assert!(matches!(
        m.pending(),
        BuildRequest::CloneRepository { url, commit_id, into_dir }
            if url == "https://git.example/app.git" && commit_id == "c0ffee" && into_dir == "/w"
    ));
    let told = m.absorb(BuildEvent::Cloned(Err("authentication failed".to_string())));
    assert!(matches!(&told[0], Notice::Failure(e) if *e.tag() == Tag::BuilderCloningRepositoryError));
    let e = m.into_result().unwrap().unwrap_err();
    assert_eq!(e.user_log_message(), "Error while cloning repository `https://git.example/app.git`.");
    assert_eq!(e.message(), "authentication failed");
}

#[test]
fn a_dockerfile_build_forwards_the_used_variables() {
    let vars = vec![
        env("NODE_ENV", "production"),
        env("UNUSED", "1"),
        env("QOVERY_DISABLE_BUILD_CACHE", "true"),
    ];
    let mut m = BuildMachine::new(platform(), build(Some("."), None, vars), false);
    clone_done(&mut m);
    m.absorb(BuildEvent::Disk(DiskProbe::ContinuousIntegration));
    assert!(matches!(
        m.pending(),
        BuildRequest::OnPath { work: PathWork::Locate, path }
            if path == "/tmp/workspace/exec-1/build/app/svc/Dockerfile"
    ));
    m.absorb(BuildEvent::Located(true));
    assert!(matches!(m.pending(), BuildRequest::OnPath { work: PathWork::ReadBytes, .. }));
    m.absorb(BuildEvent::FileBytes(Ok(b"FROM node\nARG NODE_ENV\n".to_vec())));
    let (binary, args, abortable) = args_of(m.pending());
    assert_eq!(binary, "docker");
    assert!(abortable);
    assert_eq!(
        args,
        vec![
            "build",
            "--no-cache",
            "-f",
            "/tmp/workspace/exec-1/build/app/svc/Dockerfile",
            "-t",
            "app:c0ffee",
            "-t",
            "app:latest",
            "--build-arg",
            "NODE_ENV=production",
            "/tmp/workspace/exec-1/build/app/svc/."
        ]
    );
    let told = m.absorb(BuildEvent::Ran(Ok(())));
    assert!(matches!(
        &told[0],
        Notice::Progress { kind: ProgressKind::DeploymentInProgress, info }
            if info.message == Some("✅ Container local (bp-1) is built".to_string())
                && info.level == ProgressLevel::Info
    ));
    assert!(m.into_result().unwrap().is_ok());
}

#[test]
fn a_missing_dockerfile_ends_the_build_before_any_command() {
    let mut m = BuildMachine::new(platform(), build(Some("Dockerfile.prod"), None, Vec::new()), true);
    clone_done(&mut m);
    m.absorb(BuildEvent::Disk(DiskProbe::NotMounted));
    let told = m.absorb(BuildEvent::Located(false));
    assert_eq!(told.len(), 2);
    assert!(matches!(
        &told[0],
        Notice::Progress { kind: ProgressKind::Error, info }
            if info.message == Some("Dockerfile is not present at location svc/Dockerfile.prod".to_string())
    ));
    let e = m.into_result().unwrap().unwrap_err();
    assert_eq!(*e.tag(), Tag::DockerCannotFindDockerfile);
    assert_eq!(
        e.user_log_message(),
        "Error while trying to build Docker image, Dockerfile not found at location `/tmp/workspace/exec-1/build/app/svc/Dockerfile.prod`"
    );
}

#[test]
fn a_docker_build_that_fails_or_is_stopped() {
    let mut m = BuildMachine::new(platform(), build(Some("Dockerfile"), None, Vec::new()), true);
    clone_done(&mut m);
    m.absorb(BuildEvent::Disk(DiskProbe::NotMounted));
    m.absorb(BuildEvent::Located(true));
    m.absorb(BuildEvent::FileBytes(Ok(Vec::new())));
    let told = m.absorb(failed("exit 1"));
    assert!(matches!(
        &told[0],
        Notice::Progress { info, .. }
            if info.message == Some("❌ Container local (bp-1) failed to be build: ExitStatusError(exit 1)".to_string())
    ));
    let e = m.into_result().unwrap().unwrap_err();
    assert_eq!(*e.tag(), Tag::DockerCannotBuildContainerImage);

    let mut m = BuildMachine::new(platform(), build(Some("Dockerfile"), None, Vec::new()), true);
    clone_done(&mut m);
    m.absorb(BuildEvent::Disk(DiskProbe::NotMounted));
    m.absorb(BuildEvent::Located(true));
    m.absorb(BuildEvent::FileBytes(Ok(Vec::new())));
    let told = m.absorb(killed());
    assert!(matches!(
        &told[0],
        Notice::Progress { info, .. }
            if info.message == Some("🚫 Container local (bp-1) build has been canceled".to_string())
    ));
    assert_eq!(*m.into_result().unwrap().unwrap_err().tag(), Tag::TaskCancellationRequested);
}

#[test]
fn buildpacks_build_of_a_worker() {
    let b = build(None, Some("heroku/python@3"), Vec::new());
    let mut m = platform().build(b, false);
    clone_done(&mut m);
    m.absorb(BuildEvent::Disk(DiskProbe::ContinuousIntegration));
    assert!(matches!(
        m.pending(),
        BuildRequest::OnPath { work: PathWork::ReadText, path }
            if path == "/tmp/workspace/exec-1/build/app/svc/./Procfile"
    ));
    m.absorb(BuildEvent::Procfile(Some("worker: python run.py\n".to_string())));
    let (binary, args, abortable) = args_of(m.pending());
    assert_eq!(binary, "pack");
    assert!(abortable);
    assert_eq!(
        args,
        vec![
            "build",
            "app:c0ffee",
            "--tag",
            "app:latest",
            "--path",
            "/tmp/workspace/exec-1/build/app/svc/.",
            "-B",
            "heroku/buildpacks:20",
            "-b",
            "heroku/python",
            "--default-process",
            "worker"
        ]
    );
    m.absorb(BuildEvent::Ran(Ok(())));
    let built = m.into_result().unwrap().unwrap();
    assert_eq!(built.build.image.name_with_tag(), "app:c0ffee");
    assert_eq!(built.build.image.name_with_latest_tag(), "app:latest");
}

#[test]
fn an_invalid_language_hint_ends_the_build_without_an_attempt() {
    let mut m = BuildMachine::new(platform(), build(None, Some("a@b@c"), Vec::new()), true);
    clone_done(&mut m);
    let told = m.absorb(BuildEvent::Disk(DiskProbe::NotMounted));
    assert!(matches!(
        &told[0],
        Notice::Progress { kind: ProgressKind::DeploymentError, info }
            if info.message == Some("Cannot build: Invalid buildpacks language format: expected `builder[@version]` got a@b@c".to_string())
    ));
    assert!(m.is_finished());
    assert_eq!(*m.into_result().unwrap().unwrap_err().tag(), Tag::BuildpackInvalidLanguageFormat);
}

#[test]
fn builders_are_tried_until_one_succeeds() {
    let builders: Vec<String> = vec!["b1".to_string(), "b2".to_string(), "b3".to_string(), "b4".to_string()];
    let p = platform().with_builders(builders.clone());
    let mut m = BuildMachine::new(p, build(None, None, Vec::new()), true);
    clone_done(&mut m);
    m.absorb(BuildEvent::Disk(DiskProbe::NotMounted));
    m.absorb(BuildEvent::Procfile(None));
    let mut tried = Vec::new();
    // The first two builders fail, the third succeeds.
    for attempt in 0..3 {
        let (_, args, _) = args_of(m.pending());
        let at = args.iter().position(|a| a == "-B").unwrap();
        tried.push(args[at + 1].clone());
        if attempt < 2 {
            let told = m.absorb(failed("builder failed"));
            assert!(told.is_empty());
        } else {
            m.absorb(BuildEvent::Ran(Ok(())));
        }
    }
    assert_eq!(tried, vec!["b1", "b2", "b3"]);
    assert!(matches!(m.pending(), BuildRequest::Complete));
    assert!(m.into_result().unwrap().is_ok());
}

#[test]
fn when_every_builder_fails_the_error_names_them_all() {
    let p = platform().with_builders(vec!["b1".to_string(), "b2".to_string()]);
    let mut m = BuildMachine::new(p, build(None, None, Vec::new()), true);
    clone_done(&mut m);
    m.absorb(BuildEvent::Disk(DiskProbe::NotMounted));
    m.absorb(BuildEvent::Procfile(None));
    m.absorb(failed("first"));
    assert_eq!(m.phase(), BuildPhase::BuildingWithBuildpacks(1));
    m.absorb(failed("second"));
    let e = m.into_result().unwrap().unwrap_err();
    assert_eq!(*e.tag(), Tag::BuildpackCannotBuildContainerImage);
    assert_eq!(
        e.user_log_message(),
        "Error while trying to build container image `local (bp-1)` with one of the following builders: b1, b2."
    );
    assert_eq!(e.message(), "ExitStatusError(second)");
}

#[test]
fn a_stopped_builder_ends_the_build_as_cancelled() {
    let p = platform().with_builders(vec!["b1".to_string(), "b2".to_string()]);
    let mut m = BuildMachine::new(p, build(None, None, Vec::new()), true);
    clone_done(&mut m);
    m.absorb(BuildEvent::Disk(DiskProbe::NotMounted));
    m.absorb(BuildEvent::Procfile(None));
    m.absorb(killed());
    assert!(m.is_finished());
    assert_eq!(*m.into_result().unwrap().unwrap_err().tag(), Tag::TaskCancellationRequested);
}

#[test]
fn a_full_disk_is_cleaned_before_the_build() {
    let mut m = BuildMachine::new(platform(), build(None, None, Vec::new()), true);
    clone_done(&mut m);
    let told = m.absorb(BuildEvent::Disk(DiskProbe::Mounted(DiskUsage {
        available_space: 10,
        total_space: 100,
    })));
    assert!(matches!(
        &told[0],
        Notice::Log { level: Level::Warning, message, .. }
            if message.raw == "Docker disk remaining (10%) is lower than 60%, requesting cleaning (purge)"
    ));
    let mut names = Vec::new();
    for i in 0..4 {
        assert_eq!(m.phase(), BuildPhase::Pruning);
        let (binary, args, abortable) = args_of(m.pending());
        assert_eq!(binary, "docker");
        assert!(!abortable);
        names.push(args[0].clone());
        // The second command fails; the others go on all the same.
        let told = if i == 1 { m.absorb(failed("busy")) } else { m.absorb(BuildEvent::Ran(Ok(()))) };
        if i == 3 {
            assert!(matches!(
                &told[0],
                Notice::Log { level: Level::Warning, message, .. }
                    if message.raw == "image ExitStatusError(busy)"
                        && message.safe == Some("Error while trying to prune images.".to_string())
            ));
        } else {
            assert!(told.is_empty());
        }
    }
    assert_eq!(names, vec!["container", "image", "builder", "volume"]);
    assert_eq!(m.phase(), BuildPhase::ReadingProcfile);
}

#[test]
fn disk_usage_decides_on_the_clean_up() {
    let details = platform().get_event_details();
    let (purge, notice) = check_docker_space_usage_and_clean(
        &DiskUsage { available_space: 70, total_space: 100 },
        details.clone(),
    );
    assert!(!purge);
    assert!(matches!(
        notice,
        Notice::Log { level: Level::Info, message, .. }
            if message.raw == "No need to purge old docker images, only 30% (70/100) disk used"
    ));
    assert!(DiskUsage { available_space: 59, total_space: 100 }.needs_purge());
    assert!(!DiskUsage { available_space: 60, total_space: 100 }.needs_purge());
    assert!(DiskUsage { available_space: 0, total_space: 0 }.needs_purge());
    assert!(DiskUsage { available_space: 0, total_space: 100 }.needs_purge());
    assert_eq!(DiskUsage { available_space: u64::MAX, total_space: u64::MAX }.percent_remaining(), 100);
    assert_eq!(DiskUsage { available_space: 1, total_space: 3 }.percent_remaining(), 33);
}

#[test]
fn prune_commands_and_their_summary() {
    assert_eq!(docker_prune_command(0, Vec::new()).args, vec!["container", "prune", "-f"]);
    assert_eq!(docker_prune_command(1, Vec::new()).args, vec!["image", "prune", "-a", "-f"]);
    assert_eq!(docker_prune_command(2, Vec::new()).args, vec!["builder", "prune", "-a", "-f"]);
    assert_eq!(docker_prune_command(3, Vec::new()).args, vec!["volume", "prune", "-f"]);
    assert!(docker_prune_images(&vec![Ok(()), Ok(()), Ok(()), Ok(())]).is_ok());
    let e = docker_prune_images(&vec![
        Err(ExecError::new(ExecFailure::ExitStatusError, "1".to_string())),
        Ok(()),
        Ok(()),
        Err(ExecError::new(ExecFailure::Killed, "late".to_string())),
    ])
    .unwrap_err();
    assert_eq!(e.message_raw(), "container ExitStatusError(1)/ volume Killed(late)");
    assert_eq!(e.message(), "Error while trying to prune images.");
}

#[test]
fn events_that_answer_nothing_are_ignored() {
    let mut m = BuildMachine::new(platform(), build(None, None, Vec::new()), false);
    assert!(m.absorb(BuildEvent::Located(true)).is_empty());
    assert!(m.absorb(BuildEvent::Ran(Ok(()))).is_empty());
    assert_eq!(m.phase(), BuildPhase::CheckingCancellation);
    assert!(m.into_result().is_none());
}

#[test]
fn platform_needs_docker_and_pack() {
    let p = platform();
    assert!(p.is_valid(true, true).is_ok());
    let e = p.is_valid(false, true).unwrap_err();
    assert_eq!(*e.tag(), Tag::MissingRequiredBinary);
    assert_eq!(e.user_log_message(), "`docker` binary is required but was not found.");
    let e = p.is_valid(true, false).unwrap_err();
    assert_eq!(e.user_log_message(), "`pack` binary is required but was not found.");
}

#[test]
fn cache_is_hit_when_the_layers_of_the_parent_are_there() {
    let p = platform();
    assert!(matches!(
        p.has_cache(build(None, None, Vec::new()), CacheProbe::NoParent),
        Ok(CacheResult::MissWithoutParentBuild)
    ));
    assert!(matches!(
        p.has_cache(
            build(None, None, Vec::new()),
            CacheProbe::Parent { commit_id: "parent".to_string(), layers_found: true }
        ),
        Ok(CacheResult::Hit)
    ));
    match p.has_cache(
        build(None, None, Vec::new()),
        CacheProbe::Parent { commit_id: "parent".to_string(), layers_found: false },
    ) {
        Ok(CacheResult::Miss(parent)) => {
            assert_eq!(parent.image.tag, "parent");
            assert_eq!(parent.image.commit_id, "parent");
            assert_eq!(parent.git_repository.commit_id, "parent");
            assert_eq!(parent.image.name, "app");
        }
        other => panic!("a miss with the parent build was due, not {:?}", other),
    }
    let e = p
        .has_cache(build(None, None, Vec::new()), CacheProbe::NoHistory("bad repo".to_string()))
        .unwrap_err();
    assert_eq!(*e.tag(), Tag::BuilderGetBuildError);
    let e = p
        .has_cache(build(None, None, Vec::new()), CacheProbe::NoWorkspace("no disk".to_string()))
        .unwrap_err();
    assert_eq!(*e.tag(), Tag::CannotGetWorkspaceDirectory);
    let c = LocalDocker::cache_lookup_command(&build(None, None, Vec::new()));
    assert_eq!(c.args, vec!["images", "-q", "app"]);
    assert_eq!(c.timeout_minutes, Some(1));
}

#[test]
fn image_exists_when_the_inspection_succeeds() {
    let p = platform();
    assert_eq!(p.image_does_exist(&Ok(())).unwrap(), true);
    let failed = Err(ExecError::new(ExecFailure::ExitStatusError, "1".to_string()));
    assert_eq!(p.image_does_exist(&failed).unwrap(), false);
}

#[test]
fn output_lines_are_logged_and_told() {
    let p = platform();
    let b = build(None, None, Vec::new());
    let told = p.output_notices(&b, "Step 1/4", false);
    assert!(matches!(&told[0], Notice::Log { level: Level::Info, message, .. } if message.raw == "Step 1/4"));
    assert!(matches!(&told[1], Notice::Progress { info, .. } if info.level == ProgressLevel::Info));
    let told = p.output_notices(&b, "deprecated", true);
    assert!(matches!(&told[0], Notice::Log { level: Level::Warning, .. }));
    assert!(matches!(&told[1], Notice::Progress { info, .. } if info.level == ProgressLevel::Warn));
}

#[test]
fn build_error_is_not_implemented() {
    let (told, result) = platform().build_error(build(None, None, Vec::new()));
    assert_eq!(told.len(), 3);
    assert_eq!(*result.unwrap_err().tag(), Tag::NotImplementedError);
}

#[test]
fn ssh_keys_are_tried_before_the_password() {
    let mut b = build(None, None, Vec::new());
    assert!(b.git_repository.credential_order().is_empty());
    b.git_repository.credentials =
        Some(Credentials { login: "me".to_string(), password: "hunter2".to_string() });
    assert_eq!(b.git_repository.credential_order(), vec![CloneCredential::LoginPassword]);
    for name in ["first", "second"] {
        b.git_repository.ssh_keys.push(SshKey {
            private_key: name.to_string(),
            passphrase: None,
            public_key: None,
        });
    }
    assert_eq!(
        b.git_repository.credential_order(),
        vec![
            CloneCredential::SshKey(0),
            CloneCredential::SshKey(1),
            CloneCredential::LoginPassword
        ]
    );
}

#[test]
fn a_named_dockerfile_is_located_as_it_is_named() {
    for (named, located) in [
        ("docker/Dockerfile.prod", "/tmp/workspace/exec-1/build/app/svc/docker/Dockerfile.prod"),
        (" a/Df ", "/tmp/workspace/exec-1/build/app/svc/ a/Df "),
        ("./", "/tmp/workspace/exec-1/build/app/svc/Dockerfile"),
    ] {
        let mut m = BuildMachine::new(platform(), build(Some(named), None, Vec::new()), true);
        clone_done(&mut m);
        m.absorb(BuildEvent::Disk(DiskProbe::NotMounted));
        assert!(matches!(
            m.pending(),
            BuildRequest::OnPath { work: PathWork::Locate, path } if path == located
        ));
        m.absorb(BuildEvent::Located(true));
        assert!(matches!(
            m.pending(),
            BuildRequest::OnPath { work: PathWork::ReadBytes, path } if path == located
        ));
    }
}

#[test]
fn a_buildpack_build_hands_on_every_variable_but_the_switch() {
    let vars = vec![
        env("K1", "v1"),
        env("QOVERY_DISABLE_BUILD_CACHE", "false"),
        env("K2", "v2"),
    ];
    let mut m = BuildMachine::new(platform(), build(None, None, vars), true);
    clone_done(&mut m);
    m.absorb(BuildEvent::Disk(DiskProbe::NotMounted));
    m.absorb(BuildEvent::Procfile(None));
    let (_, args, _) = args_of(m.pending());
    assert_eq!(
        args,
        vec![
            "build",
            "app:c0ffee",
            "--tag",
            "app:latest",
            "--path",
            "/tmp/workspace/exec-1/build/app/svc/.",
            "--env",
            "K1=v1",
            "--env",
            "K2=v2",
            "-B",
            "heroku/buildpacks:20"
        ]
    );
}
