//! Building images with a local Docker daemon: from a Dockerfile, or with
//! buildpacks where the repository has none.
//!
//! This file holds what the platform is and the commands it plans; the course
//! of a whole build is in `build_flow`.

use crate::build_platform::docker::key_of;
use crate::build_platform::{Build, BuildResult, CacheResult, EnvironmentVariable, Image, Kind};
use crate::cmd::{CommandLine, CommandLineView, ExecError, ExecFailure};
use crate::errors::{
    raw_cause, result_is, CommandError, CommandErrorView, EngineError, EngineErrorView, Tag,
};
use crate::events::{
    EnvironmentStep, EventDetails, Level, ProgressKind, ProgressLevel, Stage, Transmitter,
};
use crate::models::{ExecutionContext, Listener, Listeners};
use crate::notice::{
    application_progress, lemma_notices_empty, lemma_notices_push, notices, safe_log, Notice,
    NoticeView,
};
use crate::text::{
    concat2, concat3, contains, decimal, decimal_text, flagged, is_true_word, join, joined,
    lemma_texts_push, occurs_in, pairs, push_flagged, push_text, push_texts, spells_true, split,
    split_on, texts,
};
use vstd::prelude::*;
use vstd::string::*;

verus! {

/// The time that one build command or one clean-up command may take, in
/// minutes.
pub const BUILD_DURATION_TIMEOUT_MIN: u64 = 30;

/// The share of the disk, in percent, below which the free space of the
/// Docker directory asks for a clean-up.
pub const MIN_FREE_DISK_PERCENT: u64 = 60;

/// The name of the variable that switches the build cache off.
pub open spec fn cache_switch_key() -> Seq<char> {
    "QOVERY_DISABLE_BUILD_CACHE"@
}

/// The builder that buildpack builds use unless others are configured.
pub open spec fn default_builders() -> Seq<Seq<char>> {
    seq!["heroku/buildpacks:20"@]
}

/// A build platform that drives the local Docker daemon.
#[derive(Debug)]
pub struct LocalDocker {
    pub context: ExecutionContext,
    pub id: String,
    pub name: String,
    pub listeners: Listeners,
    /// The buildpack builders, in the order in which they are tried.
    pub builders: Vec<String>,
}

/// The pair of a variable and its value that points Docker to another daemon.
pub open spec fn docker_host_envs(context: &ExecutionContext) -> Seq<(Seq<char>, Seq<char>)> {
    match context.docker_host {
        Some(socket) => seq![("DOCKER_HOST"@, socket@)],
        None => Seq::empty(),
    }
}

/// The environment that points Docker at the daemon of `context`.
pub fn docker_envs(context: &ExecutionContext) -> (r: Vec<(String, String)>)
    ensures
        pairs(r@) == docker_host_envs(context),
{
    let mut out: Vec<(String, String)> = Vec::new();
    match &context.docker_host {
        Some(socket) => {
            out.push((String::from_str("DOCKER_HOST"), socket.clone()));
            assert(pairs(out@) =~= docker_host_envs(context));
        },
        None => {
            assert(pairs(out@) =~= docker_host_envs(context));
        },
    }
    out
}

/// Whether `t` names the Dockerfile at its usual place.
pub open spec fn is_default_dockerfile(t: Seq<char>) -> bool {
    t == ""@ || t == "."@ || t == "/"@ || t == "/."@ || t == "./"@ || t == "Dockerfile"@
}

/// The path of a Dockerfile as it is used: `Dockerfile` for the empty path and
/// for the spellings of the usual place, and every other path as it is given.
pub open spec fn spec_normalized_dockerfile_path(path: Seq<char>) -> Seq<char> {
    if is_default_dockerfile(path) {
        "Dockerfile"@
    } else {
        path
    }
}

/// Normalization of the path of a Dockerfile: the empty path and each of the
/// spellings `.`, `/`, `/.`, `./` and `Dockerfile` stand for `Dockerfile`.
pub proof fn lemma_usual_dockerfile_paths()
    ensures
        spec_normalized_dockerfile_path(""@) == "Dockerfile"@,
        spec_normalized_dockerfile_path("."@) == "Dockerfile"@,
        spec_normalized_dockerfile_path("/"@) == "Dockerfile"@,
        spec_normalized_dockerfile_path("/."@) == "Dockerfile"@,
        spec_normalized_dockerfile_path("./"@) == "Dockerfile"@,
        spec_normalized_dockerfile_path("Dockerfile"@) == "Dockerfile"@,
{
}

/// Every other path is used as it is given, white space and all.
pub proof fn lemma_other_dockerfile_paths_are_kept(path: Seq<char>)
    requires
        !is_default_dockerfile(path),
    ensures
        spec_normalized_dockerfile_path(path) == path,
{
}

/// The path of a Dockerfile as it is used.
pub fn normalized_dockerfile_path(path: &str) -> (r: String)
    ensures
        r@ == spec_normalized_dockerfile_path(path@),
{
    if *path == *"" || *path == *"." || *path == *"/" || *path == *"/." || *path == *"./" || *path
        == *"Dockerfile" {
        String::from_str("Dockerfile")
    } else {
        String::from_str(path)
    }
}

/// Whether a variable has the name of the switch of the build cache.
pub open spec fn has_cache_key(ev: EnvironmentVariable) -> bool {
    ev.key@ == cache_switch_key()
}

/// Whether a variable turns the build cache off: it has the name of the
/// switch, and its value spells `true` in any case.
pub open spec fn is_cache_switch(ev: EnvironmentVariable) -> bool {
    has_cache_key(ev) && spells_true(ev.value@)
}

/// Whether one of the variables turns the build cache off.
pub open spec fn disables_cache(vars: Seq<EnvironmentVariable>) -> bool {
    exists|i: int| 0 <= i < vars.len() && is_cache_switch(#[trigger] vars[i])
}

/// The variable as `KEY=VALUE`.
pub open spec fn assignment_of(ev: EnvironmentVariable) -> Seq<char> {
    ev.key@ + "="@ + ev.value@
}

/// The variables that are handed to a build, each as `KEY=VALUE`: all but
/// those with the name of the switch of the build cache, whatever their
/// value, in their order.
pub open spec fn env_var_args(vars: Seq<EnvironmentVariable>) -> Seq<Seq<char>> {
    vars.filter(|ev: EnvironmentVariable| !has_cache_key(ev)).map_values(
        |ev: EnvironmentVariable| assignment_of(ev),
    )
}

/// Tells the switch of the build cache from the variables that are handed to
/// the build: whether the cache is switched off, and the variables of every
/// other name as `KEY=VALUE`. A variable with the name of the switch is never
/// handed to the build; it switches the cache off where its value spells
/// `true`.
#[verifier::rlimit(40)]
pub fn split_env_vars(vars: &Vec<EnvironmentVariable>) -> (r: (bool, Vec<String>))
    ensures
        r.0 == disables_cache(vars@),
        texts(r.1@) == env_var_args(vars@),
{
    let mut disable = false;
    let mut args: Vec<String> = Vec::new();
    let n: usize = vars.len();
    let mut i: usize = 0;
    let ghost keep = |ev: EnvironmentVariable| !has_cache_key(ev);
    let ghost render = |ev: EnvironmentVariable| assignment_of(ev);
    assert(texts(args@) =~= vars@.take(0).filter(keep).map_values(render));
    while i < n
        invariant
            i <= n == vars.len(),
            keep == |ev: EnvironmentVariable| !has_cache_key(ev),
            render == |ev: EnvironmentVariable| assignment_of(ev),
            disable == disables_cache(vars@.take(i as int)),
            texts(args@) == vars@.take(i as int).filter(keep).map_values(render),
        decreases n - i,
    {
        let ev = &vars[i];
        let ghost before = vars@.take(i as int);
        let ghost after = vars@.take(i + 1);
        proof {
            assert(after.drop_last() =~= before);
            assert(after.last() == vars@[i as int]);
            reveal(Seq::filter);
            if disables_cache(before) {
                let k = choose|k: int| 0 <= k < before.len() && is_cache_switch(#[trigger] before[k]);
                assert(after[k] == before[k]);
            }
            if disables_cache(after) && !is_cache_switch(vars@[i as int]) {
                let k = choose|k: int| 0 <= k < after.len() && is_cache_switch(#[trigger] after[k]);
                assert(before[k] == after[k]);
            }
            if is_cache_switch(vars@[i as int]) {
                assert(is_cache_switch(after[i as int]));
            }
        }
        if *ev.key.as_str() == *"QOVERY_DISABLE_BUILD_CACHE" {
            if is_true_word(ev.value.as_str()) {
                disable = true;
            }
        } else {
            let arg = concat3(ev.key.as_str(), "=", ev.value.as_str());
            proof {
                lemma_texts_push(args@, arg);
                assert(after.filter(keep) =~= before.filter(keep).push(vars@[i as int]));
                assert(after.filter(keep).map_values(render) =~= before.filter(keep).map_values(
                    render,
                ).push(arg@));
            }
            args.push(arg);
        }
        i = i + 1;
    }
    assert(vars@.take(n as int) =~= vars@);
    (disable, args)
}

/// The buildpack that a language hint `builder[@version]` names: what stands
/// before the `@`. A hint with more than one `@` names none.
pub open spec fn buildpack_of(language: Seq<char>) -> Option<Seq<char>> {
    let parts = split(language, '@');
    if parts.len() <= 2 {
        Some(parts[0])
    } else {
        None
    }
}

/// The buildpack that a language hint names, where it is well formed. The
/// version is accepted and not looked at.
pub fn buildpack_name(language: &str) -> (r: Option<String>)
    ensures
        opt_texts_eq(r, buildpack_of(language@)),
{
    let mut parts = split_on(language, '@');
    if parts.len() <= 2 {
        assert(texts(parts@).len() == parts@.len());
        assert(parts@.len() >= 1) by {
            reveal_with_fuel(split, 2);
        }
        assert(texts(parts@)[0] == parts@[0]@);
        Some(parts.swap_remove(0))
    } else {
        assert(texts(parts@).len() == parts@.len());
        None
    }
}

/// Whether an optional text has the given content.
pub open spec fn opt_texts_eq(r: Option<String>, expected: Option<Seq<char>>) -> bool {
    match (r, expected) {
        (Some(a), Some(b)) => a@ == b,
        (None, None) => true,
        _ => false,
    }
}

/// The arguments of `docker build` for an image: without the cache where it
/// is switched off, with the configured options, the Dockerfile, the two tags
/// of the image, one `--build-arg` for each forwarded variable, and the
/// directory to build in.
pub open spec fn docker_build_args(
    options: Seq<Seq<char>>,
    use_build_cache: bool,
    dockerfile_path: Seq<char>,
    image: &Image,
    forwarded: Seq<Seq<char>>,
    context_dir: Seq<char>,
) -> Seq<Seq<char>> {
    (if use_build_cache {
        seq!["build"@]
    } else {
        seq!["build"@, "--no-cache"@]
    }) + options + seq![
        "-f"@,
        dockerfile_path,
        "-t"@,
        image.spec_name_with_tag(),
        "-t"@,
        image.spec_name_with_latest_tag(),
    ] + flagged("--build-arg"@, forwarded) + seq![context_dir]
}

/// The arguments of `pack build` for an image with one builder: the image
/// under its tag and, as a further tag, as the latest; clearing the cache
/// where it is switched off, with the configured options, the
/// directory, one `--env` for each variable, the builder, the buildpack where
/// one is named, and the process type `worker` where the Procfile asks for it.
pub open spec fn pack_build_args(
    options: Seq<Seq<char>>,
    use_build_cache: bool,
    image: &Image,
    env: Seq<Seq<char>>,
    context_dir: Seq<char>,
    builder: Seq<char>,
    buildpack: Option<Seq<char>>,
    worker: bool,
) -> Seq<Seq<char>> {
    (if use_build_cache {
        seq!["build"@, image.spec_name_with_tag(), "--tag"@, image.spec_name_with_latest_tag()]
    } else {
        seq![
            "build"@,
            image.spec_name_with_tag(),
            "--tag"@,
            image.spec_name_with_latest_tag(),
            "--clear-cache"@,
        ]
    }) + options + seq!["--path"@, context_dir] + flagged("--env"@, env) + seq!["-B"@, builder] + (
    match buildpack {
        Some(name) => seq!["-b"@, name],
        None => Seq::empty(),
    }) + (if worker {
        seq!["--default-process"@, "worker"@]
    } else {
        Seq::empty()
    })
}

/// Both ways of building give the image its two tags: the command of a
/// Dockerfile build names the image under its tag and as the latest, each
/// behind a `-t`, and the command of a buildpack build names the image under
/// its tag and, behind `--tag`, as the latest.
pub proof fn lemma_built_image_has_both_tags(
    options: Seq<Seq<char>>,
    use_build_cache: bool,
    dockerfile_path: Seq<char>,
    image: &Image,
    variables: Seq<Seq<char>>,
    context_dir: Seq<char>,
    builder: Seq<char>,
    buildpack: Option<Seq<char>>,
    worker: bool,
)
    ensures
        ({
            let docker = docker_build_args(
                options,
                use_build_cache,
                dockerfile_path,
                image,
                variables,
                context_dir,
            );
            let at = (if use_build_cache {
                1int
            } else {
                2int
            }) + options.len();
            &&& docker.subrange(at, at + 6) == seq![
                "-f"@,
                dockerfile_path,
                "-t"@,
                image.spec_name_with_tag(),
                "-t"@,
                image.spec_name_with_latest_tag(),
            ]
        }),
        pack_build_args(
            options,
            use_build_cache,
            image,
            variables,
            context_dir,
            builder,
            buildpack,
            worker,
        ).take(4) == seq![
            "build"@,
            image.spec_name_with_tag(),
            "--tag"@,
            image.spec_name_with_latest_tag(),
        ],
{
    let docker = docker_build_args(
        options,
        use_build_cache,
        dockerfile_path,
        image,
        variables,
        context_dir,
    );
    let at = (if use_build_cache {
        1int
    } else {
        2int
    }) + options.len();
    assert(docker.subrange(at, at + 6) =~= seq![
        "-f"@,
        dockerfile_path,
        "-t"@,
        image.spec_name_with_tag(),
        "-t"@,
        image.spec_name_with_latest_tag(),
    ]);
    assert(pack_build_args(
        options,
        use_build_cache,
        image,
        variables,
        context_dir,
        builder,
        buildpack,
        worker,
    ).take(4) =~= seq![
        "build"@,
        image.spec_name_with_tag(),
        "--tag"@,
        image.spec_name_with_latest_tag(),
    ]);
}

/// Whether the Procfile asks for the process type `worker`: whether there is
/// one, and the word occurs in it.
pub open spec fn asks_for_worker(procfile: Option<String>) -> bool {
    match procfile {
        Some(content) => occurs_in("worker"@, content@),
        None => false,
    }
}

/// The clean-up commands of Docker, in the order in which they are run.
pub open spec fn prune_args(i: int) -> Seq<Seq<char>> {
    if i == 0 {
        seq!["container"@, "prune"@, "-f"@]
    } else if i == 1 {
        seq!["image"@, "prune"@, "-a"@, "-f"@]
    } else if i == 2 {
        seq!["builder"@, "prune"@, "-a"@, "-f"@]
    } else {
        seq!["volume"@, "prune"@, "-f"@]
    }
}

/// The number of clean-up commands.
pub const PRUNE_COMMANDS: usize = 4;

/// The clean-up command at position `i`, as a command of Docker with the
/// given environment.
pub open spec fn prune_command(i: int, envs: Seq<(Seq<char>, Seq<char>)>) -> CommandLineView {
    CommandLineView {
        binary: "docker"@,
        args: prune_args(i),
        envs,
        timeout_minutes: Some(BUILD_DURATION_TIMEOUT_MIN),
    }
}

/// The clean-up command at position `i`: containers, images, builders,
/// volumes.
pub fn docker_prune_command(i: usize, envs: Vec<(String, String)>) -> (r: CommandLine)
    ensures
        r@ == prune_command(i as int, pairs(envs@)),
{
    let mut args: Vec<String> = Vec::new();
    assert(texts(args@) =~= Seq::<Seq<char>>::empty());
    if i == 0 {
        push_text(&mut args, "container");
        push_text(&mut args, "prune");
        push_text(&mut args, "-f");
    } else if i == 1 {
        push_text(&mut args, "image");
        push_text(&mut args, "prune");
        push_text(&mut args, "-a");
        push_text(&mut args, "-f");
    } else if i == 2 {
        push_text(&mut args, "builder");
        push_text(&mut args, "prune");
        push_text(&mut args, "-a");
        push_text(&mut args, "-f");
    } else {
        push_text(&mut args, "volume");
        push_text(&mut args, "prune");
        push_text(&mut args, "-f");
    }
    assert(texts(args@) =~= prune_args(i as int));
    CommandLine::new("docker", args, envs).within(BUILD_DURATION_TIMEOUT_MIN)
}

/// The free space of a disk and its size, in bytes.
#[derive(Clone, Copy, Debug, PartialEq, Eq, Structural)]
pub struct DiskUsage {
    pub available_space: u64,
    pub total_space: u64,
}

impl DiskUsage {
    /// The free share of the disk in percent, rounded down; 0 for a disk
    /// without size.
    pub open spec fn spec_percent_remaining(&self) -> int {
        if self.total_space == 0 {
            0
        } else {
            self.available_space as int * 100 / self.total_space as int
        }
    }

    /// Whether the disk asks for a clean-up: nothing is free, or less than the
    /// smallest share that has to stay free.
    pub open spec fn spec_needs_purge(&self) -> bool {
        self.available_space == 0 || self.spec_percent_remaining() < MIN_FREE_DISK_PERCENT
    }

    /// The used share of the disk in percent, as far as the free share leaves
    /// any.
    pub open spec fn spec_percent_used(&self) -> int {
        if self.spec_percent_remaining() <= 100 {
            100 - self.spec_percent_remaining()
        } else {
            0
        }
    }

    /// The free share in percent, or the largest `u64` where it is beyond it.
    pub fn percent_remaining(&self) -> (r: u64)
        ensures
            self.spec_percent_remaining() <= u64::MAX ==> r == self.spec_percent_remaining(),
            self.spec_percent_remaining() > u64::MAX ==> r == u64::MAX,
    {
        if self.total_space == 0 {
            0
        } else {
            let wide: u128 = self.available_space as u128 * 100 / self.total_space as u128;
            if wide > u64::MAX as u128 {
                u64::MAX
            } else {
                wide as u64
            }
        }
    }

    pub fn needs_purge(&self) -> (r: bool)
        ensures
            r == self.spec_needs_purge(),
    {
        self.available_space == 0 || self.percent_remaining() < MIN_FREE_DISK_PERCENT
    }
}

/// What a look for the earlier build of a repository found.
#[derive(Debug)]
pub enum CacheProbe {
    /// The workspace could not be set up; the text says why.
    NoWorkspace(String),
    /// The history of the repository could not be read; the text says why.
    NoHistory(String),
    /// The commit has no parent.
    NoParent,
    /// The commit has a parent; `layers_found` says whether Docker lists an
    /// image under the name of the build.
    Parent { commit_id: String, layers_found: bool },
}

/// The name of the clean-up command at position `i`.
pub open spec fn prune_name(i: int) -> Seq<char> {
    prune_args(i)[0]
}

/// The clean-up commands that failed, each as its name and its failure, in
/// the order in which they ran.
pub open spec fn prune_failures(outcomes: Seq<Result<(), ExecError>>) -> Seq<Seq<char>>
    decreases outcomes.len(),
{
    if outcomes.len() == 0 {
        Seq::empty()
    } else {
        let before = prune_failures(outcomes.drop_last());
        match outcomes.last() {
            Ok(_) => before,
            Err(e) => before.push(
                prune_name(outcomes.len() - 1) + " "@ + ExecError::spec_describe(
                    e.failure,
                    e.message@,
                ),
            ),
        }
    }
}

/// What the clean-up gave: success where every command succeeded, and
/// otherwise an error that names the commands that failed.
pub open spec fn spec_docker_prune_images(outcomes: Seq<Result<(), ExecError>>) -> Result<
    (),
    CommandErrorView,
> {
    if prune_failures(outcomes).len() == 0 {
        Ok(())
    } else {
        Err(
            CommandErrorView {
                message: join(prune_failures(outcomes), "/ "@),
                message_safe: Some("Error while trying to prune images."@),
            },
        )
    }
}

fn prune_name_text(i: usize) -> (r: String)
    ensures
        r@ == prune_name(i as int),
{
    if i == 0 {
        String::from_str("container")
    } else if i == 1 {
        String::from_str("image")
    } else if i == 2 {
        String::from_str("builder")
    } else {
        String::from_str("volume")
    }
}

/// Sums up the clean-up from the outcomes of its commands, in the order in
/// which they ran: each command runs whatever became of the ones before it,
/// and the failures are collected.
#[verifier::rlimit(40)]
pub fn docker_prune_images(outcomes: &Vec<Result<(), ExecError>>) -> (r: Result<(), CommandError>)
    ensures
        match (r, spec_docker_prune_images(outcomes@)) {
            (Ok(_), Ok(_)) => true,
            (Err(e), Err(v)) => e@ == v,
            _ => false,
        },
{
    let mut errored: Vec<String> = Vec::new();
    let n: usize = outcomes.len();
    let mut i: usize = 0;
    assert(texts(errored@) =~= prune_failures(outcomes@.take(0)));
    while i < n
        invariant
            i <= n == outcomes.len(),
            texts(errored@) == prune_failures(outcomes@.take(i as int)),
        decreases n - i,
    {
        proof {
            assert(outcomes@.take(i + 1).drop_last() =~= outcomes@.take(i as int));
        }
        match &outcomes[i] {
            Ok(_) => {},
            Err(e) => {
                let mut line = prune_name_text(i);
                line.append(" ");
                line.append(e.describe().as_str());
                proof {
                    lemma_texts_push(errored@, line);
                }
                errored.push(line);
            },
        }
        i = i + 1;
    }
    assert(outcomes@.take(n as int) =~= outcomes@);
    if errored.len() > 0 {
        Err(
            CommandError::new(
                joined(&errored, "/ "),
                Some(String::from_str("Error while trying to prune images.")),
            ),
        )
    } else {
        Ok(())
    }
}

/// What is logged about the disk of the Docker directory.
pub open spec fn disk_notice(usage: DiskUsage, details: EventDetails) -> NoticeView {
    if usage.spec_needs_purge() {
        safe_log(
            Level::Warning,
            details,
            "Docker disk remaining ("@ + decimal(usage.spec_percent_remaining() as nat)
                + "%) is lower than "@ + decimal(MIN_FREE_DISK_PERCENT as nat)
                + "%, requesting cleaning (purge)"@,
        )
    } else {
        safe_log(
            Level::Info,
            details,
            "No need to purge old docker images, only "@ + decimal(usage.spec_percent_used() as nat)
                + "% ("@ + decimal(usage.available_space as nat) + "/"@ + decimal(
                usage.total_space as nat,
            ) + ") disk used"@,
        )
    }
}

/// Looks at the disk of the Docker directory: says whether the clean-up is to
/// run, and what to log about it.
#[verifier::rlimit(40)]
pub fn check_docker_space_usage_and_clean(usage: &DiskUsage, event_details: EventDetails) -> (r: (
    bool,
    Notice,
))
    ensures
        r.0 == usage.spec_needs_purge(),
        r.1@ == disk_notice(*usage, event_details),
{
    if usage.needs_purge() {
        let remaining: u64 = usage.percent_remaining();
        let mut text = String::from_str("Docker disk remaining (");
        text.append(decimal_text(remaining).as_str());
        text.append("%) is lower than ");
        text.append(decimal_text(MIN_FREE_DISK_PERCENT).as_str());
        text.append("%, requesting cleaning (purge)");
        proof {
            if usage.total_space != 0 && usage.available_space == 0 {
                assert(usage.spec_percent_remaining() == 0);
            }
        }
        (true, Notice::log(Level::Warning, event_details, text))
    } else {
        let remaining: u64 = usage.percent_remaining();
        let used: u64 = if remaining <= 100 {
            100 - remaining
        } else {
            0
        };
        let mut text = String::from_str("No need to purge old docker images, only ");
        text.append(decimal_text(used).as_str());
        text.append("% (");
        text.append(decimal_text(usage.available_space).as_str());
        text.append("/");
        text.append(decimal_text(usage.total_space).as_str());
        text.append(") disk used");
        (false, Notice::log(Level::Info, event_details, text))
    }
}

impl LocalDocker {
    /// A platform for this execution, with the usual builder and no listener.
    pub fn new(context: ExecutionContext, id: &str, name: &str) -> (r: Self)
        ensures
            r.context == context,
            r.id@ == id@,
            r.name@ == name@,
            r.listeners@ == Seq::<Listener>::empty(),
            texts(r.builders@) == default_builders(),
    {
        let mut builders: Vec<String> = Vec::new();
        assert(texts(builders@) =~= Seq::<Seq<char>>::empty());
        push_text(&mut builders, "heroku/buildpacks:20");
        assert(texts(builders@) =~= default_builders());
        LocalDocker {
            context,
            id: String::from_str(id),
            name: String::from_str(name),
            listeners: Vec::new(),
            builders,
        }
    }

    /// The same platform, trying `builders` in their order.
    pub fn with_builders(self, builders: Vec<String>) -> (r: Self)
        ensures
            r == (LocalDocker { builders, ..self }),
    {
        LocalDocker {
            context: self.context,
            id: self.id,
            name: self.name,
            listeners: self.listeners,
            builders,
        }
    }

    pub fn context(&self) -> (r: &ExecutionContext)
        ensures
            *r == self.context,
    {
        &self.context
    }

    pub fn kind(&self) -> (r: Kind)
        ensures
            r == Kind::LocalDocker,
    {
        Kind::LocalDocker
    }

    pub fn id(&self) -> (r: &str)
        ensures
            r@ == self.id@,
    {
        self.id.as_str()
    }

    pub fn name(&self) -> (r: &str)
        ensures
            r@ == self.name@,
    {
        self.name.as_str()
    }

    /// The name, with the id in round brackets behind it.
    pub open spec fn spec_name_with_id(&self) -> Seq<char> {
        self.name@ + " ("@ + self.id@ + ")"@
    }

    pub fn name_with_id(&self) -> (r: String)
        ensures
            r@ == self.spec_name_with_id(),
    {
        let mut out = self.name.clone();
        out.append(" (");
        out.append(self.id.as_str());
        out.append(")");
        out
    }

    pub open spec fn spec_to_transmitter(&self) -> Transmitter {
        Transmitter::BuildPlatform(self.id, self.name)
    }

    pub fn to_transmitter(&self) -> (r: Transmitter)
        ensures
            r == self.spec_to_transmitter(),
    {
        Transmitter::BuildPlatform(self.id.clone(), self.name.clone())
    }

    /// The context of what this platform reports: its execution, the build
    /// step, and itself as the one that reports.
    pub open spec fn spec_event_details(&self) -> EventDetails {
        EventDetails {
            organisation_id: self.context.organization_id,
            cluster_id: self.context.cluster_id,
            execution_id: self.context.execution_id,
            stage: Stage::Environment(EnvironmentStep::Build),
            transmitter: self.spec_to_transmitter(),
        }
    }

    pub fn get_event_details(&self) -> (r: EventDetails)
        ensures
            r == self.spec_event_details(),
    {
        EventDetails {
            organisation_id: self.context.organization_id.clone(),
            cluster_id: self.context.cluster_id.clone(),
            execution_id: self.context.execution_id.clone(),
            stage: Stage::Environment(EnvironmentStep::Build),
            transmitter: self.to_transmitter(),
        }
    }

    pub fn listeners(&self) -> (r: &Listeners)
        ensures
            *r == self.listeners,
    {
        &self.listeners
    }

    /// Adds a listener behind those that are there.
    pub fn add_listener(&mut self, listener: Listener)
        ensures
            final(self).listeners@ == old(self).listeners@.push(listener),
            final(self).context == old(self).context,
            final(self).id == old(self).id,
            final(self).name == old(self).name,
            final(self).builders == old(self).builders,
    {
        self.listeners.push(listener);
    }

    /// The environment that points Docker at the daemon of this platform.
    pub fn get_docker_host_envs(&self) -> (r: Vec<(String, String)>)
        ensures
            pairs(r@) == docker_host_envs(&self.context),
    {
        docker_envs(&self.context)
    }

    /// The command that asks Docker whether it holds `image`.
    pub open spec fn spec_image_inspect_command(&self, image: &Image) -> CommandLineView {
        CommandLineView {
            binary: "docker"@,
            args: seq!["image"@, "inspect"@, image.spec_name_with_tag()],
            envs: docker_host_envs(&self.context),
            timeout_minutes: None,
        }
    }

    pub fn image_inspect_command(&self, image: &Image) -> (r: CommandLine)
        ensures
            r@ == self.spec_image_inspect_command(image),
    {
        let mut args: Vec<String> = Vec::new();
        assert(texts(args@) =~= Seq::<Seq<char>>::empty());
        push_text(&mut args, "image");
        push_text(&mut args, "inspect");
        push_text(&mut args, image.name_with_tag().as_str());
        assert(texts(args@) =~= seq!["image"@, "inspect"@, image.spec_name_with_tag()]);
        CommandLine::new("docker", args, self.get_docker_host_envs())
    }

    /// Whether Docker holds the image, from the outcome of the command that
    /// asks it: the image is there exactly when the command succeeded.
    pub fn image_does_exist(&self, inspected: &Result<(), ExecError>) -> (r: Result<
        bool,
        EngineError,
    >)
        ensures
            r == Ok::<bool, EngineError>(inspected is Ok),
    {
        Ok(inspected.is_ok())
    }

    /// The Dockerfile as bytes, from the outcome of reading it: the bytes, or
    /// an error that names the file and says why it could not be read.
    pub fn get_dockerfile_content(&self, dockerfile_path: &str, read: Result<Vec<u8>, String>) -> (r:
        Result<Vec<u8>, EngineError>)
        ensures
            result_is(
                r,
                match read {
                    Ok(bytes) => Ok(bytes),
                    Err(why) => Err(
                        EngineError::described(
                            Tag::DockerCannotReadDockerfile,
                            self.spec_event_details(),
                            "Can't read Dockerfile `"@ + dockerfile_path@ + "`."@,
                            Some(raw_cause(why@)),
                            None,
                        ),
                    ),
                },
            ),
    {
        match read {
            Ok(bytes) => Ok(bytes),
            Err(why) => Err(
                EngineError::new_docker_cannot_read_dockerfile(
                    self.get_event_details(),
                    dockerfile_path,
                    CommandError::new(why, None),
                ),
            ),
        }
    }

    /// The command that builds from a Dockerfile.
    pub open spec fn spec_docker_build_command(
        &self,
        image: &Image,
        dockerfile_complete_path: Seq<char>,
        into_dir_docker_style: Seq<char>,
        forwarded: Seq<Seq<char>>,
        use_build_cache: bool,
    ) -> CommandLineView {
        CommandLineView {
            binary: "docker"@,
            args: docker_build_args(
                self.context.spec_docker_build_options(),
                use_build_cache,
                dockerfile_complete_path,
                image,
                forwarded,
                into_dir_docker_style,
            ),
            envs: docker_host_envs(&self.context),
            timeout_minutes: Some(BUILD_DURATION_TIMEOUT_MIN),
        }
    }

    /// The command that builds `image` from a Dockerfile, handing it the
    /// variables in `forwarded`, each as one build argument.
    #[verifier::rlimit(40)]
    pub fn docker_build_command(
        &self,
        image: &Image,
        dockerfile_complete_path: &str,
        into_dir_docker_style: &str,
        forwarded: &Vec<String>,
        use_build_cache: bool,
    ) -> (r: CommandLine)
        ensures
            r@ == self.spec_docker_build_command(
                image,
                dockerfile_complete_path@,
                into_dir_docker_style@,
                texts(forwarded@),
                use_build_cache,
            ),
    {
        let mut args: Vec<String> = Vec::new();
        assert(texts(args@) =~= Seq::<Seq<char>>::empty());
        push_text(&mut args, "build");
        if !use_build_cache {
            push_text(&mut args, "--no-cache");
        }
        let ghost head = if use_build_cache {
            seq!["build"@]
        } else {
            seq!["build"@, "--no-cache"@]
        };
        assert(texts(args@) =~= head);
        match self.context.docker_build_options() {
            Some(options) => {
                push_texts(&mut args, &options);
            },
            None => {
                assert(texts(args@) =~= head + self.context.spec_docker_build_options());
            },
        }
        let ghost with_options = head + self.context.spec_docker_build_options();
        assert(texts(args@) == with_options);
        push_text(&mut args, "-f");
        push_text(&mut args, dockerfile_complete_path);
        push_text(&mut args, "-t");
        push_text(&mut args, image.name_with_tag().as_str());
        push_text(&mut args, "-t");
        push_text(&mut args, image.name_with_latest_tag().as_str());
        let ghost tagged = with_options + seq![
            "-f"@,
            dockerfile_complete_path@,
            "-t"@,
            image.spec_name_with_tag(),
            "-t"@,
            image.spec_name_with_latest_tag(),
        ];
        assert(texts(args@) =~= tagged);
        push_flagged(&mut args, "--build-arg", forwarded);
        push_text(&mut args, into_dir_docker_style);
        assert(texts(args@) =~= tagged + flagged("--build-arg"@, texts(forwarded@)) + seq![
            into_dir_docker_style@,
        ]);
        CommandLine::new("docker", args, self.get_docker_host_envs()).within(
            BUILD_DURATION_TIMEOUT_MIN,
        )
    }

    /// The command that builds with buildpacks and one builder.
    pub open spec fn spec_pack_build_command(
        &self,
        build: &Build,
        into_dir_docker_style: Seq<char>,
        env: Seq<Seq<char>>,
        use_build_cache: bool,
        builder: Seq<char>,
        buildpack: Option<Seq<char>>,
        worker: bool,
    ) -> CommandLineView {
        CommandLineView {
            binary: "pack"@,
            args: pack_build_args(
                self.context.spec_docker_build_options(),
                use_build_cache,
                &build.image,
                env,
                into_dir_docker_style,
                builder,
                buildpack,
                worker,
            ),
            envs: docker_host_envs(&self.context),
            timeout_minutes: Some(BUILD_DURATION_TIMEOUT_MIN),
        }
    }

    /// The command that builds the image of `build` with buildpacks and the
    /// builder `builder`, handing it the variables in `env`.
    #[verifier::rlimit(40)]
    pub fn pack_build_command(
        &self,
        build: &Build,
        into_dir_docker_style: &str,
        env: &Vec<String>,
        use_build_cache: bool,
        builder: &str,
        buildpack: &Option<String>,
        worker: bool,
    ) -> (r: CommandLine)
        ensures
            r@ == self.spec_pack_build_command(
                build,
                into_dir_docker_style@,
                texts(env@),
                use_build_cache,
                builder@,
                crate::events::opt_text(*buildpack),
                worker,
            ),
    {
        let mut args: Vec<String> = Vec::new();
        assert(texts(args@) =~= Seq::<Seq<char>>::empty());
        push_text(&mut args, "build");
        push_text(&mut args, build.image.name_with_tag().as_str());
        push_text(&mut args, "--tag");
        push_text(&mut args, build.image.name_with_latest_tag().as_str());
        if !use_build_cache {
            push_text(&mut args, "--clear-cache");
        }
        let ghost head = if use_build_cache {
            seq![
                "build"@,
                build.image.spec_name_with_tag(),
                "--tag"@,
                build.image.spec_name_with_latest_tag(),
            ]
        } else {
            seq![
                "build"@,
                build.image.spec_name_with_tag(),
                "--tag"@,
                build.image.spec_name_with_latest_tag(),
                "--clear-cache"@,
            ]
        };
        assert(texts(args@) =~= head);
        match self.context.docker_build_options() {
            Some(options) => {
                push_texts(&mut args, &options);
            },
            None => {
                assert(texts(args@) =~= head + self.context.spec_docker_build_options());
            },
        }
        let ghost with_options = head + self.context.spec_docker_build_options();
        assert(texts(args@) == with_options);
        push_text(&mut args, "--path");
        push_text(&mut args, into_dir_docker_style);
        let ghost with_path = with_options + seq!["--path"@, into_dir_docker_style@];
        assert(texts(args@) =~= with_path);
        push_flagged(&mut args, "--env", env);
        push_text(&mut args, "-B");
        push_text(&mut args, builder);
        let ghost with_builder = with_path + flagged("--env"@, texts(env@)) + seq!["-B"@, builder@];
        assert(texts(args@) =~= with_builder);
        match buildpack {
            Some(name) => {
                push_text(&mut args, "-b");
                push_text(&mut args, name.as_str());
                assert(texts(args@) =~= with_builder + seq!["-b"@, name@]);
            },
            None => {
                assert(texts(args@) =~= with_builder + Seq::<Seq<char>>::empty());
            },
        }
        let ghost with_buildpack = with_builder + (match crate::events::opt_text(*buildpack) {
            Some(name) => seq!["-b"@, name],
            None => Seq::empty(),
        });
        assert(texts(args@) == with_buildpack);
        if worker {
            push_text(&mut args, "--default-process");
            push_text(&mut args, "worker");
            assert(texts(args@) =~= with_buildpack + seq!["--default-process"@, "worker"@]);
        } else {
            assert(texts(args@) =~= with_buildpack + Seq::<Seq<char>>::empty());
        }
        CommandLine::new("pack", args, self.get_docker_host_envs()).within(
            BUILD_DURATION_TIMEOUT_MIN,
        )
    }

    /// The place of the workspace of a build below the root of workspaces.
    pub open spec fn spec_workspace_suffix(build: &Build) -> Seq<char> {
        "build/"@ + build.image.name@
    }

    pub fn workspace_suffix(build: &Build) -> (r: String)
        ensures
            r@ == Self::spec_workspace_suffix(build),
    {
        concat2("build/", build.image.name.as_str())
    }

    /// The directory in which the repository of a build is cloned, from the
    /// outcome of setting it up: the directory, or an error that says why
    /// there is none.
    pub fn get_repository_build_root_path(&self, allocated: Result<String, String>) -> (r: Result<
        String,
        EngineError,
    >)
        ensures
            result_is(
                r,
                match allocated {
                    Ok(path) => Ok(path),
                    Err(why) => Err(
                        EngineError::described(
                            Tag::CannotGetWorkspaceDirectory,
                            self.spec_event_details(),
                            "Error while trying to get workspace directory"@,
                            Some(raw_cause(why@)),
                            None,
                        ),
                    ),
                },
            ),
    {
        match allocated {
            Ok(path) => Ok(path),
            Err(why) => Err(
                EngineError::new_cannot_get_workspace_directory(
                    self.get_event_details(),
                    CommandError::new(why, None),
                ),
            ),
        }
    }

    /// What `is_valid` gives where the two programs were found or not.
    pub open spec fn spec_is_valid(&self, docker_found: bool, pack_found: bool) -> Result<
        (),
        EngineErrorView,
    > {
        if !docker_found {
            Err(
                EngineError::described(
                    Tag::MissingRequiredBinary,
                    self.spec_event_details(),
                    "`"@ + "docker"@ + "` binary is required but was not found."@,
                    None,
                    None,
                ),
            )
        } else if !pack_found {
            Err(
                EngineError::described(
                    Tag::MissingRequiredBinary,
                    self.spec_event_details(),
                    "`"@ + "pack"@ + "` binary is required but was not found."@,
                    None,
                    None,
                ),
            )
        } else {
            Ok(())
        }
    }

    /// Whether the platform can work: both `docker` and `pack` have to be
    /// installed. `docker_found` and `pack_found` say whether they are.
    pub fn is_valid(&self, docker_found: bool, pack_found: bool) -> (r: Result<(), EngineError>)
        ensures
            result_is(r, self.spec_is_valid(docker_found, pack_found)),
    {
        if !docker_found {
            return Err(EngineError::new_missing_required_binary(self.get_event_details(), "docker"));
        }
        if !pack_found {
            return Err(EngineError::new_missing_required_binary(self.get_event_details(), "pack"));
        }
        Ok(())
    }

    /// The command that lists the images that Docker holds under the name of
    /// the image of `build`.
    pub open spec fn spec_cache_lookup_command(build: &Build) -> CommandLineView {
        CommandLineView {
            binary: "docker"@,
            args: seq!["images"@, "-q"@, build.image.name@],
            envs: Seq::empty(),
            timeout_minutes: Some(1),
        }
    }

    pub fn cache_lookup_command(build: &Build) -> (r: CommandLine)
        ensures
            r@ == Self::spec_cache_lookup_command(build),
    {
        let mut args: Vec<String> = Vec::new();
        assert(texts(args@) =~= Seq::<Seq<char>>::empty());
        push_text(&mut args, "images");
        push_text(&mut args, "-q");
        push_text(&mut args, build.image.name.as_str());
        assert(texts(args@) =~= seq!["images"@, "-q"@, build.image.name@]);
        let envs: Vec<(String, String)> = Vec::new();
        assert(pairs(envs@) =~= Seq::<(Seq<char>, Seq<char>)>::empty());
        CommandLine::new("docker", args, envs).within(1)
    }

    /// What the cache holds for a build, given what the look for its earlier
    /// build found.
    pub open spec fn spec_has_cache(&self, build: Build, probe: CacheProbe) -> Result<
        CacheResult,
        EngineErrorView,
    > {
        match probe {
            CacheProbe::NoWorkspace(why) => Err(
                EngineError::described(
                    Tag::CannotGetWorkspaceDirectory,
                    self.spec_event_details(),
                    "Error while trying to get workspace directory"@,
                    Some(raw_cause(why@)),
                    None,
                ),
            ),
            CacheProbe::NoHistory(why) => Err(
                EngineError::described(
                    Tag::BuilderGetBuildError,
                    self.spec_event_details(),
                    "Error while trying to get build with commit ID: `"@ + build.image.commit_id@
                        + "`."@,
                    Some(raw_cause(why@)),
                    None,
                ),
            ),
            CacheProbe::NoParent => Ok(CacheResult::MissWithoutParentBuild),
            CacheProbe::Parent { commit_id, layers_found } => if layers_found {
                Ok(CacheResult::Hit)
            } else {
                Ok(CacheResult::Miss(build.spec_to_previous_build(commit_id)))
            },
        }
    }

    /// Says whether the build can reuse what an earlier one left: a hit where
    /// Docker still holds the layers of the build of the parent commit, a miss
    /// with that build where it does not, and a miss without a build where the
    /// commit has no parent. A workspace that cannot be set up and a history
    /// that cannot be read are errors.
    pub fn has_cache(&self, build: Build, probe: CacheProbe) -> (r: Result<CacheResult, EngineError>)
        ensures
            result_is(r, self.spec_has_cache(build, probe)),
    {
        match probe {
            CacheProbe::NoWorkspace(why) => Err(
                EngineError::new_cannot_get_workspace_directory(
                    self.get_event_details(),
                    CommandError::new(why, None),
                ),
            ),
            CacheProbe::NoHistory(why) => Err(
                EngineError::new_builder_get_build_error(
                    self.get_event_details(),
                    build.image.commit_id.as_str(),
                    CommandError::new(why, None),
                ),
            ),
            CacheProbe::NoParent => Ok(CacheResult::MissWithoutParentBuild),
            CacheProbe::Parent { commit_id, layers_found } => {
                if layers_found {
                    Ok(CacheResult::Hit)
                } else {
                    Ok(CacheResult::Miss(build.to_previous_build(commit_id)))
                }
            },
        }
    }

    /// What is told for one line of output of a build command: a record for
    /// the log and a notification about the application, at the level of
    /// information for standard output and of warnings for standard error.
    pub open spec fn spec_output_notices(&self, build: &Build, line: Seq<char>, is_error: bool) -> Seq<
        NoticeView,
    > {
        seq![
            safe_log(
                if is_error {
                    Level::Warning
                } else {
                    Level::Info
                },
                self.spec_event_details(),
                line,
            ),
            application_progress(
                ProgressKind::DeploymentInProgress,
                build.image.application_id@,
                if is_error {
                    ProgressLevel::Warn
                } else {
                    ProgressLevel::Info
                },
                line,
                self.context.execution_id@,
            ),
        ]
    }

    /// What is told for one line of output of a build command.
    pub fn output_notices(&self, build: &Build, line: &str, is_error: bool) -> (r: Vec<Notice>)
        ensures
            notices(r@) == self.spec_output_notices(build, line@, is_error),
    {
        let mut out: Vec<Notice> = Vec::new();
        let log = Notice::log(
            if is_error {
                Level::Warning
            } else {
                Level::Info
            },
            self.get_event_details(),
            String::from_str(line),
        );
        let progress = Notice::progress(
            ProgressKind::DeploymentInProgress,
            build.image.application_id.as_str(),
            if is_error {
                ProgressLevel::Warn
            } else {
                ProgressLevel::Info
            },
            String::from_str(line),
            self.context.execution_id.as_str(),
        );
        proof {
            lemma_notices_empty();
            lemma_notices_push(out@, log);
            lemma_notices_push(out@.push(log), progress);
        }
        out.push(log);
        out.push(progress);
        assert(notices(out@) =~= self.spec_output_notices(build, line@, is_error));
        out
    }

    /// What `build_error` tells.
    pub open spec fn spec_build_error_notices(&self, build: &Build) -> Seq<NoticeView> {
        seq![
            safe_log(
                Level::Warning,
                self.spec_event_details(),
                "LocalDocker.build_error() called for "@ + self.name@,
            ),
            application_progress(
                ProgressKind::Error,
                build.image.application_id@,
                ProgressLevel::Error,
                "something goes wrong (not implemented)"@,
                self.context.execution_id@,
            ),
            NoticeView::Failure(self.spec_not_implemented()),
        ]
    }

    pub open spec fn spec_not_implemented(&self) -> EngineErrorView {
        EngineError::described(
            Tag::NotImplementedError,
            self.spec_event_details(),
            "Error, something is not implemented."@,
            None,
            None,
        )
    }

    /// Reports that a build went wrong: warns, tells the listeners of the
    /// application, and gives the error that says that nothing more is
    /// implemented.
    pub fn build_error(&self, build: Build) -> (r: (Vec<Notice>, Result<BuildResult, EngineError>))
        ensures
            notices(r.0@) == self.spec_build_error_notices(&build),
            result_is(r.1, Err(self.spec_not_implemented())),
    {
        let mut out: Vec<Notice> = Vec::new();
        let log = Notice::log(
            Level::Warning,
            self.get_event_details(),
            concat2("LocalDocker.build_error() called for ", self.name.as_str()),
        );
        let progress = Notice::progress(
            ProgressKind::Error,
            build.image.application_id.as_str(),
            ProgressLevel::Error,
            String::from_str("something goes wrong (not implemented)"),
            self.context.execution_id.as_str(),
        );
        let err = EngineError::new_not_implemented_error(self.get_event_details());
        let logged = Notice::Failure(err.clone());
        proof {
            lemma_notices_empty();
            lemma_notices_push(out@, log);
            lemma_notices_push(out@.push(log), progress);
            lemma_notices_push(out@.push(log).push(progress), logged);
        }
        out.push(log);
        out.push(progress);
        out.push(logged);
        assert(notices(out@) =~= self.spec_build_error_notices(&build));
        (out, Err(err))
    }
}

impl LocalDocker {
    pub open spec fn cancelled(&self) -> EngineErrorView {
        EngineError::described(
            Tag::TaskCancellationRequested,
            self.spec_event_details(),
            "Task cancellation has been requested."@,
            None,
            None,
        )
    }

    /// What a build from a Dockerfile gave, by how the build command ended:
    /// success; the error of a cancelled task where the command was stopped;
    /// and otherwise the error of a failed build, with the failure of the
    /// command as its cause.
    pub open spec fn spec_build_image_with_docker(&self, outcome: Result<(), ExecError>) -> Result<
        (),
        EngineErrorView,
    > {
        match outcome {
            Ok(_) => Ok(()),
            Err(e) => if e.failure == ExecFailure::Killed {
                Err(self.cancelled())
            } else {
                Err(
                    EngineError::described(
                        Tag::DockerCannotBuildContainerImage,
                        self.spec_event_details(),
                        "Error while building container image `"@ + self.spec_name_with_id()
                            + "`."@,
                        Some(raw_cause(ExecError::spec_describe(e.failure, e.message@))),
                        None,
                    ),
                )
            },
        }
    }

    /// Sums up a build from a Dockerfile from how the command of
    /// `docker_build_command` ended. A stopped command is a cancellation, not
    /// a failed build.
    pub fn build_image_with_docker(&self, outcome: Result<(), ExecError>) -> (r: Result<
        (),
        EngineError,
    >)
        ensures
            result_is(r, self.spec_build_image_with_docker(outcome)),
    {
        match outcome {
            Ok(_) => Ok(()),
            Err(e) => {
                if e.is_killed() {
                    Err(EngineError::new_task_cancellation_requested(self.get_event_details()))
                } else {
                    Err(
                        EngineError::new_docker_cannot_build_container_image(
                            self.get_event_details(),
                            self.name_with_id().as_str(),
                            CommandError::new(e.describe(), None),
                        ),
                    )
                }
            },
        }
    }

    /// The error of a buildpack build in which every builder failed; `why`
    /// says how the last one did.
    pub open spec fn pack_build_failed(&self, why: Seq<char>) -> EngineErrorView {
        EngineError::described(
            Tag::BuildpackCannotBuildContainerImage,
            self.spec_event_details(),
            "Error while trying to build container image `"@ + self.spec_name_with_id()
                + "` with one of the following builders: "@ + join(texts(self.builders@), ", "@)
                + "."@,
            Some(raw_cause(why)),
            None,
        )
    }

    /// What a buildpack build gave, by how the command of its last builder
    /// ended: success; the error of a cancelled task where the command was
    /// stopped; and otherwise the error that names every builder.
    pub open spec fn spec_build_image_with_buildpacks(&self, last: Result<(), ExecError>) -> Result<
        (),
        EngineErrorView,
    > {
        match last {
            Ok(_) => Ok(()),
            Err(e) => if e.failure == ExecFailure::Killed {
                Err(self.cancelled())
            } else {
                Err(self.pack_build_failed(ExecError::spec_describe(e.failure, e.message@)))
            },
        }
    }

    /// Sums up a buildpack build from how the command of the last builder
    /// that was tried ended; the commands are those of `pack_build_command`,
    /// one for each builder in turn.
    pub fn build_image_with_buildpacks(&self, last: Result<(), ExecError>) -> (r: Result<
        (),
        EngineError,
    >)
        ensures
            result_is(r, self.spec_build_image_with_buildpacks(last)),
    {
        match last {
            Ok(_) => Ok(()),
            Err(e) => {
                if e.is_killed() {
                    Err(EngineError::new_task_cancellation_requested(self.get_event_details()))
                } else {
                    Err(
                        EngineError::new_buildpack_cannot_build_container_image(
                            self.get_event_details(),
                            self.name_with_id().as_str(),
                            &self.builders,
                            CommandError::new(e.describe(), None),
                        ),
                    )
                }
            },
        }
    }
}

/// The variables handed to a build are the variables of the build whose name
/// is not that of the switch of the cache, each as `KEY=VALUE`: a variable
/// with the name of the switch is never handed on, whatever its value.
#[verifier::rlimit(40)]
pub proof fn lemma_env_var_args(vars: Seq<EnvironmentVariable>, a: Seq<char>)
    ensures
        env_var_args(vars).contains(a) <==> exists|i: int|
            0 <= i < vars.len() && !has_cache_key(#[trigger] vars[i]) && assignment_of(vars[i])
                == a,
{
    let keep = |ev: EnvironmentVariable| !has_cache_key(ev);
    let kept = vars.filter(keep);
    if env_var_args(vars).contains(a) {
        let j = choose|j: int| 0 <= j < env_var_args(vars).len() && env_var_args(vars)[j] == a;
        assert(kept.contains(kept[j]));
        crate::text::lemma_filter_contains(vars, keep, kept[j]);
        let i = choose|i: int| 0 <= i < vars.len() && vars[i] == kept[j];
        assert(!has_cache_key(vars[i]) && assignment_of(vars[i]) == a);
    }
    if exists|i: int|
        0 <= i < vars.len() && !has_cache_key(#[trigger] vars[i]) && assignment_of(vars[i]) == a {
        let i = choose|i: int|
            0 <= i < vars.len() && !has_cache_key(#[trigger] vars[i]) && assignment_of(vars[i])
                == a;
        assert(vars.contains(vars[i]));
        crate::text::lemma_filter_contains(vars, keep, vars[i]);
        let j = choose|j: int| 0 <= j < kept.len() && kept[j] == vars[i];
        assert(env_var_args(vars)[j] == a);
    }
}

/// Forwarding of variables: the build arguments of a Dockerfile build are the
/// variables of the build that the Dockerfile uses, those with the name of
/// the switch of the cache left out. A variable whose name does not occur in
/// the Dockerfile is not among them; one whose name occurs, and whose name is
/// not that of the switch, is among them as `KEY=VALUE`; and each of them
/// stands in the command behind a `--build-arg` of its own.
#[verifier::rlimit(40)]
pub proof fn lemma_env_var_forwarding(
    vars: Seq<EnvironmentVariable>,
    content: Seq<char>,
    ev: EnvironmentVariable,
)
    requires
        vars.contains(ev),
    ensures
        !occurs_in(key_of(assignment_of(ev)), content) ==> !crate::build_platform::docker::used_args(
            env_var_args(vars),
            content,
        ).contains(assignment_of(ev)),
        occurs_in(key_of(assignment_of(ev)), content) && !has_cache_key(ev)
            ==> crate::build_platform::docker::used_args(env_var_args(vars), content).contains(
            assignment_of(ev),
        ),
        forall|i: int|
            0 <= i < crate::build_platform::docker::used_args(env_var_args(vars), content).len()
                ==> #[trigger] flagged(
                "--build-arg"@,
                crate::build_platform::docker::used_args(env_var_args(vars), content),
            )[2 * i] == "--build-arg"@ && flagged(
                "--build-arg"@,
                crate::build_platform::docker::used_args(env_var_args(vars), content),
            )[2 * i + 1] == crate::build_platform::docker::used_args(env_var_args(vars), content)[i],
{
    let a = assignment_of(ev);
    crate::build_platform::docker::lemma_kept_exactly_the_used(env_var_args(vars), content, a);
    lemma_env_var_args(vars, a);
    let i = choose|i: int| 0 <= i < vars.len() && vars[i] == ev;
    assert(vars[i] == ev);
    crate::text::lemma_flagged(
        "--build-arg"@,
        crate::build_platform::docker::used_args(env_var_args(vars), content),
    );
}

} // verus!
