//! Redis with AWS: managed by ElastiCache, or hosted in the cluster.

use crate::cloud_provider::service::{
    check_service_version, default_entries, default_tera_context, version_notices,
    version_refused, version_refused_notices, Action, DatabaseMode, DatabaseOptions,
    DeploymentTarget, Hook, ServiceSummary, ServiceVersionCheckResult, ServiceWork,
};
use crate::cloud_provider::templating::{
    context_entries, insert_flag, insert_number, insert_text, insert_texts, with_texts,
    TemplateValue,
};
use crate::cloud_provider::utilities::{action_notice, print_action};
use crate::errors::{EngineErrorView, Tag};
use crate::notice::{no_notices, NoticeView};
use crate::text::{concat3, pairs, starts_with};
use crate::cloud_provider::utilities::{
    get_self_hosted_redis_version, get_supported_version_to_use, self_hosted_redis_versions,
    spec_supported_version, version_result_is, VersionTable,
};
use crate::errors::{CommandError, CommandErrorView, EngineError};
use crate::events::{EnvironmentStep, EventDetails, Stage, Transmitter};
use crate::models::{ExecutionContext, Listener, Listeners};
use crate::notice::{notices, Notice};
use crate::text::{concat2, cut, prefix, removed, without};
use vstd::prelude::*;
use vstd::string::*;

verus! {

/// A Redis database with AWS.
#[derive(Debug)]
pub struct RedisAws {
    pub context: ExecutionContext,
    pub id: String,
    pub action: Action,
    pub name: String,
    pub version: String,
    pub fqdn: String,
    pub fqdn_id: String,
    pub total_cpus: String,
    pub total_ram_in_mib: u32,
    pub database_instance_type: String,
    pub options: DatabaseOptions,
    pub listeners: Listeners,
}

/// The versions of Redis that ElastiCache offers: 6 stands for 6.x, and 5 for
/// 5.0.6.
pub open spec fn managed_redis_versions() -> Map<Seq<char>, Seq<char>> {
    Map::<Seq<char>, Seq<char>>::empty().insert("6"@, "6.x"@).insert("5"@, "5.0.6"@)
}

/// The version of Redis to deploy for a requested version: looked up among
/// the versions of ElastiCache for a managed service, and among the versions
/// that can be hosted otherwise.
pub open spec fn spec_redis_version(requested_version: Seq<char>, is_managed_service: bool) -> Result<
    Seq<char>,
    CommandErrorView,
> {
    if is_managed_service {
        spec_supported_version("Elasticache"@, managed_redis_versions(), requested_version)
    } else {
        spec_supported_version("Redis"@, self_hosted_redis_versions(), requested_version)
    }
}

/// The version of Redis to deploy for a requested version.
pub fn get_redis_version(requested_version: String, is_managed_service: bool) -> (r: Result<
    String,
    CommandError,
>)
    ensures
        version_result_is(r, spec_redis_version(requested_version@, is_managed_service)),
{
    if is_managed_service {
        get_managed_redis_version(requested_version)
    } else {
        get_self_hosted_redis_version(requested_version)
    }
}

/// The version of managed Redis to deploy for a requested version.
pub fn get_managed_redis_version(requested_version: String) -> (r: Result<String, CommandError>)
    ensures
        version_result_is(
            r,
            spec_supported_version("Elasticache"@, managed_redis_versions(), requested_version@),
        ),
{
    let mut supported_redis_versions = VersionTable::new();
    supported_redis_versions.insert(String::from_str("6"), String::from_str("6.x"));
    supported_redis_versions.insert(String::from_str("5"), String::from_str("5.0.6"));
    get_supported_version_to_use(
        "Elasticache",
        &supported_redis_versions,
        requested_version.as_str(),
    )
}

/// The longest name that is left to a database behind the prefix `redis`.
pub const SANITIZED_NAME_MAX: usize = 42;

impl RedisAws {
    pub fn new(
        context: ExecutionContext,
        id: &str,
        action: Action,
        name: &str,
        version: &str,
        fqdn: &str,
        fqdn_id: &str,
        total_cpus: String,
        total_ram_in_mib: u32,
        database_instance_type: &str,
        options: DatabaseOptions,
        listeners: Listeners,
    ) -> (r: Self)
        ensures
            r.context == context,
            r.id@ == id@,
            r.action == action,
            r.name@ == name@,
            r.version@ == version@,
            r.fqdn@ == fqdn@,
            r.fqdn_id@ == fqdn_id@,
            r.total_cpus == total_cpus,
            r.total_ram_in_mib == total_ram_in_mib,
            r.database_instance_type@ == database_instance_type@,
            r.options == options,
            r.listeners == listeners,
    {
        RedisAws {
            context,
            action,
            id: String::from_str(id),
            name: String::from_str(name),
            version: String::from_str(version),
            fqdn: String::from_str(fqdn),
            fqdn_id: String::from_str(fqdn_id),
            total_cpus,
            total_ram_in_mib,
            database_instance_type: String::from_str(database_instance_type),
            options,
            listeners,
        }
    }

    /// Looks the version of the database up and sums the look-up up: the
    /// requested and the matched version, or the error of an unsupported
    /// version, with what is to be told.
    pub fn matching_correct_version(&self, is_managed_services: bool, event_details: EventDetails) -> (r:
        (Vec<Notice>, Result<ServiceVersionCheckResult, EngineError>))
        ensures
            match spec_redis_version(self.version@, is_managed_services) {
                Ok(version) => {
                    &&& r.1 matches Ok(check)
                    &&& check.spec_requested_version() == self.version@
                    &&& check.spec_matched_version() == version
                    &&& notices(r.0@) == version_notices(
                        "Redis"@,
                        self.version@,
                        version,
                        self.id@,
                        self.context.execution_id@,
                        event_details,
                    )
                },
                Err(cause) => {
                    &&& r.1 matches Err(e)
                    &&& e@ == version_refused("Redis"@, self.version@, event_details, cause)
                    &&& notices(r.0@) == version_refused_notices(
                        "Redis"@,
                        self.version@,
                        self.id@,
                        self.context.execution_id@,
                        event_details,
                        cause,
                    )
                },
            },
    {
        check_service_version(
            get_redis_version(self.version(), is_managed_services),
            "Redis",
            self.version.as_str(),
            self.id.as_str(),
            self.context.execution_id.as_str(),
            event_details,
        )
    }

    pub fn cloud_provider_name(&self) -> (r: &'static str)
        ensures
            r@ == "aws"@,
    {
        "aws"
    }

    pub fn struct_name(&self) -> (r: &'static str)
        ensures
            r@ == "redis"@,
    {
        "redis"
    }

    /// Whether the cloud provider runs the database.
    pub fn is_managed_service(&self) -> (r: bool)
        ensures
            r == (self.options.mode == DatabaseMode::Managed),
    {
        self.options.mode == DatabaseMode::Managed
    }

    pub fn context(&self) -> (r: &ExecutionContext)
        ensures
            *r == self.context,
    {
        &self.context
    }

    pub fn id(&self) -> (r: &str)
        ensures
            r@ == self.id@,
    {
        self.id.as_str()
    }

    pub fn name(&self) -> (r: &str)
        ensures
            r@ == self.name@,
    {
        self.name.as_str()
    }

    /// The name as ElastiCache takes it: `redis`, then the name without
    /// underscores and hyphens, cut to what the limit of 50 characters leaves.
    pub open spec fn spec_sanitized_name(&self) -> Seq<char> {
        "redis"@ + prefix(without(without(self.name@, '_'), '-'), SANITIZED_NAME_MAX as nat)
    }

    pub fn sanitized_name(&self) -> (r: String)
        ensures
            r@ == self.spec_sanitized_name(),
    {
        let plain = removed(removed(self.name.as_str(), '_').as_str(), '-');
        concat2("redis", cut(plain.as_str(), SANITIZED_NAME_MAX).as_str())
    }

    pub fn version(&self) -> (r: String)
        ensures
            r@ == self.version@,
    {
        self.version.clone()
    }

    pub fn action(&self) -> (r: &Action)
        ensures
            *r == self.action,
    {
        &self.action
    }

    pub fn private_port(&self) -> (r: Option<u16>)
        ensures
            r == Some(self.options.port),
    {
        Some(self.options.port)
    }

    pub fn total_cpus(&self) -> (r: String)
        ensures
            r@ == self.total_cpus@,
    {
        self.total_cpus.clone()
    }

    pub fn total_ram_in_mib(&self) -> (r: u32)
        ensures
            r == self.total_ram_in_mib,
    {
        self.total_ram_in_mib
    }

    pub fn min_instances(&self) -> (r: u32)
        ensures
            r == 1,
    {
        1
    }

    pub fn max_instances(&self) -> (r: u32)
        ensures
            r == 1,
    {
        1
    }

    pub fn publicly_accessible(&self) -> (r: bool)
        ensures
            r == self.options.publicly_accessible,
    {
        self.options.publicly_accessible
    }

    pub fn listeners(&self) -> (r: &Listeners)
        ensures
            *r == self.listeners,
    {
        &self.listeners
    }

    /// Adds a listener behind those that are there.
    pub fn add_listener(&mut self, listener: Listener)
        ensures
            final(self).listeners@ == old(self).listeners@.push(listener),
            final(self).context == old(self).context,
            final(self).id == old(self).id,
            final(self).action == old(self).action,
            final(self).name == old(self).name,
            final(self).version == old(self).version,
            final(self).fqdn == old(self).fqdn,
            final(self).fqdn_id == old(self).fqdn_id,
            final(self).total_cpus == old(self).total_cpus,
            final(self).total_ram_in_mib == old(self).total_ram_in_mib,
            final(self).database_instance_type == old(self).database_instance_type,
            final(self).options == old(self).options,
    {
        self.listeners.push(listener);
    }
}

/// The group of parameters of ElastiCache for a version of Redis, for the
/// versions 5 and 6.
pub open spec fn parameter_group(version: Seq<char>) -> Option<Seq<char>> {
    if "5."@.is_prefix_of(version) {
        Some("default.redis5.0"@)
    } else if "6."@.is_prefix_of(version) {
        Some("default.redis6.x"@)
    } else {
        None
    }
}

/// The name of the final snapshot of a database of AWS.
pub open spec fn final_snapshot_name(id: Seq<char>) -> Seq<char> {
    "qovery-"@ + id + "-final-snap"@
}

/// The name under which the state of the provisioning of a service is kept.
pub open spec fn tfstate_name(id: Seq<char>) -> Seq<char> {
    "tfstate-default-"@ + id
}

impl RedisAws {
    /// Whether `t` names this database as the one that reports.
    pub open spec fn is_transmitter(&self, t: Transmitter) -> bool {
        t matches Transmitter::Database(id, kind, name) && id == self.id && kind@ == "Redis"@
            && name == self.name
    }

    pub fn to_transmitter(&self) -> (r: Transmitter)
        ensures
            self.is_transmitter(r),
    {
        Transmitter::Database(self.id.clone(), String::from_str("Redis"), self.name.clone())
    }

    /// Whether `d` is the context of what this database reports at `stage`.
    pub open spec fn is_event_details(&self, d: EventDetails, stage: Stage) -> bool {
        &&& d.organisation_id == self.context.organization_id
        &&& d.cluster_id == self.context.cluster_id
        &&& d.execution_id == self.context.execution_id
        &&& d.stage == stage
        &&& self.is_transmitter(d.transmitter)
    }

    pub fn get_event_details(&self, stage: Stage) -> (r: EventDetails)
        ensures
            self.is_event_details(r, stage),
    {
        EventDetails {
            organisation_id: self.context.organization_id.clone(),
            cluster_id: self.context.cluster_id.clone(),
            execution_id: self.context.execution_id.clone(),
            stage,
            transmitter: self.to_transmitter(),
        }
    }

    /// The label by which the database is selected in the cluster.
    pub fn selector(&self) -> (r: Option<String>)
        ensures
            r matches Some(s) && s@ == "app="@ + self.spec_sanitized_name(),
    {
        Some(concat2("app=", self.sanitized_name().as_str()))
    }

    pub fn helm_selector(&self) -> (r: Option<String>)
        ensures
            r matches Some(s) && s@ == "app="@ + self.spec_sanitized_name(),
    {
        self.selector()
    }

    /// The name of the release: `redis-` and the id, cut to 50 characters.
    pub fn helm_release_name(&self) -> (r: String)
        ensures
            r@ == prefix("redis-"@ + self.id@, 50),
    {
        cut(concat2("redis-", self.id.as_str()).as_str(), 50)
    }

    pub fn helm_chart_dir(&self) -> (r: String)
        ensures
            r@ == self.context.lib_root_dir@ + "/common/services/redis"@,
    {
        concat2(self.context.lib_root_dir(), "/common/services/redis")
    }

    pub fn helm_chart_values_dir(&self) -> (r: String)
        ensures
            r@ == self.context.lib_root_dir@ + "/aws/chart_values/redis"@,
    {
        concat2(self.context.lib_root_dir(), "/aws/chart_values/redis")
    }

    pub fn helm_chart_external_name_service_dir(&self) -> (r: String)
        ensures
            r@ == self.context.lib_root_dir@ + "/common/charts/external-name-svc"@,
    {
        concat2(self.context.lib_root_dir(), "/common/charts/external-name-svc")
    }

    pub fn terraform_common_resource_dir_path(&self) -> (r: String)
        ensures
            r@ == self.context.lib_root_dir@ + "/aws/services/common"@,
    {
        concat2(self.context.lib_root_dir(), "/aws/services/common")
    }

    pub fn terraform_resource_dir_path(&self) -> (r: String)
        ensures
            r@ == self.context.lib_root_dir@ + "/aws/services/redis"@,
    {
        concat2(self.context.lib_root_dir(), "/aws/services/redis")
    }

    /// Whether `summary` is what every template is told of this database.
    pub open spec fn is_summary(&self, summary: ServiceSummary) -> bool {
        &&& summary.id == self.id
        &&& summary.name == self.name
        &&& summary.sanitized_name@ == self.spec_sanitized_name()
        &&& summary.total_cpus == self.total_cpus
        &&& summary.total_ram_in_mib == self.total_ram_in_mib
        &&& summary.min_instances == 1
        &&& summary.max_instances == 1
        &&& summary.private_port == Some(self.options.port)
        &&& summary.version == self.version
    }

    pub fn summary(&self) -> (r: ServiceSummary)
        ensures
            self.is_summary(r),
    {
        ServiceSummary {
            id: self.id.clone(),
            name: self.name.clone(),
            sanitized_name: self.sanitized_name(),
            total_cpus: self.total_cpus.clone(),
            total_ram_in_mib: self.total_ram_in_mib,
            min_instances: 1,
            max_instances: 1,
            private_port: Some(self.options.port),
            version: self.version.clone(),
        }
    }

    /// The name under which the database is reached: its public name where
    /// it is publicly accessible, and a name within the cluster otherwise.
    pub open spec fn spec_fqdn(&self, target: &DeploymentTarget) -> Seq<char> {
        if self.options.publicly_accessible {
            self.fqdn@
        } else if self.options.mode == DatabaseMode::Managed {
            self.id@ + "-dns."@ + target.environment.namespace@ + ".svc.cluster.local"@
        } else {
            self.spec_sanitized_name() + "."@ + target.environment.namespace@
                + ".svc.cluster.local"@
        }
    }

    pub fn fqdn(&self, target: &DeploymentTarget) -> (r: String)
        ensures
            r@ == self.spec_fqdn(target),
    {
        if self.options.publicly_accessible {
            self.fqdn.clone()
        } else if self.is_managed_service() {
            let mut out = self.id.clone();
            out.append("-dns.");
            out.append(target.environment.namespace.as_str());
            out.append(".svc.cluster.local");
            out
        } else {
            let mut out = self.sanitized_name();
            out.append(".");
            out.append(target.environment.namespace.as_str());
            out.append(".svc.cluster.local");
            out
        }
    }

    /// The values of the templates of this database, for the version `version`
    /// and its group of parameters.
    pub open spec fn tera_entries(
        &self,
        summary: &ServiceSummary,
        target: &DeploymentTarget,
        kube_config_file_path: Seq<char>,
        version: Seq<char>,
        group: Seq<char>,
    ) -> Map<Seq<char>, TemplateValue> {
        let head = default_entries(summary, target).insert(
            "kubeconfig_path"@,
            TemplateValue::Text(kube_config_file_path),
        ).insert("database_elasticache_parameter_group_name"@, TemplateValue::Text(group)).insert(
            "namespace"@,
            TemplateValue::Text(target.environment.namespace@),
        ).insert("version"@, TemplateValue::Text(version));
        let body = with_texts(head, pairs(target.kubernetes.provider_variables@)).insert(
            "kubernetes_cluster_id"@,
            TemplateValue::Text(target.kubernetes.id@),
        ).insert("kubernetes_cluster_name"@, TemplateValue::Text(target.kubernetes.name@)).insert(
            "fqdn_id"@,
            TemplateValue::Text(self.fqdn_id@),
        ).insert("fqdn"@, TemplateValue::Text(self.spec_fqdn(target))).insert(
            "service_name"@,
            TemplateValue::Text(self.fqdn_id@),
        ).insert("database_login"@, TemplateValue::Text(self.options.login@)).insert(
            "database_password"@,
            TemplateValue::Text(self.options.password@),
        ).insert("database_port"@, TemplateValue::Number(self.options.port as u64)).insert(
            "database_disk_size_in_gib"@,
            TemplateValue::Number(self.options.disk_size_in_gib as u64),
        ).insert("database_instance_type"@, TemplateValue::Text(self.database_instance_type@)).insert(
            "database_disk_type"@,
            TemplateValue::Text(self.options.database_disk_type@),
        ).insert(
            "database_ram_size_in_mib"@,
            TemplateValue::Number(self.total_ram_in_mib as u64),
        ).insert("database_total_cpus"@, TemplateValue::Text(self.total_cpus@)).insert(
            "database_fqdn"@,
            TemplateValue::Text(self.options.host@),
        ).insert("database_id"@, TemplateValue::Text(self.id@)).insert(
            "tfstate_suffix_name"@,
            TemplateValue::Text(self.id@),
        ).insert("tfstate_name"@, TemplateValue::Text(tfstate_name(self.id@))).insert(
            "publicly_accessible"@,
            TemplateValue::Flag(self.options.publicly_accessible),
        ).insert("skip_final_snapshot"@, TemplateValue::Flag(false)).insert(
            "final_snapshot_name"@,
            TemplateValue::Text(final_snapshot_name(self.id@)),
        ).insert("delete_automated_backups"@, TemplateValue::Flag(self.context.test_cluster));
        match self.context.resource_expiration_in_seconds {
            Some(seconds) => body.insert(
                "resource_expiration_in_seconds"@,
                TemplateValue::Number(seconds as u64),
            ),
            None => body,
        }
    }

    /// The error of a version of Redis for which ElastiCache has no group of
    /// parameters.
    pub open spec fn unsupported_group(details: EventDetails, version: Seq<char>) -> EngineErrorView {
        EngineError::described(
            Tag::TerraformUnsupportedContextParameterValue,
            details,
            "Elasicache"@ + " value `"@ + ("default.redis"@ + version)
                + "` not supported for parameter `"@
                + "database_elasticache_parameter_group_name"@ + "`"@,
            None,
            None,
        )
    }

    /// The values for the templates of this database on `target`. The
    /// configuration file of the cluster has to be there, the version has to
    /// be supported, and ElastiCache has to have a group of parameters for it:
    /// each of these failing is an error, in this order. With the values comes
    /// what the check of the version tells.
    #[verifier::rlimit(40)]
    pub fn tera_context(
        &self,
        target: &DeploymentTarget,
        kube_config_file_path: Result<String, EngineError>,
    ) -> (r: (Vec<Notice>, Result<tera::Context, EngineError>))
        ensures
            match kube_config_file_path {
                Err(e) => r.1 matches Err(error) && error == e && notices(r.0@) == Seq::<
                    NoticeView,
                >::empty(),
                Ok(path) => match spec_redis_version(
                    self.version@,
                    self.options.mode == DatabaseMode::Managed,
                ) {
                    Err(cause) => r.1 matches Err(error) && exists|d: EventDetails|
                        self.is_event_details(
                            d,
                            Stage::Environment(EnvironmentStep::LoadConfiguration),
                        ) && error@ == version_refused("Redis"@, self.version@, d, cause)
                            && notices(r.0@) == version_refused_notices(
                            "Redis"@,
                            self.version@,
                            self.id@,
                            self.context.execution_id@,
                            d,
                            cause,
                        ),
                    Ok(version) => (exists|d: EventDetails|
                        self.is_event_details(
                            d,
                            Stage::Environment(EnvironmentStep::LoadConfiguration),
                        ) && notices(r.0@) == version_notices(
                            "Redis"@,
                            self.version@,
                            version,
                            self.id@,
                            self.context.execution_id@,
                            d,
                        )) && match parameter_group(version) {
                        None => r.1 matches Err(error) && exists|d: EventDetails|
                            self.is_event_details(
                                d,
                                Stage::Environment(EnvironmentStep::LoadConfiguration),
                            ) && error@ == Self::unsupported_group(d, version),
                        Some(group) => r.1 matches Ok(context) && exists|summary: ServiceSummary|
                            self.is_summary(summary) && context_entries(context)
                                == self.tera_entries(&summary, target, path@, version, group),
                    },
                },
            },
    {
        let event_details = self.get_event_details(
            Stage::Environment(EnvironmentStep::LoadConfiguration),
        );
        let summary = self.summary();
        let mut context = default_tera_context(&summary, target);
        let path = match kube_config_file_path {
            Ok(path) => path,
            Err(e) => {
                return (no_notices(), Err(e));
            },
        };
        insert_text(&mut context, "kubeconfig_path", path.as_str());
        let (told, checked) = self.matching_correct_version(
            self.is_managed_service(),
            event_details.clone(),
        );
        let version = match checked {
            Ok(check) => String::from_str(check.matched_version()),
            Err(e) => {
                return (told, Err(e));
            },
        };
        let group = if starts_with(version.as_str(), "5.") {
            "default.redis5.0"
        } else if starts_with(version.as_str(), "6.") {
            "default.redis6.x"
        } else {
            let error = EngineError::new_terraform_unsupported_context_parameter_value(
                event_details,
                "Elasicache",
                "database_elasticache_parameter_group_name",
                concat2("default.redis", version.as_str()).as_str(),
                None,
            );
            assert(parameter_group(version@) is None);
            assert(error@ == Self::unsupported_group(event_details, version@));
            return (told, Err(error));
        };
        insert_text(&mut context, "database_elasticache_parameter_group_name", group);
        insert_text(&mut context, "namespace", target.environment.namespace.as_str());
        insert_text(&mut context, "version", version.as_str());
        insert_texts(&mut context, &target.kubernetes.provider_variables);
        insert_text(&mut context, "kubernetes_cluster_id", target.kubernetes.id.as_str());
        insert_text(&mut context, "kubernetes_cluster_name", target.kubernetes.name.as_str());
        insert_text(&mut context, "fqdn_id", self.fqdn_id.as_str());
        insert_text(&mut context, "fqdn", self.fqdn(target).as_str());
        insert_text(&mut context, "service_name", self.fqdn_id.as_str());
        insert_text(&mut context, "database_login", self.options.login.as_str());
        insert_text(&mut context, "database_password", self.options.password.as_str());
        insert_number(&mut context, "database_port", self.options.port as u64);
        insert_number(
            &mut context,
            "database_disk_size_in_gib",
            self.options.disk_size_in_gib as u64,
        );
        insert_text(&mut context, "database_instance_type", self.database_instance_type.as_str());
        insert_text(&mut context, "database_disk_type", self.options.database_disk_type.as_str());
        insert_number(&mut context, "database_ram_size_in_mib", self.total_ram_in_mib as u64);
        insert_text(&mut context, "database_total_cpus", self.total_cpus.as_str());
        insert_text(&mut context, "database_fqdn", self.options.host.as_str());
        insert_text(&mut context, "database_id", self.id.as_str());
        insert_text(&mut context, "tfstate_suffix_name", self.id.as_str());
        insert_text(
            &mut context,
            "tfstate_name",
            concat2("tfstate-default-", self.id.as_str()).as_str(),
        );
        insert_flag(&mut context, "publicly_accessible", self.options.publicly_accessible);
        insert_flag(&mut context, "skip_final_snapshot", false);
        insert_text(
            &mut context,
            "final_snapshot_name",
            concat3("qovery-", self.id.as_str(), "-final-snap").as_str(),
        );
        insert_flag(&mut context, "delete_automated_backups", self.context.is_test_cluster());
        match self.context.resource_expiration_in_seconds() {
            Some(seconds) => {
                insert_number(&mut context, "resource_expiration_in_seconds", seconds as u64);
            },
            None => {},
        }
        (told, Ok(context))
    }

    /// What a hook of this database logs: that the hook `fn_name` of the Redis
    /// of AWS was called for this database.
    pub open spec fn hook_notice(&self, fn_name: Seq<char>, n: NoticeView, step: EnvironmentStep) -> bool {
        exists|d: EventDetails|
            self.is_event_details(d, Stage::Environment(step)) && n == action_notice(
                "aws"@,
                "redis"@,
                fn_name,
                self.name@,
                d,
            )
    }

    fn hook(&self, fn_name: &str, step: EnvironmentStep, work: ServiceWork) -> (r: Hook)
        ensures
            r.notice matches Some(n) && self.hook_notice(fn_name@, n@, step),
            r.work == work,
    {
        let details = self.get_event_details(Stage::Environment(step));
        let notice = print_action(
            self.cloud_provider_name(),
            self.struct_name(),
            fn_name,
            self.name.as_str(),
            details,
        );
        Hook { notice: Some(notice), work }
    }

    /// Creating the database: deploy it with its state.
    pub fn on_create(&self) -> (r: Hook)
        ensures
            r.notice matches Some(n) && self.hook_notice("on_create"@, n@, EnvironmentStep::Deploy),
            r.work == ServiceWork::DeployStatefulService,
    {
        self.hook("on_create", EnvironmentStep::Deploy, ServiceWork::DeployStatefulService)
    }

    /// After the creation: check that the name of the database resolves.
    pub fn on_create_check(&self) -> (r: Hook)
        ensures
            r.notice is None,
            r.work matches ServiceWork::CheckDomains(domains) && domains@.len() == 1
                && domains@[0] == self.fqdn,
    {
        let mut domains: Vec<String> = Vec::new();
        domains.push(self.fqdn.clone());
        Hook { notice: None, work: ServiceWork::CheckDomains(domains) }
    }

    /// When the creation has failed: nothing but the log.
    pub fn on_create_error(&self) -> (r: Hook)
        ensures
            r.notice matches Some(n) && self.hook_notice(
                "on_create_error"@,
                n@,
                EnvironmentStep::Deploy,
            ),
            r.work == ServiceWork::Nothing,
    {
        self.hook("on_create_error", EnvironmentStep::Deploy, ServiceWork::Nothing)
    }

    /// Pausing the database: scale it down to no replica.
    pub fn on_pause(&self) -> (r: Hook)
        ensures
            r.notice matches Some(n) && self.hook_notice("on_pause"@, n@, EnvironmentStep::Pause),
            r.work == (ServiceWork::ScaleDownDatabase { replicas: 0 }),
    {
        self.hook("on_pause", EnvironmentStep::Pause, ServiceWork::ScaleDownDatabase { replicas: 0 })
    }

    /// After the pause: nothing.
    pub fn on_pause_check(&self) -> (r: Hook)
        ensures
            r.notice is None,
            r.work == ServiceWork::Nothing,
    {
        Hook { notice: None, work: ServiceWork::Nothing }
    }

    /// When the pause has failed: nothing but the log.
    pub fn on_pause_error(&self) -> (r: Hook)
        ensures
            r.notice matches Some(n) && self.hook_notice(
                "on_pause_error"@,
                n@,
                EnvironmentStep::Pause,
            ),
            r.work == ServiceWork::Nothing,
    {
        self.hook("on_pause_error", EnvironmentStep::Pause, ServiceWork::Nothing)
    }

    /// Deleting the database: delete it with its state.
    pub fn on_delete(&self) -> (r: Hook)
        ensures
            r.notice matches Some(n) && self.hook_notice("on_delete"@, n@, EnvironmentStep::Delete),
            r.work == ServiceWork::DeleteStatefulService,
    {
        self.hook("on_delete", EnvironmentStep::Delete, ServiceWork::DeleteStatefulService)
    }

    /// After the deletion: nothing.
    pub fn on_delete_check(&self) -> (r: Hook)
        ensures
            r.notice is None,
            r.work == ServiceWork::Nothing,
    {
        Hook { notice: None, work: ServiceWork::Nothing }
    }

    /// When the deletion has failed: nothing but the log.
    pub fn on_delete_error(&self) -> (r: Hook)
        ensures
            r.notice matches Some(n) && self.hook_notice(
                "on_delete_error"@,
                n@,
                EnvironmentStep::Delete,
            ),
            r.work == ServiceWork::Nothing,
    {
        self.hook("on_delete_error", EnvironmentStep::Delete, ServiceWork::Nothing)
    }
}

} // verus!
