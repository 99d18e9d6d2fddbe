//! Applications on DigitalOcean: the values that their templates are rendered
//! with.

use crate::build_platform::{Build, EnvironmentVariable, Image};
use crate::cloud_provider::service::{
    default_entries, default_tera_context, Action, DeploymentTarget, ServiceSummary,
};
use crate::cloud_provider::templating::{
    context_entries, flag_field, insert_flag, insert_number, insert_records, insert_text,
    lemma_record_push, number_field, record_of, records_of, text_field, Scalar, TemplateValue,
};
use crate::errors::{CommandError, CommandErrorView, EngineError, EngineErrorView, Tag};
use crate::events::{EnvironmentStep, EventDetails, Stage, Transmitter};
use crate::models::{ExecutionContext, Listeners};
use crate::text::{cut, prefix};
use vstd::prelude::*;
use vstd::string::*;

verus! {

/// The protocol of a port.
#[derive(Clone, Copy, Debug, PartialEq, Eq, Structural)]
pub enum Protocol {
    HTTP,
    TCP,
    UDP,
}

impl Protocol {
    pub open spec fn spec_name(self) -> Seq<char> {
        match self {
            Protocol::HTTP => "HTTP"@,
            Protocol::TCP => "TCP"@,
            Protocol::UDP => "UDP"@,
        }
    }

    pub fn name(self) -> (r: &'static str)
        ensures
            r@ == self.spec_name(),
    {
        match self {
            Protocol::HTTP => "HTTP",
            Protocol::TCP => "TCP",
            Protocol::UDP => "UDP",
        }
    }
}

/// A port of an application.
#[derive(Debug)]
pub struct Port {
    pub id: String,
    pub long_id: String,
    pub port: u16,
    pub public_port: Option<u16>,
    pub name: Option<String>,
    pub publicly_accessible: bool,
    pub protocol: Protocol,
}

/// The kinds of storage of DigitalOcean.
#[derive(Clone, Copy, Debug, PartialEq, Eq, Structural)]
pub enum DoStorageType {
    Standard,
}

/// A volume of an application.
#[derive(Debug)]
pub struct Storage {
    pub id: String,
    pub name: String,
    pub storage_type: DoStorageType,
    pub size_in_gib: u16,
    pub mount_point: String,
    pub snapshot_retention_in_days: u16,
}

/// The CPU that an application asks for and the most that it may use.
#[derive(Debug)]
pub struct CpuLimits {
    pub cpu_request: String,
    pub cpu_limit: String,
}

/// An application on DigitalOcean.
#[derive(Debug)]
pub struct Application {
    pub context: ExecutionContext,
    pub id: String,
    pub action: Action,
    pub name: String,
    pub ports: Vec<Port>,
    pub total_cpus: String,
    pub cpu_burst: String,
    pub total_ram_in_mib: u32,
    pub min_instances: u32,
    pub max_instances: u32,
    pub start_timeout_in_seconds: u32,
    pub build: Build,
    pub storage: Vec<Storage>,
    pub environment_variables: Vec<EnvironmentVariable>,
    pub listeners: Listeners,
}

/// The record of a variable of the environment.
pub open spec fn env_record(ev: EnvironmentVariable) -> Map<Seq<char>, TemplateValue> {
    Map::<Seq<char>, TemplateValue>::empty().insert("key"@, TemplateValue::Text(ev.key@)).insert(
        "value"@,
        TemplateValue::Text(ev.value@),
    )
}

/// The record of a port.
pub open spec fn port_record(port: Port) -> Map<Seq<char>, TemplateValue> {
    Map::<Seq<char>, TemplateValue>::empty().insert("id"@, TemplateValue::Text(port.id@)).insert(
        "long_id"@,
        TemplateValue::Text(port.long_id@),
    ).insert("port"@, TemplateValue::Number(port.port as u64)).insert(
        "public_port"@,
        match port.public_port {
            Some(p) => TemplateValue::Number(p as u64),
            None => TemplateValue::Null,
        },
    ).insert(
        "name"@,
        match port.name {
            Some(n) => TemplateValue::Text(n@),
            None => TemplateValue::Null,
        },
    ).insert("publicly_accessible"@, TemplateValue::Flag(port.publicly_accessible)).insert(
        "protocol"@,
        TemplateValue::Text(port.protocol.spec_name()),
    )
}

/// The record of a volume. Every volume is block storage.
pub open spec fn storage_record(storage: Storage) -> Map<Seq<char>, TemplateValue> {
    Map::<Seq<char>, TemplateValue>::empty().insert("id"@, TemplateValue::Text(storage.id@)).insert(
        "name"@,
        TemplateValue::Text(storage.name@),
    ).insert("storage_type"@, TemplateValue::Text("do-block-storage"@)).insert(
        "size_in_gib"@,
        TemplateValue::Number(storage.size_in_gib as u64),
    ).insert("mount_point"@, TemplateValue::Text(storage.mount_point@)).insert(
        "snapshot_retention_in_days"@,
        TemplateValue::Number(storage.snapshot_retention_in_days as u64),
    )
}

#[verifier::rlimit(40)]
fn env_rows(vars: &Vec<EnvironmentVariable>) -> (rows: Vec<Vec<(String, Scalar)>>)
    ensures
        records_of(rows@) == vars@.map_values(|ev: EnvironmentVariable| env_record(ev)),
{
    let mut rows: Vec<Vec<(String, Scalar)>> = Vec::new();
    let n: usize = vars.len();
    let mut i: usize = 0;
    let ghost f = |ev: EnvironmentVariable| env_record(ev);
    assert(records_of(rows@) =~= vars@.take(0).map_values(f));
    while i < n
        invariant
            i <= n == vars.len(),
            rows@.len() == i,
            f == |ev: EnvironmentVariable| env_record(ev),
            records_of(rows@) == vars@.take(i as int).map_values(f),
        decreases n - i,
    {
        let mut row: Vec<(String, Scalar)> = Vec::new();
        let key = text_field("key", vars[i].key.as_str());
        let value = text_field("value", vars[i].value.as_str());
        proof {
            assert(record_of(row@) =~= Map::<Seq<char>, TemplateValue>::empty());
            lemma_record_push(row@, key);
            lemma_record_push(row@.push(key), value);
        }
        row.push(key);
        row.push(value);
        assert(record_of(row@) == env_record(vars@[i as int]));
        let ghost before = rows@;
        rows.push(row);
        assert(records_of(rows@) =~= vars@.take(i + 1).map_values(f)) by {
            assert(rows@.drop_last() =~= before);
            assert(vars@.take(i + 1).drop_last() =~= vars@.take(i as int));
            assert forall|k: int| 0 <= k < i + 1 implies records_of(rows@)[k] == vars@.take(
                i + 1,
            ).map_values(f)[k] by {
                if k < i {
                    assert(records_of(rows@)[k] == records_of(before)[k]);
                    assert(vars@.take(i + 1).map_values(f)[k] == vars@.take(i as int).map_values(
                        f,
                    )[k]);
                }
            }
        }
        i = i + 1;
    }
    assert(vars@.take(n as int) =~= vars@);
    rows
}

#[verifier::rlimit(40)]
fn port_rows(ports: &Vec<Port>) -> (rows: Vec<Vec<(String, Scalar)>>)
    ensures
        records_of(rows@) == ports@.map_values(|p: Port| port_record(p)),
{
    let mut rows: Vec<Vec<(String, Scalar)>> = Vec::new();
    let n: usize = ports.len();
    let mut i: usize = 0;
    let ghost f = |p: Port| port_record(p);
    assert(records_of(rows@) =~= ports@.take(0).map_values(f));
    while i < n
        invariant
            i <= n == ports.len(),
            rows@.len() == i,
            f == |p: Port| port_record(p),
            records_of(rows@) == ports@.take(i as int).map_values(f),
        decreases n - i,
    {
        let port = &ports[i];
        let mut row: Vec<(String, Scalar)> = Vec::new();
        let f0 = text_field("id", port.id.as_str());
        let f1 = text_field("long_id", port.long_id.as_str());
        let f2 = number_field("port", port.port as u64);
        let f3 = match port.public_port {
            Some(p) => number_field("public_port", p as u64),
            None => (String::from_str("public_port"), Scalar::Null),
        };
        let f4 = match &port.name {
            Some(name) => text_field("name", name.as_str()),
            None => (String::from_str("name"), Scalar::Null),
        };
        let f5 = flag_field("publicly_accessible", port.publicly_accessible);
        let f6 = text_field("protocol", port.protocol.name());
        proof {
            assert(record_of(row@) =~= Map::<Seq<char>, TemplateValue>::empty());
            lemma_record_push(row@, f0);
            lemma_record_push(row@.push(f0), f1);
            lemma_record_push(row@.push(f0).push(f1), f2);
            lemma_record_push(row@.push(f0).push(f1).push(f2), f3);
            lemma_record_push(row@.push(f0).push(f1).push(f2).push(f3), f4);
            lemma_record_push(row@.push(f0).push(f1).push(f2).push(f3).push(f4), f5);
            lemma_record_push(row@.push(f0).push(f1).push(f2).push(f3).push(f4).push(f5), f6);
        }
        row.push(f0);
        row.push(f1);
        row.push(f2);
        row.push(f3);
        row.push(f4);
        row.push(f5);
        row.push(f6);
        assert(record_of(row@) == port_record(ports@[i as int]));
        let ghost before = rows@;
        rows.push(row);
        assert(records_of(rows@) =~= ports@.take(i + 1).map_values(f)) by {
            assert(rows@.drop_last() =~= before);
            assert forall|k: int| 0 <= k < i + 1 implies records_of(rows@)[k] == ports@.take(
                i + 1,
            ).map_values(f)[k] by {
                if k < i {
                    assert(records_of(rows@)[k] == records_of(before)[k]);
                    assert(ports@.take(i + 1).map_values(f)[k] == ports@.take(i as int).map_values(
                        f,
                    )[k]);
                }
            }
        }
        i = i + 1;
    }
    assert(ports@.take(n as int) =~= ports@);
    rows
}

#[verifier::rlimit(40)]
fn storage_rows(storage: &Vec<Storage>) -> (rows: Vec<Vec<(String, Scalar)>>)
    ensures
        records_of(rows@) == storage@.map_values(|s: Storage| storage_record(s)),
        rows@.len() == storage@.len(),
{
    let mut rows: Vec<Vec<(String, Scalar)>> = Vec::new();
    let n: usize = storage.len();
    let mut i: usize = 0;
    let ghost f = |s: Storage| storage_record(s);
    assert(records_of(rows@) =~= storage@.take(0).map_values(f));
    while i < n
        invariant
            i <= n == storage.len(),
            rows@.len() == i,
            f == |s: Storage| storage_record(s),
            records_of(rows@) == storage@.take(i as int).map_values(f),
        decreases n - i,
    {
        let s = &storage[i];
        let mut row: Vec<(String, Scalar)> = Vec::new();
        let f0 = text_field("id", s.id.as_str());
        let f1 = text_field("name", s.name.as_str());
        let f2 = match s.storage_type {
            DoStorageType::Standard => text_field("storage_type", "do-block-storage"),
        };
        let f3 = number_field("size_in_gib", s.size_in_gib as u64);
        let f4 = text_field("mount_point", s.mount_point.as_str());
        let f5 = number_field("snapshot_retention_in_days", s.snapshot_retention_in_days as u64);
        proof {
            assert(record_of(row@) =~= Map::<Seq<char>, TemplateValue>::empty());
            lemma_record_push(row@, f0);
            lemma_record_push(row@.push(f0), f1);
            lemma_record_push(row@.push(f0).push(f1), f2);
            lemma_record_push(row@.push(f0).push(f1).push(f2), f3);
            lemma_record_push(row@.push(f0).push(f1).push(f2).push(f3), f4);
            lemma_record_push(row@.push(f0).push(f1).push(f2).push(f3).push(f4), f5);
        }
        row.push(f0);
        row.push(f1);
        row.push(f2);
        row.push(f3);
        row.push(f4);
        row.push(f5);
        assert(record_of(row@) == storage_record(storage@[i as int]));
        let ghost before = rows@;
        rows.push(row);
        assert(records_of(rows@) =~= storage@.take(i + 1).map_values(f)) by {
            assert(rows@.drop_last() =~= before);
            assert forall|k: int| 0 <= k < i + 1 implies records_of(rows@)[k] == storage@.take(
                i + 1,
            ).map_values(f)[k] by {
                if k < i {
                    assert(records_of(rows@)[k] == records_of(before)[k]);
                    assert(storage@.take(i + 1).map_values(f)[k] == storage@.take(
                        i as int,
                    ).map_values(f)[k]);
                }
            }
        }
        i = i + 1;
    }
    assert(storage@.take(n as int) =~= storage@);
    rows
}

/// The name of an image with its registry, where that is known, and its tag.
pub open spec fn spec_full_image_name_with_tag(image: &Image) -> Seq<char> {
    match image.registry_url {
        Some(url) => url@ + "/"@ + image.spec_name_with_tag(),
        None => image.spec_name_with_tag(),
    }
}

/// The name of an image with its registry, where that is known, and its tag.
pub fn full_image_name_with_tag(image: &Image) -> (r: String)
    ensures
        r@ == spec_full_image_name_with_tag(image),
{
    match &image.registry_url {
        Some(url) => {
            let mut out = url.clone();
            out.append("/");
            out.append(image.name_with_tag().as_str());
            out
        },
        None => image.name_with_tag(),
    }
}

impl Application {
    /// Whether `d` is the context of what this application reports while its
    /// configuration is loaded.
    pub open spec fn is_event_details(&self, d: EventDetails) -> bool {
        &&& d.organisation_id == self.context.organization_id
        &&& d.cluster_id == self.context.cluster_id
        &&& d.execution_id == self.context.execution_id
        &&& d.stage == Stage::Environment(EnvironmentStep::LoadConfiguration)
        &&& d.transmitter == Transmitter::Application(self.id, self.name)
    }

    pub fn get_event_details(&self) -> (r: EventDetails)
        ensures
            self.is_event_details(r),
    {
        EventDetails {
            organisation_id: self.context.organization_id.clone(),
            cluster_id: self.context.cluster_id.clone(),
            execution_id: self.context.execution_id.clone(),
            stage: Stage::Environment(EnvironmentStep::LoadConfiguration),
            transmitter: Transmitter::Application(self.id.clone(), self.name.clone()),
        }
    }

    /// The error of CPU limits that do not fit together.
    pub open spec fn cpu_error(&self, d: EventDetails, cause: CommandErrorView) -> EngineErrorView {
        EngineError::described(
            Tag::K8sValidateRequiredCPUandBurstableError,
            d,
            "Error while trying to validate required CPU ("@ + self.total_cpus@
                + ") and burstable ("@ + self.cpu_burst@ + ")."@,
            Some(cause),
            None,
        )
    }

    /// The values of the templates of this application.
    pub open spec fn tera_entries(
        &self,
        summary: &ServiceSummary,
        target: &DeploymentTarget,
        limits: CpuLimits,
    ) -> Map<Seq<char>, TemplateValue> {
        let body = default_entries(summary, target).insert(
            "helm_app_version"@,
            TemplateValue::Text(prefix(self.build.image.commit_id@, 7)),
        ).insert(
            "image_name_with_tag"@,
            TemplateValue::Text(spec_full_image_name_with_tag(&self.build.image)),
        ).insert("cpu_burst"@, TemplateValue::Text(limits.cpu_limit@)).insert(
            "environment_variables"@,
            TemplateValue::Records(
                self.environment_variables@.map_values(|ev: EnvironmentVariable| env_record(ev)),
            ),
        ).insert(
            "ports"@,
            TemplateValue::Records(self.ports@.map_values(|p: Port| port_record(p))),
        ).insert("is_registry_secret"@, TemplateValue::Flag(true)).insert(
            "registry_secret"@,
            TemplateValue::Text("do-container-registry-secret-for-cluster"@),
        ).insert(
            "storage"@,
            TemplateValue::Records(self.storage@.map_values(|s: Storage| storage_record(s))),
        ).insert("is_storage"@, TemplateValue::Flag(self.storage@.len() > 0)).insert(
            "clone"@,
            TemplateValue::Flag(false),
        ).insert(
            "start_timeout_in_seconds"@,
            TemplateValue::Number(self.start_timeout_in_seconds as u64),
        );
        match self.context.resource_expiration_in_seconds {
            Some(seconds) => body.insert(
                "resource_expiration_in_seconds"@,
                TemplateValue::Number(seconds as u64),
            ),
            None => body,
        }
    }

    /// The values for the templates of this application on `target`, given
    /// what every template is told of the application and the CPU limits that
    /// were settled for it. Limits that could not be settled are an error. The
    /// version of the chart is the beginning of the commit of the image, which
    /// has to have seven characters at least.
    #[verifier::rlimit(40)]
    pub fn to_tera_context(
        &self,
        summary: &ServiceSummary,
        target: &DeploymentTarget,
        cpu_limits: Result<CpuLimits, CommandError>,
    ) -> (r: Result<tera::Context, EngineError>)
        requires
            self.build.image.commit_id@.len() >= 7,
        ensures
            match cpu_limits {
                Ok(limits) => r matches Ok(context) && context_entries(context)
                    == self.tera_entries(summary, target, limits),
                Err(cause) => r matches Err(e) && exists|d: EventDetails|
                    self.is_event_details(d) && e@ == self.cpu_error(d, cause@),
            },
    {
        let event_details = self.get_event_details();
        let mut context = default_tera_context(summary, target);
        insert_text(
            &mut context,
            "helm_app_version",
            cut(self.build.image.commit_id.as_str(), 7).as_str(),
        );
        insert_text(
            &mut context,
            "image_name_with_tag",
            full_image_name_with_tag(&self.build.image).as_str(),
        );
        let limits = match cpu_limits {
            Ok(limits) => limits,
            Err(cause) => {
                let error = EngineError::new_k8s_validate_required_cpu_and_burstable_error(
                    event_details,
                    self.total_cpus.as_str(),
                    self.cpu_burst.as_str(),
                    cause,
                );
                assert(error@ == self.cpu_error(event_details, cause@));
                return Err(error);
            },
        };
        insert_text(&mut context, "cpu_burst", limits.cpu_limit.as_str());
        insert_records(&mut context, "environment_variables", env_rows(&self.environment_variables));
        insert_records(&mut context, "ports", port_rows(&self.ports));
        insert_flag(&mut context, "is_registry_secret", true);
        insert_text(&mut context, "registry_secret", "do-container-registry-secret-for-cluster");
        let storage = storage_rows(&self.storage);
        let is_storage = storage.len() > 0;
        insert_records(&mut context, "storage", storage);
        insert_flag(&mut context, "is_storage", is_storage);
        insert_flag(&mut context, "clone", false);
        insert_number(
            &mut context,
            "start_timeout_in_seconds",
            self.start_timeout_in_seconds as u64,
        );
        match self.context.resource_expiration_in_seconds() {
            Some(seconds) => {
                insert_number(&mut context, "resource_expiration_in_seconds", seconds as u64);
            },
            None => {},
        }
        Ok(context)
    }
}

} // verus!
