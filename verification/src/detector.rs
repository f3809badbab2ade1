//! The platform probes and the detection chain: each probe inspects the
//! metadata tree and the process environment and either yields a complete
//! attribute set or a recoverable failure naming the missing signal.

use vstd::prelude::*;

use crate::attrs::{
    attrs_has, attrs_lookup, lemma_lookup1, lemma_lookup2, lemma_lookup3, lemma_lookup4,
    lemma_lookup_append, AttrVal, AttributeSet,
};
use crate::error::OpenTelemetryError;
use crate::meta::{get_val, lookup_path, MetaValue};
use crate::strutil::{count_char, count_char_in, last_segment, last_segment_of, trim_spaces, trimmed};
use crate::zone::{parse_zone, zone_name, zone_path_ok, zone_region};

verus! {

/// The process environment as the probes see it: the set environment
/// variables, and the contents of the service-account namespace file when it
/// was readable.
#[derive(Debug, PartialEq)]
pub struct Environment {
    pub vars: Vec<(String, String)>,
    pub namespace_file: Option<String>,
}

/// The mathematical shape of an `Environment`.
pub struct EnvView {
    pub vars: Seq<(Seq<char>, Seq<char>)>,
    pub namespace_file: Option<Seq<char>>,
}

impl View for Environment {
    type V = EnvView;

    open spec fn view(&self) -> EnvView {
        EnvView {
            vars: self.vars@.map_values(|p: (String, String)| (p.0@, p.1@)),
            namespace_file: match self.namespace_file {
                Some(c) => Some(c@),
                None => None,
            },
        }
    }
}

/// The value of the variable named `name`: the first binding that carries it.
pub open spec fn env_lookup_vars(vars: Seq<(Seq<char>, Seq<char>)>, name: Seq<char>) -> Option<
    Seq<char>,
>
    decreases vars.len(),
{
    if vars.len() == 0 {
        None
    } else if vars[0].0 == name {
        Some(vars[0].1)
    } else {
        env_lookup_vars(vars.drop_first(), name)
    }
}

/// The value of the variable named `name` in the environment.
pub open spec fn env_lookup(env: EnvView, name: Seq<char>) -> Option<Seq<char>> {
    env_lookup_vars(env.vars, name)
}

impl Environment {
    /// An environment with no variables set and no namespace file.
    pub fn new() -> (r: Self)
        ensures
            r@.vars =~= Seq::<(Seq<char>, Seq<char>)>::empty(),
            r@.namespace_file is None,
    {
        Environment { vars: Vec::new(), namespace_file: None }
    }

    /// Record a set variable.
    pub fn set_var(&mut self, name: &str, value: &str)
        ensures
            final(self)@.vars =~= old(self)@.vars.push((name@, value@)),
            final(self)@.namespace_file == old(self)@.namespace_file,
    {
        self.vars.push((name.to_owned(), value.to_owned()));
    }

    /// The value of the variable named `name`, if it is set.
    pub fn get(&self, name: &str) -> (r: Option<&String>)
        ensures
            match env_lookup(self@, name@) {
                Some(v) => r matches Some(x) && x@ == v,
                None => r is None,
            },
    {
        proof {
            assert(self@.vars.skip(0) =~= self@.vars);
        }
        let mut j: usize = 0;
        while j < self.vars.len()
            invariant
                self@.vars.len() == self.vars@.len(),
                j <= self.vars@.len(),
                env_lookup(self@, name@) == env_lookup_vars(self@.vars.skip(j as int), name@),
            decreases self.vars@.len() - j,
        {
            proof {
                assert(self@.vars.skip(j as int)[0] == self@.vars[j as int]);
                assert(self@.vars.skip(j as int).drop_first() =~= self@.vars.skip(j + 1));
            }
            if crate::strutil::str_eq(self.vars[j].0.as_str(), name) {
                return Some(&self.vars[j].1);
            }
            j = j + 1;
        }
        None
    }
}

/// A string found in the metadata tree under the given key path; nothing when
/// the path is missing or leads to a value of another kind.
pub open spec fn meta_str(m: MetaValue, keys: Seq<Seq<char>>) -> Option<Seq<char>> {
    match lookup_path(m, keys) {
        Some(v) => match v {
            MetaValue::Str(s) => Some(s@),
            _ => None,
        },
        None => None,
    }
}

fn get_str2<'a>(m: &'a MetaValue, k1: &str, k2: &str) -> (r: Option<&'a String>)
    ensures
        match meta_str(*m, seq![k1@, k2@]) {
            Some(t) => r matches Some(x) && x@ == t,
            None => r is None,
        },
{
    let mut keys: Vec<&str> = Vec::new();
    keys.push(k1);
    keys.push(k2);
    proof {
        assert(keys@.map_values(|k: &str| k@) =~= seq![k1@, k2@]);
    }
    match get_val(m, keys.as_slice(), None) {
        Some(v) => match v {
            MetaValue::Str(s) => Some(s),
            _ => None,
        },
        None => None,
    }
}

fn get_str3<'a>(m: &'a MetaValue, k1: &str, k2: &str, k3: &str) -> (r: Option<&'a String>)
    ensures
        match meta_str(*m, seq![k1@, k2@, k3@]) {
            Some(t) => r matches Some(x) && x@ == t,
            None => r is None,
        },
{
    let mut keys: Vec<&str> = Vec::new();
    keys.push(k1);
    keys.push(k2);
    keys.push(k3);
    proof {
        assert(keys@.map_values(|k: &str| k@) =~= seq![k1@, k2@, k3@]);
    }
    match get_val(m, keys.as_slice(), None) {
        Some(v) => match v {
            MetaValue::Str(s) => Some(s),
            _ => None,
        },
        None => None,
    }
}

/// The project id the metadata reports.
pub open spec fn meta_project_id(m: MetaValue) -> Option<Seq<char>> {
    meta_str(m, seq!["project"@, "projectId"@])
}

/// The zone path the metadata reports.
pub open spec fn meta_zone(m: MetaValue) -> Option<Seq<char>> {
    meta_str(m, seq!["instance"@, "zone"@])
}

/// Both fields every probe needs are present as strings.
pub open spec fn common_ok(m: MetaValue) -> bool {
    meta_project_id(m) is Some && meta_zone(m) is Some
}

/// The two attributes shared by every platform: the account id and the cloud
/// provider marker.
pub open spec fn common_attrs(m: MetaValue) -> Seq<(Seq<char>, AttrVal)> {
    seq![
        ("cloud.account.id"@, AttrVal::Text(meta_project_id(m)->Some_0)),
        ("cloud.provider"@, AttrVal::Text("gcp"@)),
    ]
}

/// Which message the common extraction fails with.
pub open spec fn common_err(m: MetaValue) -> Seq<char> {
    if meta_project_id(m) is None {
        "project id not found"@
    } else {
        "zone not found"@
    }
}

/// Pull the attributes common to every platform out of the metadata: the
/// project id as the cloud account id, and the fixed provider marker. Fails
/// without a partial result when the project id or the zone is absent or not
/// a string.
pub fn get_metadata_resources(metadata: &MetaValue) -> (r: Result<
    AttributeSet,
    OpenTelemetryError,
>)
    ensures
        common_ok(*metadata) ==> (r matches Ok(a) && a@ =~= common_attrs(*metadata)),
        !common_ok(*metadata) ==> (r matches Err(e) && e@ == common_err(*metadata)),
{
    let project_id = match get_str2(metadata, "project", "projectId") {
        Some(s) => s,
        None => {
            return Err(OpenTelemetryError::new("project id not found"));
        },
    };
    match get_str2(metadata, "instance", "zone") {
        Some(_) => (),
        None => {
            return Err(OpenTelemetryError::new("zone not found"));
        },
    };
    let mut attrs = AttributeSet::new();
    attrs.push_text("cloud.account.id", project_id.as_str());
    attrs.push_text("cloud.provider", "gcp");
    proof {
        assert(attrs@ =~= common_attrs(*metadata));
    }
    Ok(attrs)
}

/// The instance id the metadata reports.
pub open spec fn meta_host_id(m: MetaValue) -> Option<Seq<char>> {
    meta_str(m, seq!["instance"@, "id"@])
}

/// The machine type the metadata reports.
pub open spec fn meta_machine_type(m: MetaValue) -> Option<Seq<char>> {
    meta_str(m, seq!["instance"@, "machineType"@])
}

/// The instance name the metadata reports.
pub open spec fn meta_instance_name(m: MetaValue) -> Option<Seq<char>> {
    meta_str(m, seq!["instance"@, "name"@])
}

/// Everything the virtual-machine probe requires is present.
pub open spec fn gce_ok(m: MetaValue) -> bool {
    &&& common_ok(m)
    &&& meta_host_id(m) is Some
    &&& meta_machine_type(m) is Some
    &&& meta_instance_name(m) is Some
}

/// The zone parsed out of the compound zone path (empty when the path does
/// not match).
pub open spec fn gce_zone_text(m: MetaValue) -> Seq<char> {
    let z = meta_zone(m)->Some_0;
    if zone_path_ok(z) {
        zone_name(z)
    } else {
        Seq::empty()
    }
}

/// The region parsed out of the compound zone path (empty when the path does
/// not match).
pub open spec fn gce_region_text(m: MetaValue) -> Seq<char> {
    let z = meta_zone(m)->Some_0;
    if zone_path_ok(z) {
        zone_region(z)
    } else {
        Seq::empty()
    }
}

/// What the virtual-machine probe detects.
pub open spec fn gce_attrs(m: MetaValue) -> Seq<(Seq<char>, AttrVal)> {
    common_attrs(m) + seq![
        ("cloud.platform"@, AttrVal::Text("gcp_compute_engine"@)),
        ("cloud.availability_zone"@, AttrVal::Text(gce_zone_text(m))),
        ("cloud.region"@, AttrVal::Text(gce_region_text(m))),
        ("host.type"@, AttrVal::Text(meta_machine_type(m)->Some_0)),
        ("host.id"@, AttrVal::Text(meta_host_id(m)->Some_0)),
        ("host.name"@, AttrVal::Text(meta_instance_name(m)->Some_0)),
    ]
}

/// Which message the virtual-machine probe fails with.
pub open spec fn gce_err(m: MetaValue) -> Seq<char> {
    if !common_ok(m) {
        common_err(m)
    } else if meta_host_id(m) is None {
        "host id not found"@
    } else {
        "not gce resources"@
    }
}

/// The generic virtual-machine probe: requires the instance id, machine
/// type, zone and name; the zone path is parsed into region and zone.
pub fn get_gce_resources(metadata: &MetaValue) -> (r: Result<AttributeSet, OpenTelemetryError>)
    ensures
        gce_ok(*metadata) ==> (r matches Ok(a) && a@ =~= gce_attrs(*metadata)),
        !gce_ok(*metadata) ==> (r matches Err(e) && e@ == gce_err(*metadata)),
{
    let mut attrs = match get_metadata_resources(metadata) {
        Ok(a) => a,
        Err(e) => {
            return Err(e);
        },
    };
    let host_id = match get_str2(metadata, "instance", "id") {
        Some(s) => s,
        None => {
            return Err(OpenTelemetryError::new("host id not found"));
        },
    };
    let machine_type = match get_str2(metadata, "instance", "machineType") {
        Some(s) => s,
        None => {
            return Err(OpenTelemetryError::new("not gce resources"));
        },
    };
    let zone_and_region = match get_str2(metadata, "instance", "zone") {
        Some(s) => parse_zone(s.as_str()),
        None => {
            return Err(OpenTelemetryError::new("not gce resources"));
        },
    };
    let host_name = match get_str2(metadata, "instance", "name") {
        Some(s) => s,
        None => {
            return Err(OpenTelemetryError::new("not gce resources"));
        },
    };
    attrs.push_text("cloud.platform", "gcp_compute_engine");
    attrs.push_text("cloud.availability_zone", zone_and_region.zone.as_str());
    attrs.push_text("cloud.region", zone_and_region.region.as_str());
    attrs.push_text("host.type", machine_type.as_str());
    attrs.push_text("host.id", host_id.as_str());
    attrs.push_text("host.name", host_name.as_str());
    proof {
        assert(attrs@ =~= gce_attrs(*metadata));
    }
    Ok(attrs)
}

/// The cluster name the metadata reports.
pub open spec fn meta_cluster_name(m: MetaValue) -> Option<Seq<char>> {
    meta_str(m, seq!["instance"@, "attributes"@, "cluster-name"@])
}

/// The cluster location the metadata reports.
pub open spec fn meta_cluster_location(m: MetaValue) -> Option<Seq<char>> {
    meta_str(m, seq!["instance"@, "attributes"@, "cluster-location"@])
}

/// Everything the Kubernetes probe requires is present.
pub open spec fn gke_ok(m: MetaValue, env: EnvView) -> bool {
    &&& env_lookup(env, "KUBERNETES_SERVICE_HOST"@) is Some
    &&& common_ok(m)
    &&& meta_cluster_name(m) is Some
    &&& meta_host_id(m) is Some
}

/// The container-name attribute, present exactly when the variable is set.
pub open spec fn gke_container_attrs(env: EnvView) -> Seq<(Seq<char>, AttrVal)> {
    match env_lookup(env, "CONTAINER_NAME"@) {
        Some(v) => seq![("container.name"@, AttrVal::Text(v))],
        None => Seq::empty(),
    }
}

/// The namespace: the `NAMESPACE` variable verbatim when set, else the
/// trimmed namespace file, else empty. Never a failure.
pub open spec fn gke_namespace(env: EnvView) -> Seq<char> {
    match env_lookup(env, "NAMESPACE"@) {
        Some(v) => v,
        None => match env.namespace_file {
            Some(c) => trimmed(c),
            None => Seq::empty(),
        },
    }
}

/// The pod name: `POD_NAME` when set, else `HOSTNAME`, else empty. Never a
/// failure.
pub open spec fn gke_pod_name(env: EnvView) -> Seq<char> {
    match env_lookup(env, "POD_NAME"@) {
        Some(v) => v,
        None => match env_lookup(env, "HOSTNAME"@) {
            Some(v) => v,
            None => Seq::empty(),
        },
    }
}

/// The location attribute taken from the cluster location: one internal
/// hyphen marks a region, two mark an availability zone, any other count is
/// dropped.
pub open spec fn gke_location_attrs(m: MetaValue) -> Seq<(Seq<char>, AttrVal)> {
    match meta_cluster_location(m) {
        Some(loc) => if count_char(loc, '-') == 1 {
            seq![("cloud.region"@, AttrVal::Text(loc))]
        } else if count_char(loc, '-') == 2 {
            seq![("cloud.availability_zone"@, AttrVal::Text(loc))]
        } else {
            Seq::empty()
        },
        None => Seq::empty(),
    }
}

/// The namespace, pod-name and cluster-name attributes of the Kubernetes
/// probe.
pub open spec fn gke_mid_attrs(m: MetaValue, env: EnvView) -> Seq<(Seq<char>, AttrVal)> {
    seq![
        ("k8s.namespace.name"@, AttrVal::Text(gke_namespace(env))),
        ("k8s.pod.name"@, AttrVal::Text(gke_pod_name(env))),
        ("k8s.cluster.name"@, AttrVal::Text(meta_cluster_name(m)->Some_0)),
    ]
}

/// The zone, host-id and platform-marker attributes of the Kubernetes probe.
pub open spec fn gke_tail_attrs(m: MetaValue) -> Seq<(Seq<char>, AttrVal)> {
    seq![
        ("cloud.zone"@, AttrVal::Text(last_segment(meta_zone(m)->Some_0, '/'))),
        ("host.id"@, AttrVal::Text(meta_host_id(m)->Some_0)),
        ("gcp.resource_type"@, AttrVal::Text("gke_container"@)),
        ("cloud.platform"@, AttrVal::Text("gcp_kubernetes_engine"@)),
    ]
}

/// What the Kubernetes probe detects.
pub open spec fn gke_attrs(m: MetaValue, env: EnvView) -> Seq<(Seq<char>, AttrVal)> {
    common_attrs(m) + gke_container_attrs(env) + gke_mid_attrs(m, env) + gke_location_attrs(m)
        + gke_tail_attrs(m)
}

/// Which message the Kubernetes probe fails with.
pub open spec fn gke_err(m: MetaValue, env: EnvView) -> Seq<char> {
    if env_lookup(env, "KUBERNETES_SERVICE_HOST"@) is None {
        "KUBERNETES_SERVICE_HOST not found"@
    } else if !common_ok(m) {
        common_err(m)
    } else if meta_cluster_name(m) is None {
        "cluster name not found"@
    } else {
        "host id not found"@
    }
}

/// The Kubernetes probe: gated on `KUBERNETES_SERVICE_HOST`, it requires the
/// cluster name, the zone and the instance id, resolves the namespace and
/// pod name from the environment with silent empty defaults, and classifies
/// the cluster location by its hyphen count.
pub fn get_gke_resources(metadata: &MetaValue, env: &Environment) -> (r: Result<
    AttributeSet,
    OpenTelemetryError,
>)
    ensures
        gke_ok(*metadata, env@) ==> (r matches Ok(a) && a@ =~= gke_attrs(*metadata, env@)),
        !gke_ok(*metadata, env@) ==> (r matches Err(e) && e@ == gke_err(*metadata, env@)),
{
    match env.get("KUBERNETES_SERVICE_HOST") {
        Some(_) => (),
        None => {
            return Err(OpenTelemetryError::new("KUBERNETES_SERVICE_HOST not found"));
        },
    };
    let mut attrs = match get_metadata_resources(metadata) {
        Ok(a) => a,
        Err(e) => {
            return Err(e);
        },
    };
    match env.get("CONTAINER_NAME") {
        Some(container_name) => {
            attrs.push_text("container.name", container_name.as_str());
        },
        None => (),
    };
    let pod_namespace: String = match env.get("NAMESPACE") {
        Some(v) => v.clone(),
        None => match &env.namespace_file {
            Some(content) => trim_spaces(content.as_str()),
            None => String::new(),
        },
    };
    attrs.push_text("k8s.namespace.name", pod_namespace.as_str());
    let pod_name: String = match env.get("POD_NAME") {
        Some(v) => v.clone(),
        None => match env.get("HOSTNAME") {
            Some(v) => v.clone(),
            None => String::new(),
        },
    };
    attrs.push_text("k8s.pod.name", pod_name.as_str());
    let cluster_name = match get_str3(metadata, "instance", "attributes", "cluster-name") {
        Some(s) => s,
        None => {
            return Err(OpenTelemetryError::new("cluster name not found"));
        },
    };
    attrs.push_text("k8s.cluster.name", cluster_name.as_str());
    match get_str3(metadata, "instance", "attributes", "cluster-location") {
        Some(cluster_location) => {
            let hyphens = count_char_in(cluster_location.as_str(), '-');
            if hyphens == 1 {
                attrs.push_text("cloud.region", cluster_location.as_str());
            } else if hyphens == 2 {
                attrs.push_text("cloud.availability_zone", cluster_location.as_str());
            }
        },
        None => (),
    };
    match get_str2(metadata, "instance", "zone") {
        Some(zone) => {
            let seg = last_segment_of(zone.as_str(), '/');
            attrs.push_text("cloud.zone", seg.as_str());
        },
        None => {
            return Err(OpenTelemetryError::new("zone not found"));
        },
    };
    let host_id = match get_str2(metadata, "instance", "id") {
        Some(s) => s,
        None => {
            return Err(OpenTelemetryError::new("host id not found"));
        },
    };
    attrs.push_text("host.id", host_id.as_str());
    attrs.push_text("gcp.resource_type", "gke_container");
    attrs.push_text("cloud.platform", "gcp_kubernetes_engine");
    proof {
        assert(attrs@ =~= gke_attrs(*metadata, env@));
    }
    Ok(attrs)
}

/// The region path the metadata reports.
pub open spec fn meta_region(m: MetaValue) -> Option<Seq<char>> {
    meta_str(m, seq!["instance"@, "region"@])
}

/// Everything a serverless probe gated on `gate` requires is present.
pub open spec fn serverless_ok(m: MetaValue, env: EnvView, gate: Seq<char>) -> bool {
    &&& env_lookup(env, gate) is Some
    &&& common_ok(m)
    &&& meta_region(m) is Some
    &&& meta_host_id(m) is Some
}

/// The function-name attribute, present exactly when `K_SERVICE` is set
/// (even to the empty string).
pub open spec fn faas_name_attrs(env: EnvView) -> Seq<(Seq<char>, AttrVal)> {
    match env_lookup(env, "K_SERVICE"@) {
        Some(v) => seq![("faas.name"@, AttrVal::Text(v))],
        None => Seq::empty(),
    }
}

/// The function-version attribute, present exactly when `K_REVISION` is set.
pub open spec fn faas_version_attrs(env: EnvView) -> Seq<(Seq<char>, AttrVal)> {
    match env_lookup(env, "K_REVISION"@) {
        Some(v) => seq![("faas.version"@, AttrVal::Text(v))],
        None => Seq::empty(),
    }
}

/// What a serverless probe detects, up to its platform markers.
pub open spec fn serverless_attrs(
    m: MetaValue,
    env: EnvView,
    platform: Seq<char>,
    rtype: Seq<char>,
) -> Seq<(Seq<char>, AttrVal)> {
    common_attrs(m) + faas_name_attrs(env) + faas_version_attrs(env) + seq![
        ("cloud.region"@, AttrVal::Text(last_segment(meta_region(m)->Some_0, '/'))),
        ("cloud.zone"@, AttrVal::Text(last_segment(meta_zone(m)->Some_0, '/'))),
        ("faas.instance"@, AttrVal::Text(meta_host_id(m)->Some_0)),
        ("cloud.platform"@, AttrVal::Text(platform)),
        ("gcp.resource_type"@, AttrVal::Text(rtype)),
    ]
}

/// Which message a serverless probe gated on `gate` fails with.
pub open spec fn serverless_err(
    m: MetaValue,
    env: EnvView,
    gate: Seq<char>,
    gate_msg: Seq<char>,
) -> Seq<char> {
    if env_lookup(env, gate) is None {
        gate_msg
    } else if !common_ok(m) {
        common_err(m)
    } else if meta_region(m) is None {
        "region not found"@
    } else {
        "instance id not found"@
    }
}

fn get_serverless_resources(
    metadata: &MetaValue,
    env: &Environment,
    gate: &str,
    gate_msg: &str,
    platform: &str,
    rtype: &str,
) -> (r: Result<AttributeSet, OpenTelemetryError>)
    ensures
        serverless_ok(*metadata, env@, gate@) ==> (r matches Ok(a) && a@ =~= serverless_attrs(
            *metadata,
            env@,
            platform@,
            rtype@,
        )),
        !serverless_ok(*metadata, env@, gate@) ==> (r matches Err(e) && e@ == serverless_err(
            *metadata,
            env@,
            gate@,
            gate_msg@,
        )),
{
    match env.get(gate) {
        Some(_) => (),
        None => {
            return Err(OpenTelemetryError::new(gate_msg));
        },
    };
    let mut attrs = match get_metadata_resources(metadata) {
        Ok(a) => a,
        Err(e) => {
            return Err(e);
        },
    };
    match env.get("K_SERVICE") {
        Some(faas_name) => {
            attrs.push_text("faas.name", faas_name.as_str());
        },
        None => (),
    };
    match env.get("K_REVISION") {
        Some(faas_version) => {
            attrs.push_text("faas.version", faas_version.as_str());
        },
        None => (),
    };
    match get_str2(metadata, "instance", "region") {
        Some(region) => {
            let seg = last_segment_of(region.as_str(), '/');
            attrs.push_text("cloud.region", seg.as_str());
        },
        None => {
            return Err(OpenTelemetryError::new("region not found"));
        },
    };
    match get_str2(metadata, "instance", "zone") {
        Some(zone) => {
            let seg = last_segment_of(zone.as_str(), '/');
            attrs.push_text("cloud.zone", seg.as_str());
        },
        None => {
            return Err(OpenTelemetryError::new("zone not found"));
        },
    };
    let instance_id = match get_str2(metadata, "instance", "id") {
        Some(s) => s,
        None => {
            return Err(OpenTelemetryError::new("instance id not found"));
        },
    };
    attrs.push_text("faas.instance", instance_id.as_str());
    attrs.push_text("cloud.platform", platform);
    attrs.push_text("gcp.resource_type", rtype);
    proof {
        assert(attrs@ =~= serverless_attrs(*metadata, env@, platform@, rtype@));
    }
    Ok(attrs)
}

/// Everything the Cloud Run probe requires is present.
pub open spec fn cloudrun_ok(m: MetaValue, env: EnvView) -> bool {
    serverless_ok(m, env, "K_CONFIGURATION"@)
}

/// What the Cloud Run probe detects.
pub open spec fn cloudrun_attrs(m: MetaValue, env: EnvView) -> Seq<(Seq<char>, AttrVal)> {
    serverless_attrs(m, env, "gcp_cloud_run"@, "cloud_run"@)
}

/// Which message the Cloud Run probe fails with.
pub open spec fn cloudrun_err(m: MetaValue, env: EnvView) -> Seq<char> {
    serverless_err(m, env, "K_CONFIGURATION"@, "K_CONFIGURATION not found"@)
}

/// The Cloud Run probe: gated on `K_CONFIGURATION`; the optional `K_SERVICE`
/// and `K_REVISION` variables become the function name and version, and the
/// region, zone and instance id are required.
pub fn get_cloudrun_resources(metadata: &MetaValue, env: &Environment) -> (r: Result<
    AttributeSet,
    OpenTelemetryError,
>)
    ensures
        cloudrun_ok(*metadata, env@) ==> (r matches Ok(a) && a@ =~= cloudrun_attrs(
            *metadata,
            env@,
        )),
        !cloudrun_ok(*metadata, env@) ==> (r matches Err(e) && e@ == cloudrun_err(
            *metadata,
            env@,
        )),
{
    get_serverless_resources(
        metadata,
        env,
        "K_CONFIGURATION",
        "K_CONFIGURATION not found",
        "gcp_cloud_run",
        "cloud_run",
    )
}

/// Everything the Cloud Functions probe requires is present.
pub open spec fn cloudfunctions_ok(m: MetaValue, env: EnvView) -> bool {
    serverless_ok(m, env, "FUNCTION_TARGET"@)
}

/// What the Cloud Functions probe detects.
pub open spec fn cloudfunctions_attrs(m: MetaValue, env: EnvView) -> Seq<(Seq<char>, AttrVal)> {
    serverless_attrs(m, env, "gcp_cloud_functions"@, "cloud_functions"@)
}

/// Which message the Cloud Functions probe fails with.
pub open spec fn cloudfunctions_err(m: MetaValue, env: EnvView) -> Seq<char> {
    serverless_err(m, env, "FUNCTION_TARGET"@, "FUNCTION_TARGET not found"@)
}

/// The Cloud Functions probe: the same shape as Cloud Run, gated on
/// `FUNCTION_TARGET`.
pub fn get_cloudfunctions_resources(metadata: &MetaValue, env: &Environment) -> (r: Result<
    AttributeSet,
    OpenTelemetryError,
>)
    ensures
        cloudfunctions_ok(*metadata, env@) ==> (r matches Ok(a) && a@ =~= cloudfunctions_attrs(
            *metadata,
            env@,
        )),
        !cloudfunctions_ok(*metadata, env@) ==> (r matches Err(e) && e@ == cloudfunctions_err(
            *metadata,
            env@,
        )),
{
    get_serverless_resources(
        metadata,
        env,
        "FUNCTION_TARGET",
        "FUNCTION_TARGET not found",
        "gcp_cloud_functions",
        "cloud_functions",
    )
}

/// What detection as a whole yields: nothing when the metadata fetch failed,
/// else the first matching probe in specificity order (Kubernetes, Cloud
/// Run, Cloud Functions, generic virtual machine), else nothing.
pub open spec fn detect_spec(m: Option<MetaValue>, env: EnvView) -> Seq<(Seq<char>, AttrVal)> {
    match m {
        None => Seq::empty(),
        Some(mv) => if gke_ok(mv, env) {
            gke_attrs(mv, env)
        } else if cloudrun_ok(mv, env) {
            cloudrun_attrs(mv, env)
        } else if cloudfunctions_ok(mv, env) {
            cloudfunctions_attrs(mv, env)
        } else if gce_ok(mv) {
            gce_attrs(mv)
        } else {
            Seq::empty()
        },
    }
}

/// Run the probes in specificity order against an already-fetched metadata
/// tree (`None` when the fetch failed) and keep the first success; an empty
/// attribute set when nothing matches.
pub fn detect_resources(metadata: Option<&MetaValue>, env: &Environment) -> (r: AttributeSet)
    ensures
        metadata matches Some(m) ==> r@ =~= detect_spec(Some(*m), env@),
        metadata is None ==> r@ =~= Seq::<(Seq<char>, AttrVal)>::empty(),
{
    let m = match metadata {
        Some(m) => m,
        None => {
            return AttributeSet::new();
        },
    };
    if let Ok(attrs) = get_gke_resources(m, env) {
        return attrs;
    }
    if let Ok(attrs) = get_cloudrun_resources(m, env) {
        return attrs;
    }
    if let Ok(attrs) = get_cloudfunctions_resources(m, env) {
        return attrs;
    }
    if let Ok(attrs) = get_gce_resources(m) {
        return attrs;
    }
    AttributeSet::new()
}

/// Detection priority: metadata that satisfies the Kubernetes probe is
/// classified as Kubernetes, whatever other probes it would also satisfy;
/// and detection is a function of the metadata and environment alone, so
/// re-running it on the same inputs yields the same attributes.
pub proof fn lemma_detection_priority(m: MetaValue, env: EnvView)
    requires
        gke_ok(m, env),
    ensures
        detect_spec(Some(m), env) == gke_attrs(m, env),
{
}

/// A probe gated on an environment variable cannot match while that variable
/// is unset, whatever the metadata holds: the Kubernetes probe fails without
/// `KUBERNETES_SERVICE_HOST`.
pub proof fn lemma_gke_needs_kubernetes_host(m: MetaValue, env: EnvView)
    requires
        env_lookup(env, "KUBERNETES_SERVICE_HOST"@) is None,
    ensures
        !gke_ok(m, env),
{
}

proof fn lemma_common_lookup_none(m: MetaValue, key: Seq<char>)
    requires
        key != "cloud.account.id"@,
        key != "cloud.provider"@,
    ensures
        attrs_lookup(common_attrs(m), key) is None,
{
    let e1 = ("cloud.account.id"@, AttrVal::Text(meta_project_id(m)->Some_0));
    let e2 = ("cloud.provider"@, AttrVal::Text("gcp"@));
    assert(common_attrs(m) =~= seq![e1, e2]);
    lemma_lookup2(e1, e2, key);
}

proof fn lemma_container_lookup_none(env: EnvView, key: Seq<char>)
    requires
        key != "container.name"@,
    ensures
        attrs_lookup(gke_container_attrs(env), key) is None,
{
    match env_lookup(env, "CONTAINER_NAME"@) {
        Some(v) => {
            lemma_lookup1(("container.name"@, AttrVal::Text(v)), key);
        },
        None => {
            assert(attrs_lookup(Seq::<(Seq<char>, AttrVal)>::empty(), key) is None);
        },
    }
}

proof fn lemma_location_lookup_none(m: MetaValue, key: Seq<char>)
    requires
        key != "cloud.region"@,
        key != "cloud.availability_zone"@,
    ensures
        attrs_lookup(gke_location_attrs(m), key) is None,
{
    assert(attrs_lookup(Seq::<(Seq<char>, AttrVal)>::empty(), key) is None);
    match meta_cluster_location(m) {
        Some(loc) => {
            lemma_lookup1(("cloud.region"@, AttrVal::Text(loc)), key);
            lemma_lookup1(("cloud.availability_zone"@, AttrVal::Text(loc)), key);
        },
        None => {},
    }
}

proof fn lemma_gke_lookup(m: MetaValue, env: EnvView, key: Seq<char>)
    ensures
        attrs_lookup(gke_attrs(m, env), key) == {
            let c12 = common_attrs(m) + gke_container_attrs(env);
            let c123 = c12 + gke_mid_attrs(m, env);
            let c1234 = c123 + gke_location_attrs(m);
            if attrs_has(c12, key) {
                attrs_lookup(c12, key)
            } else if attrs_has(c123, key) {
                attrs_lookup(gke_mid_attrs(m, env), key)
            } else if attrs_has(c1234, key) {
                attrs_lookup(gke_location_attrs(m), key)
            } else {
                attrs_lookup(gke_tail_attrs(m), key)
            }
        },
{
    let c12 = common_attrs(m) + gke_container_attrs(env);
    let c123 = c12 + gke_mid_attrs(m, env);
    let c1234 = c123 + gke_location_attrs(m);
    lemma_lookup_append(c12, gke_mid_attrs(m, env), key);
    lemma_lookup_append(c123, gke_location_attrs(m), key);
    lemma_lookup_append(c1234, gke_tail_attrs(m), key);
    assert(gke_attrs(m, env) == c1234 + gke_tail_attrs(m));
}

/// Namespace precedence: when `NAMESPACE` is set, the namespace attribute
/// the Kubernetes probe emits carries it verbatim, whatever the
/// service-account namespace file holds.
pub proof fn lemma_namespace_resolution(m: MetaValue, env: EnvView)
    requires
        gke_ok(m, env),
    ensures
        attrs_lookup(gke_attrs(m, env), "k8s.namespace.name"@) == Some(
            AttrVal::Text(gke_namespace(env)),
        ),
        env_lookup(env, "NAMESPACE"@) matches Some(v) ==> gke_namespace(env) == v,
{
    let key = "k8s.namespace.name"@;
    lemma_gke_mid_lookup(m, env, key);
}

/// Pod-name precedence: `POD_NAME` wins over `HOSTNAME`, and with both unset
/// the pod-name attribute is the empty string, never a failure.
pub proof fn lemma_pod_name_resolution(m: MetaValue, env: EnvView)
    requires
        gke_ok(m, env),
    ensures
        attrs_lookup(gke_attrs(m, env), "k8s.pod.name"@) == Some(
            AttrVal::Text(gke_pod_name(env)),
        ),
        env_lookup(env, "POD_NAME"@) matches Some(v) ==> gke_pod_name(env) == v,
        env_lookup(env, "POD_NAME"@) is None && env_lookup(env, "HOSTNAME"@) is None
            ==> gke_pod_name(env) == Seq::<char>::empty(),
{
    let key = "k8s.pod.name"@;
    lemma_gke_mid_lookup(m, env, key);
}

proof fn lemma_gke_mid_lookup(m: MetaValue, env: EnvView, key: Seq<char>)
    requires
        key == "k8s.namespace.name"@ || key == "k8s.pod.name"@ || key == "k8s.cluster.name"@,
    ensures
        attrs_lookup(gke_attrs(m, env), key) == attrs_lookup(gke_mid_attrs(m, env), key),
        key == "k8s.namespace.name"@ ==> attrs_lookup(gke_mid_attrs(m, env), key) == Some(
            AttrVal::Text(gke_namespace(env)),
        ),
        key == "k8s.pod.name"@ ==> attrs_lookup(gke_mid_attrs(m, env), key) == Some(
            AttrVal::Text(gke_pod_name(env)),
        ),
{
    reveal_strlit("k8s.namespace.name");
    reveal_strlit("k8s.pod.name");
    reveal_strlit("k8s.cluster.name");
    reveal_strlit("cloud.account.id");
    reveal_strlit("cloud.provider");
    reveal_strlit("container.name");
    assert("k8s.namespace.name"@.len() == 18);
    assert("k8s.pod.name"@.len() == 12);
    assert("k8s.cluster.name"@.len() == 16);
    assert("cloud.account.id"@.len() == 16);
    assert("cloud.provider"@.len() == 14);
    assert("container.name"@.len() == 14);
    assert("k8s.cluster.name"@ != "cloud.account.id"@) by {
        if "k8s.cluster.name"@ == "cloud.account.id"@ {
            assert("k8s.cluster.name"@[0] == "cloud.account.id"@[0]);
        }
    }
    lemma_common_lookup_none(m, key);
    lemma_container_lookup_none(env, key);
    let c12 = common_attrs(m) + gke_container_attrs(env);
    lemma_lookup_append(common_attrs(m), gke_container_attrs(env), key);
    assert(attrs_lookup(c12, key) is None);
    let e1 = ("k8s.namespace.name"@, AttrVal::Text(gke_namespace(env)));
    let e2 = ("k8s.pod.name"@, AttrVal::Text(gke_pod_name(env)));
    let e3 = ("k8s.cluster.name"@, AttrVal::Text(meta_cluster_name(m)->Some_0));
    assert(gke_mid_attrs(m, env) =~= seq![e1, e2, e3]);
    lemma_lookup3(e1, e2, e3, key);
    assert(attrs_lookup(gke_mid_attrs(m, env), key) is Some);
    lemma_lookup_append(c12, gke_mid_attrs(m, env), key);
    assert(attrs_lookup(c12 + gke_mid_attrs(m, env), key) == attrs_lookup(
        gke_mid_attrs(m, env),
        key,
    ));
    lemma_gke_lookup(m, env, key);
}

/// Cluster-location classes: a location with one internal hyphen is emitted
/// as the region with no availability zone; one with two internal hyphens is
/// emitted as the availability zone with no region.
pub proof fn lemma_cluster_location_classes(m: MetaValue, env: EnvView)
    requires
        gke_ok(m, env),
        meta_cluster_location(m) is Some,
    ensures
        count_char(meta_cluster_location(m)->Some_0, '-') == 1 ==> attrs_lookup(
            gke_attrs(m, env),
            "cloud.region"@,
        ) == Some(AttrVal::Text(meta_cluster_location(m)->Some_0)) && attrs_lookup(
            gke_attrs(m, env),
            "cloud.availability_zone"@,
        ) is None,
        count_char(meta_cluster_location(m)->Some_0, '-') == 2 ==> attrs_lookup(
            gke_attrs(m, env),
            "cloud.availability_zone"@,
        ) == Some(AttrVal::Text(meta_cluster_location(m)->Some_0)) && attrs_lookup(
            gke_attrs(m, env),
            "cloud.region"@,
        ) is None,
{
    let loc = meta_cluster_location(m)->Some_0;
    let region = "cloud.region"@;
    let az = "cloud.availability_zone"@;
    reveal_strlit("cloud.region");
    reveal_strlit("cloud.availability_zone");
    reveal_strlit("cloud.account.id");
    reveal_strlit("cloud.provider");
    reveal_strlit("container.name");
    reveal_strlit("k8s.namespace.name");
    reveal_strlit("k8s.pod.name");
    reveal_strlit("k8s.cluster.name");
    reveal_strlit("cloud.zone");
    reveal_strlit("host.id");
    reveal_strlit("gcp.resource_type");
    reveal_strlit("cloud.platform");
    assert(region.len() == 12);
    assert(az.len() == 23);
    assert("cloud.account.id"@.len() == 16);
    assert("cloud.provider"@.len() == 14);
    assert("container.name"@.len() == 14);
    assert("k8s.namespace.name"@.len() == 18);
    assert("k8s.pod.name"@.len() == 12);
    assert("k8s.cluster.name"@.len() == 16);
    assert("cloud.zone"@.len() == 10);
    assert("host.id"@.len() == 7);
    assert("gcp.resource_type"@.len() == 17);
    assert("cloud.platform"@.len() == 14);
    assert(region != "k8s.pod.name"@) by {
        if region == "k8s.pod.name"@ {
            assert(region[0] == "k8s.pod.name"@[0]);
        }
    }
    lemma_gke_location_lookup(m, env, region);
    lemma_gke_location_lookup(m, env, az);
    match meta_cluster_location(m) {
        Some(l) => {
            lemma_lookup1(("cloud.region"@, AttrVal::Text(l)), region);
            lemma_lookup1(("cloud.region"@, AttrVal::Text(l)), az);
            lemma_lookup1(("cloud.availability_zone"@, AttrVal::Text(l)), region);
            lemma_lookup1(("cloud.availability_zone"@, AttrVal::Text(l)), az);
        },
        None => {},
    }
    assert(attrs_lookup(Seq::<(Seq<char>, AttrVal)>::empty(), region) is None);
    assert(attrs_lookup(Seq::<(Seq<char>, AttrVal)>::empty(), az) is None);
}

proof fn lemma_gke_location_lookup(m: MetaValue, env: EnvView, key: Seq<char>)
    requires
        key == "cloud.region"@ || key == "cloud.availability_zone"@,
        key != "cloud.account.id"@,
        key != "cloud.provider"@,
        key != "container.name"@,
        key != "k8s.namespace.name"@,
        key != "k8s.pod.name"@,
        key != "k8s.cluster.name"@,
        key != "cloud.zone"@,
        key != "host.id"@,
        key != "gcp.resource_type"@,
        key != "cloud.platform"@,
    ensures
        attrs_lookup(gke_attrs(m, env), key) == attrs_lookup(gke_location_attrs(m), key),
{
    lemma_common_lookup_none(m, key);
    lemma_container_lookup_none(env, key);
    lemma_lookup_append(common_attrs(m), gke_container_attrs(env), key);
    let c12 = common_attrs(m) + gke_container_attrs(env);
    assert(attrs_lookup(c12, key) is None);
    let e1 = ("k8s.namespace.name"@, AttrVal::Text(gke_namespace(env)));
    let e2 = ("k8s.pod.name"@, AttrVal::Text(gke_pod_name(env)));
    let e3 = ("k8s.cluster.name"@, AttrVal::Text(meta_cluster_name(m)->Some_0));
    assert(gke_mid_attrs(m, env) =~= seq![e1, e2, e3]);
    lemma_lookup3(e1, e2, e3, key);
    let c123 = c12 + gke_mid_attrs(m, env);
    lemma_lookup_append(c12, gke_mid_attrs(m, env), key);
    assert(attrs_lookup(c123, key) is None);
    let t1 = ("cloud.zone"@, AttrVal::Text(last_segment(meta_zone(m)->Some_0, '/')));
    let t2 = ("host.id"@, AttrVal::Text(meta_host_id(m)->Some_0));
    let t3 = ("gcp.resource_type"@, AttrVal::Text("gke_container"@));
    let t4 = ("cloud.platform"@, AttrVal::Text("gcp_kubernetes_engine"@));
    assert(gke_tail_attrs(m) =~= seq![t1, t2, t3, t4]);
    lemma_lookup4(t1, t2, t3, t4, key);
    assert(attrs_lookup(gke_tail_attrs(m), key) is None);
    lemma_gke_lookup(m, env, key);
    let c1234 = c123 + gke_location_attrs(m);
    lemma_lookup_append(c123, gke_location_attrs(m), key);
    assert(attrs_has(c1234, key) ==> attrs_lookup(c1234, key) == attrs_lookup(
        gke_location_attrs(m),
        key,
    ));
}

} // verus!
