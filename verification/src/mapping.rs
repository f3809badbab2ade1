//! The monitored-resource mapping engine: classify a detected attribute set,
//! then translate it into the canonical label set of that classification
//! through a fixed table of candidate keys and fallbacks.

use vstd::prelude::*;

use crate::attrs::{attr_text, attrs_has, attrs_lookup, AttrVal, AttributeSet, encode_attr};
use crate::strutil::{has_prefix, starts_with, str_eq};

verus! {

/// How one output label is filled: candidate attribute keys tried left to
/// right, and a literal fallback used when no candidate yields a value.
#[derive(Debug, PartialEq)]
pub struct MapConfig {
    /// Attribute keys to try and populate the label from, coalesced in order
    /// until one yields a value.
    pub otel_keys: Vec<String>,
    /// The literal the label falls back to when no key yields a value.
    pub fallback: String,
}

impl View for MapConfig {
    type V = (Seq<Seq<char>>, Seq<char>);

    open spec fn view(&self) -> (Seq<Seq<char>>, Seq<char>) {
        (self.otel_keys@.map_values(|s: String| s@), self.fallback@)
    }
}

impl MapConfig {
    /// A config with the given candidate keys and an empty fallback.
    pub fn new(otel_keys: Vec<String>) -> (r: Self)
        ensures
            r@.0 == otel_keys@.map_values(|s: String| s@),
            r@.1 == Seq::<char>::empty(),
    {
        Self { otel_keys, fallback: String::new() }
    }
}

/// The monitored-resource types this library can assign. Every attribute set
/// maps to exactly one of them; the generic node is the default.
#[derive(Debug, Clone, Copy, PartialEq, Eq)]
pub enum Classification {
    GceInstance,
    K8sContainer,
    K8sPod,
    K8sNode,
    K8sCluster,
    AwsEc2Instance,
    GenericTask,
    GenericNode,
}

/// The wire name of a classification.
pub open spec fn class_name(c: Classification) -> Seq<char> {
    match c {
        Classification::GceInstance => "gce_instance"@,
        Classification::K8sContainer => "k8s_container"@,
        Classification::K8sPod => "k8s_pod"@,
        Classification::K8sNode => "k8s_node"@,
        Classification::K8sCluster => "k8s_cluster"@,
        Classification::AwsEc2Instance => "aws_ec2_instance"@,
        Classification::GenericTask => "generic_task"@,
        Classification::GenericNode => "generic_node"@,
    }
}

impl Classification {
    /// The wire name of this classification.
    pub fn name(&self) -> (r: &'static str)
        ensures
            r@ == class_name(*self),
    {
        match self {
            Classification::GceInstance => "gce_instance",
            Classification::K8sContainer => "k8s_container",
            Classification::K8sPod => "k8s_pod",
            Classification::K8sNode => "k8s_node",
            Classification::K8sCluster => "k8s_cluster",
            Classification::AwsEc2Instance => "aws_ec2_instance",
            Classification::GenericTask => "generic_task",
            Classification::GenericNode => "generic_node",
        }
    }
}

/// The label text of the platform attribute, when one is present.
pub open spec fn platform_text(attrs: Seq<(Seq<char>, AttrVal)>) -> Option<Seq<char>> {
    match attrs_lookup(attrs, "cloud.platform"@) {
        Some(v) => Some(attr_text(v)),
        None => None,
    }
}

/// Which classification an attribute set receives: the platform attribute
/// picks the platform; under Kubernetes the most specific of container, pod,
/// node and cluster that is present wins; anything else is a generic task
/// when both a job-like and an instance-like attribute are present, else a
/// generic node.
pub open spec fn classify(attrs: Seq<(Seq<char>, AttrVal)>) -> Classification {
    if platform_text(attrs) == Some("gcp_compute_engine"@) {
        Classification::GceInstance
    } else if platform_text(attrs) == Some("gcp_kubernetes_engine"@) {
        if attrs_has(attrs, "k8s.container.name"@) {
            Classification::K8sContainer
        } else if attrs_has(attrs, "k8s.pod.name"@) {
            Classification::K8sPod
        } else if attrs_has(attrs, "k8s.node.name"@) {
            Classification::K8sNode
        } else {
            Classification::K8sCluster
        }
    } else if platform_text(attrs) == Some("aws_ec2"@) {
        Classification::AwsEc2Instance
    } else if (attrs_has(attrs, "service.name"@) || attrs_has(attrs, "faas.name"@)) && (
    attrs_has(attrs, "service.instance.id"@) || attrs_has(attrs, "faas.instance"@)) {
        Classification::GenericTask
    } else {
        Classification::GenericNode
    }
}

/// The label table of a classification: for each output label, the candidate
/// attribute keys in order and the literal fallback. This table is part of
/// the contract with the monitoring backend and must be reproduced verbatim.
pub open spec fn label_specs(c: Classification) -> Seq<(Seq<char>, Seq<Seq<char>>, Seq<char>)> {
    match c {
        Classification::GceInstance => seq![
            ("zone"@, seq!["cloud.availability_zone"@], Seq::<char>::empty()),
            ("instance_id"@, seq!["host.id"@], Seq::<char>::empty()),
        ],
        Classification::K8sContainer => seq![
            (
                "location"@,
                seq!["cloud.availability_zone"@, "cloud.region"@],
                Seq::<char>::empty(),
            ),
            ("cluster_name"@, seq!["k8s.cluster.name"@], Seq::<char>::empty()),
            ("namespace_name"@, seq!["k8s.namespace.name"@], Seq::<char>::empty()),
            ("pod_name"@, seq!["k8s.pod.name"@], Seq::<char>::empty()),
            ("container_name"@, seq!["k8s.container.name"@], Seq::<char>::empty()),
        ],
        Classification::K8sPod => seq![
            (
                "location"@,
                seq!["cloud.availability_zone"@, "cloud.region"@],
                Seq::<char>::empty(),
            ),
            ("cluster_name"@, seq!["k8s.cluster.name"@], Seq::<char>::empty()),
            ("namespace_name"@, seq!["k8s.namespace.name"@], Seq::<char>::empty()),
            ("pod_name"@, seq!["k8s.pod.name"@], Seq::<char>::empty()),
        ],
        Classification::K8sNode => seq![
            (
                "location"@,
                seq!["cloud.availability_zone"@, "cloud.region"@],
                Seq::<char>::empty(),
            ),
            ("cluster_name"@, seq!["k8s.cluster.name"@], Seq::<char>::empty()),
            ("node_name"@, seq!["k8s.node.name"@], Seq::<char>::empty()),
        ],
        Classification::K8sCluster => seq![
            (
                "location"@,
                seq!["cloud.availability_zone"@, "cloud.region"@],
                Seq::<char>::empty(),
            ),
            ("cluster_name"@, seq!["k8s.cluster.name"@], Seq::<char>::empty()),
        ],
        Classification::AwsEc2Instance => seq![
            ("instance_id"@, seq!["host.id"@], Seq::<char>::empty()),
            (
                "region"@,
                seq!["cloud.availability_zone"@, "cloud.region"@],
                Seq::<char>::empty(),
            ),
            ("aws_account"@, seq!["cloud.account.id"@], Seq::<char>::empty()),
        ],
        Classification::GenericTask => seq![
            ("location"@, seq!["cloud.availability_zone"@, "cloud.region"@], "global"@),
            ("namespace"@, seq!["service.namespace"@], Seq::<char>::empty()),
            ("job"@, seq!["service.name"@, "faas.name"@], Seq::<char>::empty()),
            (
                "task_id"@,
                seq!["service.instance.id"@, "faas.instance"@],
                Seq::<char>::empty(),
            ),
        ],
        Classification::GenericNode => seq![
            ("location"@, seq!["cloud.availability_zone"@, "cloud.region"@], "global"@),
            ("namespace"@, seq!["service.namespace"@], Seq::<char>::empty()),
            ("node_id"@, seq!["host.id"@, "host.name"@], Seq::<char>::empty()),
        ],
    }
}

/// The first candidate key that yields a value: its value must be present,
/// and a placeholder-prefixed service name is passed over.
pub open spec fn first_candidate(
    attrs: Seq<(Seq<char>, AttrVal)>,
    keys: Seq<Seq<char>>,
) -> Option<AttrVal>
    decreases keys.len(),
{
    if keys.len() == 0 {
        None
    } else {
        let k = keys[0];
        match attrs_lookup(attrs, k) {
            Some(v) => if k == "service.name"@ && has_prefix(attr_text(v), "unknown_service"@) {
                first_candidate(attrs, keys.drop_first())
            } else {
                Some(v)
            },
            None => first_candidate(attrs, keys.drop_first()),
        }
    }
}

/// The text a label receives: the first candidate's value; else, when the
/// candidates include the service name and it was only rejected as a
/// placeholder, that raw service name; else the fallback.
pub open spec fn label_value(
    attrs: Seq<(Seq<char>, AttrVal)>,
    keys: Seq<Seq<char>>,
    fallback: Seq<char>,
) -> Seq<char> {
    match first_candidate(attrs, keys) {
        Some(v) => attr_text(v),
        None => if keys.contains("service.name"@) && attrs_lookup(attrs, "service.name"@) is Some {
            attr_text(attrs_lookup(attrs, "service.name"@)->Some_0)
        } else {
            fallback
        },
    }
}

/// The labels a table prescribes for an attribute set: each row's label
/// name, filled by coalescing that row's candidate keys.
pub open spec fn computed_labels(
    attrs: Seq<(Seq<char>, AttrVal)>,
    rows: Seq<(Seq<char>, Seq<Seq<char>>, Seq<char>)>,
) -> Seq<(Seq<char>, Seq<char>)> {
    rows.map_values(
        |t: (Seq<char>, Seq<Seq<char>>, Seq<char>)| (t.0, label_value(attrs, t.1, t.2)),
    )
}

/// The complete label set an attribute set maps to under its classification.
pub open spec fn mapped_labels(attrs: Seq<(Seq<char>, AttrVal)>) -> Seq<(Seq<char>, Seq<char>)> {
    computed_labels(attrs, label_specs(classify(attrs)))
}

fn make_config1(k1: &str) -> (r: MapConfig)
    ensures
        r@.0 =~= seq![k1@],
        r@.1 == Seq::<char>::empty(),
{
    let mut keys: Vec<String> = Vec::new();
    keys.push(k1.to_owned());
    proof {
        assert(keys@.map_values(|s: String| s@) =~= seq![k1@]);
    }
    MapConfig::new(keys)
}

fn make_config2(k1: &str, k2: &str) -> (r: MapConfig)
    ensures
        r@.0 =~= seq![k1@, k2@],
        r@.1 == Seq::<char>::empty(),
{
    let mut keys: Vec<String> = Vec::new();
    keys.push(k1.to_owned());
    keys.push(k2.to_owned());
    proof {
        assert(keys@.map_values(|s: String| s@) =~= seq![k1@, k2@]);
    }
    MapConfig::new(keys)
}

fn make_config2f(k1: &str, k2: &str, fallback: &str) -> (r: MapConfig)
    ensures
        r@.0 =~= seq![k1@, k2@],
        r@.1 == fallback@,
{
    let mut keys: Vec<String> = Vec::new();
    keys.push(k1.to_owned());
    keys.push(k2.to_owned());
    proof {
        assert(keys@.map_values(|s: String| s@) =~= seq![k1@, k2@]);
    }
    MapConfig { otel_keys: keys, fallback: fallback.to_owned() }
}

/// The view of one table row.
pub open spec fn row_view(p: (String, MapConfig)) -> (Seq<char>, Seq<Seq<char>>, Seq<char>) {
    (p.0@, p.1@.0, p.1@.1)
}

/// The view of a whole table.
pub open spec fn table_view(table: Seq<(String, MapConfig)>) -> Seq<
    (Seq<char>, Seq<Seq<char>>, Seq<char>),
> {
    table.map_values(|p: (String, MapConfig)| row_view(p))
}

/// The view of a built label list.
pub open spec fn pairs_view(labels: Seq<(String, String)>) -> Seq<(Seq<char>, Seq<char>)> {
    labels.map_values(|p: (String, String)| (p.0@, p.1@))
}

fn label_configs(c: Classification) -> (r: Vec<(String, MapConfig)>)
    ensures
        table_view(r@) =~= label_specs(c),
{
    let mut table: Vec<(String, MapConfig)> = Vec::new();
    match c {
        Classification::GceInstance => {
            table.push(("zone".to_owned(), make_config1("cloud.availability_zone")));
            table.push(("instance_id".to_owned(), make_config1("host.id")));
        },
        Classification::K8sContainer => {
            table.push(
                (
                    "location".to_owned(),
                    make_config2("cloud.availability_zone", "cloud.region"),
                ),
            );
            table.push(("cluster_name".to_owned(), make_config1("k8s.cluster.name")));
            table.push(("namespace_name".to_owned(), make_config1("k8s.namespace.name")));
            table.push(("pod_name".to_owned(), make_config1("k8s.pod.name")));
            table.push(("container_name".to_owned(), make_config1("k8s.container.name")));
        },
        Classification::K8sPod => {
            table.push(
                (
                    "location".to_owned(),
                    make_config2("cloud.availability_zone", "cloud.region"),
                ),
            );
            table.push(("cluster_name".to_owned(), make_config1("k8s.cluster.name")));
            table.push(("namespace_name".to_owned(), make_config1("k8s.namespace.name")));
            table.push(("pod_name".to_owned(), make_config1("k8s.pod.name")));
        },
        Classification::K8sNode => {
            table.push(
                (
                    "location".to_owned(),
                    make_config2("cloud.availability_zone", "cloud.region"),
                ),
            );
            table.push(("cluster_name".to_owned(), make_config1("k8s.cluster.name")));
            table.push(("node_name".to_owned(), make_config1("k8s.node.name")));
        },
        Classification::K8sCluster => {
            table.push(
                (
                    "location".to_owned(),
                    make_config2("cloud.availability_zone", "cloud.region"),
                ),
            );
            table.push(("cluster_name".to_owned(), make_config1("k8s.cluster.name")));
        },
        Classification::AwsEc2Instance => {
            table.push(("instance_id".to_owned(), make_config1("host.id")));
            table.push(
                ("region".to_owned(), make_config2("cloud.availability_zone", "cloud.region")),
            );
            table.push(("aws_account".to_owned(), make_config1("cloud.account.id")));
        },
        Classification::GenericTask => {
            table.push(
                (
                    "location".to_owned(),
                    make_config2f("cloud.availability_zone", "cloud.region", "global"),
                ),
            );
            table.push(("namespace".to_owned(), make_config1("service.namespace")));
            table.push(("job".to_owned(), make_config2("service.name", "faas.name")));
            table.push(
                ("task_id".to_owned(), make_config2("service.instance.id", "faas.instance")),
            );
        },
        Classification::GenericNode => {
            table.push(
                (
                    "location".to_owned(),
                    make_config2f("cloud.availability_zone", "cloud.region", "global"),
                ),
            );
            table.push(("namespace".to_owned(), make_config1("service.namespace")));
            table.push(("node_id".to_owned(), make_config2("host.id", "host.name")));
        },
    }
    proof {
        assert(table_view(table@) =~= label_specs(c));
    }
    table
}

fn keys_contain(keys: &Vec<String>, name: &str) -> (r: bool)
    ensures
        r == keys@.map_values(|s: String| s@).contains(name@),
{
    let ghost kv = keys@.map_values(|s: String| s@);
    let mut i: usize = 0;
    while i < keys.len()
        invariant
            kv == keys@.map_values(|s: String| s@),
            kv.len() == keys@.len(),
            i <= keys@.len(),
            forall|j: int| 0 <= j < i ==> kv[j] != name@,
        decreases keys@.len() - i,
    {
        if str_eq(keys[i].as_str(), name) {
            proof {
                assert(kv[i as int] == name@);
            }
            return true;
        }
        i = i + 1;
    }
    proof {
        assert(!kv.contains(name@)) by {
            if kv.contains(name@) {
                let j = choose|j: int| 0 <= j < kv.len() && kv[j] == name@;
                assert(kv[j] != name@);
            }
        }
    }
    false
}

fn select_label_value(attrs: &AttributeSet, config: &MapConfig) -> (r: String)
    ensures
        r@ == label_value(attrs@, config@.0, config@.1),
{
    let ghost keys = config@.0;
    proof {
        assert(keys.skip(0) =~= keys);
    }
    let mut i: usize = 0;
    while i < config.otel_keys.len()
        invariant
            keys == config@.0,
            keys.len() == config.otel_keys@.len(),
            i <= keys.len(),
            first_candidate(attrs@, keys) == first_candidate(attrs@, keys.skip(i as int)),
        decreases keys.len() - i,
    {
        proof {
            assert(keys.skip(i as int)[0] == keys[i as int]);
            assert(keys.skip(i as int).drop_first() =~= keys.skip(i + 1));
        }
        let k = &config.otel_keys[i];
        match attrs.get(k.as_str()) {
            Some(v) => {
                let text = encode_attr(v);
                if str_eq(k.as_str(), "service.name") && starts_with(
                    text.as_str(),
                    "unknown_service",
                ) {
                    // a placeholder service name: passed over here, possibly
                    // re-admitted below
                } else {
                    return text;
                }
            },
            None => (),
        };
        i = i + 1;
    }
    proof {
        assert(keys.skip(keys.len() as int) =~= Seq::<Seq<char>>::empty());
    }
    if keys_contain(&config.otel_keys, "service.name") {
        match attrs.get("service.name") {
            Some(v) => {
                return encode_attr(v);
            },
            None => (),
        };
    }
    config.fallback.clone()
}

/// The monitored-resource descriptor: a type name and its completed labels.
#[derive(Debug, Clone, PartialEq, Eq)]
pub struct MonitoredResourceData {
    pub resource_type: String,
    pub labels: Vec<(String, String)>,
}

impl View for MonitoredResourceData {
    type V = (Seq<char>, Seq<(Seq<char>, Seq<char>)>);

    open spec fn view(&self) -> (Seq<char>, Seq<(Seq<char>, Seq<char>)>) {
        (self.resource_type@, pairs_view(self.labels@))
    }
}

/// The value of the label named `name`: the first entry that carries it.
pub open spec fn labels_lookup(labels: Seq<(Seq<char>, Seq<char>)>, name: Seq<char>) -> Option<
    Seq<char>,
>
    decreases labels.len(),
{
    if labels.len() == 0 {
        None
    } else if labels[0].0 == name {
        Some(labels[0].1)
    } else {
        labels_lookup(labels.drop_first(), name)
    }
}

impl MonitoredResourceData {
    /// The value of the label named `name`, if the descriptor carries it.
    pub fn get_label(&self, name: &str) -> (r: Option<&String>)
        ensures
            match labels_lookup(self@.1, name@) {
                Some(v) => r matches Some(x) && x@ == v,
                None => r is None,
            },
    {
        proof {
            assert(self@.1.skip(0) =~= self@.1);
        }
        let mut j: usize = 0;
        while j < self.labels.len()
            invariant
                self@.1.len() == self.labels@.len(),
                j <= self.labels@.len(),
                labels_lookup(self@.1, name@) == labels_lookup(self@.1.skip(j as int), name@),
            decreases self.labels@.len() - j,
        {
            proof {
                assert(self@.1.skip(j as int)[0] == self@.1[j as int]);
                assert(self@.1.skip(j as int).drop_first() =~= self@.1.skip(j + 1));
            }
            if str_eq(self.labels[j].0.as_str(), name) {
                return Some(&self.labels[j].1);
            }
            j = j + 1;
        }
        None
    }
}

/// Fill every label the classification defines, coalescing its candidate
/// keys and falling back to the configured literal.
pub fn create_monitored_resource(
    monitored_resource_type: Classification,
    resource_attrs: &AttributeSet,
) -> (r: MonitoredResourceData)
    ensures
        r@.0 == class_name(monitored_resource_type),
        r@.1 =~= computed_labels(resource_attrs@, label_specs(monitored_resource_type)),
{
    let ghost specs = label_specs(monitored_resource_type);
    let table = label_configs(monitored_resource_type);
    let mut labels: Vec<(String, String)> = Vec::new();
    let mut i: usize = 0;
    while i < table.len()
        invariant
            table_view(table@) == specs,
            specs == label_specs(monitored_resource_type),
            table@.len() == specs.len(),
            i <= table@.len(),
            labels@.len() == i as int,
            pairs_view(labels@) =~= computed_labels(resource_attrs@, specs.subrange(0, i as int)),
        decreases table@.len() - i,
    {
        let pair = &table[i];
        let value = select_label_value(resource_attrs, &pair.1);
        let lbl = pair.0.clone();
        let ghost lbl_view = lbl@;
        let ghost val_view = value@;
        let ghost pre = labels@;
        labels.push((lbl, value));
        proof {
            assert(table_view(table@)[i as int] == row_view(table@[i as int]));
            assert(lbl_view == specs[i as int].0);
            assert(val_view == label_value(resource_attrs@, specs[i as int].1, specs[i as int].2));
            let rows = specs.subrange(0, i + 1);
            assert forall|j: int| 0 <= j <= i implies pairs_view(labels@)[j] == computed_labels(
                resource_attrs@,
                rows,
            )[j] by {
                assert(rows[j] == specs[j]);
                assert(computed_labels(resource_attrs@, rows)[j] == (
                    specs[j].0,
                    label_value(resource_attrs@, specs[j].1, specs[j].2),
                ));
                if j < i {
                    assert(labels@[j] == pre[j]);
                    assert(pairs_view(labels@)[j] == pairs_view(pre)[j]);
                    assert(specs.subrange(0, i as int)[j] == specs[j]);
                    assert(pairs_view(pre)[j] == computed_labels(
                        resource_attrs@,
                        specs.subrange(0, i as int),
                    )[j]);
                } else {
                    assert(labels@[j] == (labels@.last()));
                    assert(pairs_view(labels@)[j] == (lbl_view, val_view));
                }
            }
            assert(pairs_view(labels@) =~= computed_labels(resource_attrs@, rows));
        }
        i = i + 1;
    }
    proof {
        assert(specs.subrange(0, specs.len() as int) =~= specs);
    }
    let name = monitored_resource_type.name();
    MonitoredResourceData { resource_type: name.to_owned(), labels }
}

fn classify_attrs(attrs: &AttributeSet) -> (c: Classification)
    ensures
        c == classify(attrs@),
{
    match attrs.get("cloud.platform") {
        Some(v) => {
            let text = encode_attr(v);
            if str_eq(text.as_str(), "gcp_compute_engine") {
                return Classification::GceInstance;
            }
            if str_eq(text.as_str(), "gcp_kubernetes_engine") {
                if attrs.contains_key("k8s.container.name") {
                    return Classification::K8sContainer;
                }
                if attrs.contains_key("k8s.pod.name") {
                    return Classification::K8sPod;
                }
                if attrs.contains_key("k8s.node.name") {
                    return Classification::K8sNode;
                }
                return Classification::K8sCluster;
            }
            if str_eq(text.as_str(), "aws_ec2") {
                return Classification::AwsEc2Instance;
            }
        },
        None => (),
    };
    if (attrs.contains_key("service.name") || attrs.contains_key("faas.name")) && (
    attrs.contains_key("service.instance.id") || attrs.contains_key("faas.instance")) {
        Classification::GenericTask
    } else {
        Classification::GenericNode
    }
}

/// Map a detected attribute set onto its monitored-resource descriptor:
/// classify it, then fill that classification's labels. Never fails.
pub fn get_monitored_resource(resource: &AttributeSet) -> (r: Option<MonitoredResourceData>)
    ensures
        r matches Some(d) && d@.0 == class_name(classify(resource@)) && d@.1 =~= mapped_labels(
            resource@,
        ),
{
    let c = classify_attrs(resource);
    Some(create_monitored_resource(c, resource))
}

/// Classification under the Kubernetes platform falls through by
/// specificity: a container name wins, else a pod name, else a node name,
/// else the cluster.
pub proof fn lemma_k8s_specificity(attrs: Seq<(Seq<char>, AttrVal)>)
    requires
        platform_text(attrs) == Some("gcp_kubernetes_engine"@),
    ensures
        attrs_has(attrs, "k8s.container.name"@) ==> classify(attrs)
            == Classification::K8sContainer,
        !attrs_has(attrs, "k8s.container.name"@) && attrs_has(attrs, "k8s.pod.name"@)
            ==> classify(attrs) == Classification::K8sPod,
        !attrs_has(attrs, "k8s.container.name"@) && !attrs_has(attrs, "k8s.pod.name"@)
            && attrs_has(attrs, "k8s.node.name"@) ==> classify(attrs) == Classification::K8sNode,
        !attrs_has(attrs, "k8s.container.name"@) && !attrs_has(attrs, "k8s.pod.name"@)
            && !attrs_has(attrs, "k8s.node.name"@) ==> classify(attrs)
            == Classification::K8sCluster,
{
    reveal_strlit("gcp_kubernetes_engine");
    reveal_strlit("gcp_compute_engine");
    assert("gcp_kubernetes_engine"@.len() == 21);
    assert("gcp_compute_engine"@.len() == 18);
}

/// The generic discriminator: an attribute set carrying none of the three
/// platform markers is a generic task exactly when it has a job-like
/// attribute (a service name or a function name) and an instance-like one (a
/// service instance id or a function instance); any other combination is a
/// generic node.
pub proof fn lemma_generic_discriminator(attrs: Seq<(Seq<char>, AttrVal)>)
    requires
        platform_text(attrs) != Some("gcp_compute_engine"@),
        platform_text(attrs) != Some("gcp_kubernetes_engine"@),
        platform_text(attrs) != Some("aws_ec2"@),
    ensures
        classify(attrs) == if (attrs_has(attrs, "service.name"@) || attrs_has(
            attrs,
            "faas.name"@,
        )) && (attrs_has(attrs, "service.instance.id"@) || attrs_has(attrs, "faas.instance"@)) {
            Classification::GenericTask
        } else {
            Classification::GenericNode
        },
{
}

/// The placeholder rule for the job label: a service name with the reserved
/// prefix is passed over in favour of the function name, and re-admitted
/// verbatim when the function name yields nothing.
pub proof fn lemma_job_placeholder(attrs: Seq<(Seq<char>, AttrVal)>)
    requires
        attrs_lookup(attrs, "service.name"@) is Some,
        has_prefix(attr_text(attrs_lookup(attrs, "service.name"@)->Some_0), "unknown_service"@),
    ensures
        attrs_has(attrs, "faas.name"@) ==> label_value(
            attrs,
            seq!["service.name"@, "faas.name"@],
            Seq::<char>::empty(),
        ) == attr_text(attrs_lookup(attrs, "faas.name"@)->Some_0),
        !attrs_has(attrs, "faas.name"@) ==> label_value(
            attrs,
            seq!["service.name"@, "faas.name"@],
            Seq::<char>::empty(),
        ) == attr_text(attrs_lookup(attrs, "service.name"@)->Some_0),
{
    let keys = seq!["service.name"@, "faas.name"@];
    let rest = seq!["faas.name"@];
    reveal_strlit("service.name");
    reveal_strlit("faas.name");
    assert("service.name"@.len() == 12);
    assert("faas.name"@.len() == 9);
    assert(keys[0] == "service.name"@);
    assert(keys.drop_first() =~= rest);
    assert(first_candidate(attrs, keys) == first_candidate(attrs, rest));
    assert(rest[0] == "faas.name"@);
    assert(rest.drop_first() =~= Seq::<Seq<char>>::empty());
    assert(first_candidate(attrs, Seq::<Seq<char>>::empty()) is None);
    match attrs_lookup(attrs, "faas.name"@) {
        Some(w) => {
            assert(first_candidate(attrs, rest) == Some(w));
        },
        None => {
            assert(first_candidate(attrs, rest) is None);
        },
    }
    assert(keys.contains("service.name"@)) by {
        assert(keys[0] == "service.name"@);
    }
}

} // verus!
