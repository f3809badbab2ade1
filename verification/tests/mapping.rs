use gcp_resource_detector::attrs::{encode_attr, AttrValue, AttributeSet};
use gcp_resource_detector::mapping::{get_monitored_resource, MonitoredResourceData};

fn attrs_of(pairs: Vec<(&str, &str)>) -> AttributeSet {
    AttributeSet {
        entries: pairs
            .into_iter()
            .map(|(k, v)| (k.to_string(), AttrValue::Str(v.to_string())))
            .collect(),
    }
}

fn sorted_labels(d: &MonitoredResourceData) -> Vec<(String, String)> {
    let mut v: Vec<(String, String)> =
        d.labels.iter().map(|(k, val)| (k.clone(), val.clone())).collect();
    v.sort();
    v
}

fn sorted_expected(pairs: Vec<(&str, &str)>) -> Vec<(String, String)> {
    let mut v: Vec<(String, String)> =
        pairs.into_iter().map(|(k, val)| (k.to_string(), val.to_string())).collect();
    v.sort();
    v
}

#[test]
fn test_get_monitored_resource_k8s_container() {
    let res = attrs_of(vec![
        ("cloud.platform", "gcp_kubernetes_engine"),
        ("cloud.availability_zone", "myavailzone"),
        ("k8s.cluster.name", "mycluster"),
        ("k8s.namespace.name", "myns"),
        ("k8s.pod.name", "mypod"),
        ("k8s.container.name", "mycontainer"),
    ]);
    let monitored_resource = get_monitored_resource(&res);
    assert!(monitored_resource.is_some());
    let mr = monitored_resource.unwrap();
    assert_eq!(mr.resource_type, "k8s_container");
    assert_eq!(
        sorted_labels(&mr),
        sorted_expected(vec![
            ("cluster_name", "mycluster"),
            ("container_name", "mycontainer"),
            ("location", "myavailzone"),
            ("namespace_name", "myns"),
            ("pod_name", "mypod"),
        ])
    );
}

#[test]
fn test_get_monitored_resource_k8s_container_region_fallback() {
    let res = attrs_of(vec![
        ("cloud.platform", "gcp_kubernetes_engine"),
        ("cloud.region", "myregion"),
        ("k8s.cluster.name", "mycluster"),
        ("k8s.namespace.name", "myns"),
        ("k8s.pod.name", "mypod"),
        ("k8s.container.name", "mycontainer"),
    ]);
    let monitored_resource = get_monitored_resource(&res);
    assert!(monitored_resource.is_some());
    let mr = monitored_resource.unwrap();
    assert_eq!(mr.resource_type, "k8s_container");
    assert_eq!(
        sorted_labels(&mr),
        sorted_expected(vec![
            ("cluster_name", "mycluster"),
            ("container_name", "mycontainer"),
            ("location", "myregion"),
            ("namespace_name", "myns"),
            ("pod_name", "mypod"),
        ])
    );
}

#[test]
fn test_get_monitored_resource_k8s_pod() {
    let res = attrs_of(vec![
        ("cloud.platform", "gcp_kubernetes_engine"),
        ("cloud.availability_zone", "myavailzone"),
        ("k8s.cluster.name", "mycluster"),
        ("k8s.namespace.name", "myns"),
        ("k8s.pod.name", "mypod"),
    ]);
    let monitored_resource = get_monitored_resource(&res);
    assert!(monitored_resource.is_some());
    let mr = monitored_resource.unwrap();
    assert_eq!(mr.resource_type, "k8s_pod");
    assert_eq!(
        sorted_labels(&mr),
        sorted_expected(vec![
            ("cluster_name", "mycluster"),
            ("location", "myavailzone"),
            ("namespace_name", "myns"),
            ("pod_name", "mypod"),
        ])
    );
}

#[test]
fn test_get_monitored_resource_k8s_pod_region_fallback() {
    let res = attrs_of(vec![
        ("cloud.platform", "gcp_kubernetes_engine"),
        ("cloud.region", "myregion"),
        ("k8s.cluster.name", "mycluster"),
        ("k8s.namespace.name", "myns"),
        ("k8s.pod.name", "mypod"),
    ]);
    let monitored_resource = get_monitored_resource(&res);
    assert!(monitored_resource.is_some());
    let mr = monitored_resource.unwrap();
    assert_eq!(mr.resource_type, "k8s_pod");
    assert_eq!(
        sorted_labels(&mr),
        sorted_expected(vec![
            ("cluster_name", "mycluster"),
            ("location", "myregion"),
            ("namespace_name", "myns"),
            ("pod_name", "mypod"),
        ])
    );
}

#[test]
fn test_get_monitored_resource_k8s_node() {
    let res = attrs_of(vec![
        ("cloud.platform", "gcp_kubernetes_engine"),
        ("cloud.availability_zone", "myavailzone"),
        ("k8s.cluster.name", "mycluster"),
        ("k8s.namespace.name", "myns"),
        ("k8s.node.name", "mynode"),
    ]);
    let monitored_resource = get_monitored_resource(&res);
    assert!(monitored_resource.is_some());
    let mr = monitored_resource.unwrap();
    assert_eq!(mr.resource_type, "k8s_node");
    assert_eq!(
        sorted_labels(&mr),
        sorted_expected(vec![
            ("cluster_name", "mycluster"),
            ("location", "myavailzone"),
            ("node_name", "mynode"),
        ])
    );
}

#[test]
fn test_get_monitored_resource_k8s_node_region_fallback() {
    let res = attrs_of(vec![
        ("cloud.platform", "gcp_kubernetes_engine"),
        ("cloud.region", "myregion"),
        ("k8s.cluster.name", "mycluster"),
        ("k8s.namespace.name", "myns"),
        ("k8s.node.name", "mynode"),
    ]);
    let monitored_resource = get_monitored_resource(&res);
    assert!(monitored_resource.is_some());
    let mr = monitored_resource.unwrap();
    assert_eq!(mr.resource_type, "k8s_node");
    assert_eq!(
        sorted_labels(&mr),
        sorted_expected(vec![
            ("cluster_name", "mycluster"),
            ("location", "myregion"),
            ("node_name", "mynode"),
        ])
    );
}

#[test]
fn test_get_monitored_resource_k8s_cluster() {
    let res = attrs_of(vec![
        ("cloud.platform", "gcp_kubernetes_engine"),
        ("cloud.availability_zone", "myavailzone"),
        ("k8s.cluster.name", "mycluster"),
        ("k8s.namespace.name", "myns"),
    ]);
    let monitored_resource = get_monitored_resource(&res);
    assert!(monitored_resource.is_some());
    let mr = monitored_resource.unwrap();
    assert_eq!(mr.resource_type, "k8s_cluster");
    assert_eq!(
        sorted_labels(&mr),
        sorted_expected(vec![("cluster_name", "mycluster"), ("location", "myavailzone")])
    );
}

#[test]
fn test_get_monitored_resource_k8s_cluster_region_fallback() {
    let res = attrs_of(vec![
        ("cloud.platform", "gcp_kubernetes_engine"),
        ("cloud.region", "myregion"),
        ("k8s.cluster.name", "mycluster"),
        ("k8s.namespace.name", "myns"),
    ]);
    let monitored_resource = get_monitored_resource(&res);
    assert!(monitored_resource.is_some());
    let mr = monitored_resource.unwrap();
    assert_eq!(mr.resource_type, "k8s_cluster");
    assert_eq!(
        sorted_labels(&mr),
        sorted_expected(vec![("cluster_name", "mycluster"), ("location", "myregion")])
    );
}

#[test]
fn test_get_monitored_resource_aws_ec2() {
    let res = attrs_of(vec![
        ("cloud.platform", "aws_ec2"),
        ("cloud.availability_zone", "myavailzone"),
        ("host.id", "myhostid"),
        ("cloud.account.id", "myawsaccount"),
    ]);
    let monitored_resource = get_monitored_resource(&res);
    assert!(monitored_resource.is_some());
    let mr = monitored_resource.unwrap();
    assert_eq!(mr.resource_type, "aws_ec2_instance");
    assert_eq!(
        sorted_labels(&mr),
        sorted_expected(vec![
            ("aws_account", "myawsaccount"),
            ("instance_id", "myhostid"),
            ("region", "myavailzone"),
        ])
    );
}

#[test]
fn test_get_monitored_resource_aws_ec2_region_fallback() {
    let res = attrs_of(vec![
        ("cloud.platform", "aws_ec2"),
        ("cloud.region", "myregion"),
        ("host.id", "myhostid"),
        ("cloud.account.id", "myawsaccount"),
    ]);
    let monitored_resource = get_monitored_resource(&res);
    assert!(monitored_resource.is_some());
    let mr = monitored_resource.unwrap();
    assert_eq!(mr.resource_type, "aws_ec2_instance");
    assert_eq!(
        sorted_labels(&mr),
        sorted_expected(vec![
            ("aws_account", "myawsaccount"),
            ("instance_id", "myhostid"),
            ("region", "myregion"),
        ])
    );
}

#[test]
fn test_get_monitored_resource_generic_task() {
    let res = attrs_of(vec![
        ("cloud.availability_zone", "myavailzone"),
        ("service.namespace", "servicens"),
        ("service.name", "servicename"),
        ("service.instance.id", "serviceinstanceid"),
    ]);
    let monitored_resource = get_monitored_resource(&res);
    assert!(monitored_resource.is_some());
    let mr = monitored_resource.unwrap();
    assert_eq!(mr.resource_type, "generic_task");
    assert_eq!(
        sorted_labels(&mr),
        sorted_expected(vec![
            ("job", "servicename"),
            ("location", "myavailzone"),
            ("namespace", "servicens"),
            ("task_id", "serviceinstanceid"),
        ])
    );
}

#[test]
fn test_get_monitored_resource_generic_task_fallback_region() {
    let res = attrs_of(vec![
        ("cloud.region", "myregion"),
        ("service.namespace", "servicens"),
        ("service.name", "servicename"),
        ("service.instance.id", "serviceinstanceid"),
    ]);
    let monitored_resource = get_monitored_resource(&res);
    assert!(monitored_resource.is_some());
    let mr = monitored_resource.unwrap();
    assert_eq!(mr.resource_type, "generic_task");
    assert_eq!(
        sorted_labels(&mr),
        sorted_expected(vec![
            ("job", "servicename"),
            ("location", "myregion"),
            ("namespace", "servicens"),
            ("task_id", "serviceinstanceid"),
        ])
    );
}

#[test]
fn test_get_monitored_resource_generic_task_fallback_global() {
    let res = attrs_of(vec![
        ("service.namespace", "servicens"),
        ("service.name", "servicename"),
        ("service.instance.id", "serviceinstanceid"),
    ]);
    let monitored_resource = get_monitored_resource(&res);
    assert!(monitored_resource.is_some());
    let mr = monitored_resource.unwrap();
    assert_eq!(mr.resource_type, "generic_task");
    assert_eq!(
        sorted_labels(&mr),
        sorted_expected(vec![
            ("job", "servicename"),
            ("location", "global"),
            ("namespace", "servicens"),
            ("task_id", "serviceinstanceid"),
        ])
    );
}

#[test]
fn test_get_monitored_resource_generic_task_faas() {
    let res = attrs_of(vec![
        ("service.name", "unknown_service"),
        ("cloud.region", "myregion"),
        ("service.namespace", "servicens"),
        ("faas.name", "faasname"),
        ("faas.instance", "faasinstance"),
    ]);
    let monitored_resource = get_monitored_resource(&res);
    assert!(monitored_resource.is_some());
    let mr = monitored_resource.unwrap();
    assert_eq!(mr.resource_type, "generic_task");
    assert_eq!(
        sorted_labels(&mr),
        sorted_expected(vec![
            ("job", "faasname"),
            ("location", "myregion"),
            ("namespace", "servicens"),
            ("task_id", "faasinstance"),
        ])
    );
}

#[test]
fn test_get_monitored_resource_generic_task_faas_fallback() {
    let res = attrs_of(vec![
        ("service.name", "unknown_service"),
        ("cloud.region", "myregion"),
        ("service.namespace", "servicens"),
        ("faas.instance", "faasinstance"),
    ]);
    let monitored_resource = get_monitored_resource(&res);
    assert!(monitored_resource.is_some());
    let mr = monitored_resource.unwrap();
    assert_eq!(mr.resource_type, "generic_task");
    assert_eq!(
        sorted_labels(&mr),
        sorted_expected(vec![
            ("job", "unknown_service"),
            ("location", "myregion"),
            ("namespace", "servicens"),
            ("task_id", "faasinstance"),
        ])
    );
}

#[test]
fn test_get_monitored_resource_generic_node() {
    let res = attrs_of(vec![
        ("cloud.availability_zone", "myavailzone"),
        ("service.namespace", "servicens"),
        ("service.name", "servicename"),
        ("host.id", "hostid"),
    ]);
    let monitored_resource = get_monitored_resource(&res);
    assert!(monitored_resource.is_some());
    let mr = monitored_resource.unwrap();
    assert_eq!(mr.resource_type, "generic_node");
    assert_eq!(
        sorted_labels(&mr),
        sorted_expected(vec![
            ("location", "myavailzone"),
            ("namespace", "servicens"),
            ("node_id", "hostid"),
        ])
    );
}

#[test]
fn test_get_monitored_resource_generic_node_fallback_region() {
    let res = attrs_of(vec![
        ("cloud.region", "myregion"),
        ("service.namespace", "servicens"),
        ("service.name", "servicename"),
        ("host.id", "hostid"),
    ]);
    let monitored_resource = get_monitored_resource(&res);
    assert!(monitored_resource.is_some());
    let mr = monitored_resource.unwrap();
    assert_eq!(mr.resource_type, "generic_node");
    assert_eq!(
        sorted_labels(&mr),
        sorted_expected(vec![
            ("location", "myregion"),
            ("namespace", "servicens"),
            ("node_id", "hostid"),
        ])
    );
}

#[test]
fn test_get_monitored_resource_generic_node_fallback_global() {
    let res = attrs_of(vec![
        ("service.namespace", "servicens"),
        ("service.name", "servicename"),
        ("host.id", "hostid"),
    ]);
    let monitored_resource = get_monitored_resource(&res);
    assert!(monitored_resource.is_some());
    let mr = monitored_resource.unwrap();
    assert_eq!(mr.resource_type, "generic_node");
    assert_eq!(
        sorted_labels(&mr),
        sorted_expected(vec![
            ("location", "global"),
            ("namespace", "servicens"),
            ("node_id", "hostid"),
        ])
    );
}

#[test]
fn test_get_monitored_resource_generic_node_fallback_host_name() {
    let res = attrs_of(vec![
        ("service.namespace", "servicens"),
        ("service.name", "servicename"),
        ("host.id", "hostid"),
    ]);
    let monitored_resource = get_monitored_resource(&res);
    assert!(monitored_resource.is_some());
    let mr = monitored_resource.unwrap();
    assert_eq!(mr.resource_type, "generic_node");
}

#[test]
fn test_get_monitored_resource_fallback_generic_node() {
    let res = attrs_of(vec![("foo", "bar"), ("no.useful", "resourceattribs")]);
    let monitored_resource = get_monitored_resource(&res);
    assert!(monitored_resource.is_some());
    let mr = monitored_resource.unwrap();
    assert_eq!(mr.resource_type, "generic_node");
    assert_eq!(
        sorted_labels(&mr),
        sorted_expected(vec![("location", "global"), ("namespace", ""), ("node_id", "")])
    );
}

#[test]
fn test_get_monitored_resource_empty() {
    let res = AttributeSet { entries: vec![] };
    let monitored_resource = get_monitored_resource(&res);
    assert!(monitored_resource.is_some());
    let mr = monitored_resource.unwrap();
    assert_eq!(mr.resource_type, "generic_node");
    assert_eq!(
        sorted_labels(&mr),
        sorted_expected(vec![("location", "global"), ("namespace", ""), ("node_id", "")])
    );
}

#[test]
fn test_non_string_values() {
    fn non_string_expect(value: AttrValue, expect: Option<String>) {
        let res = AttributeSet { entries: vec![("host.id".to_string(), value)] };
        let monitored_resource = get_monitored_resource(&res);
        assert!(monitored_resource.is_some());
        if let Some(monitored_resource) = monitored_resource {
            assert_eq!(
                monitored_resource.get_label("node_id").cloned(),
                expect
            );
        }
    }

    non_string_expect(AttrValue::Int(123), Some("123".to_string()));
    non_string_expect(AttrValue::Raw("123.4".to_string()), Some("123.4".to_string()));
    non_string_expect(AttrValue::IntArray(vec![1, 2, 3, 4]), Some("[1,2,3,4]".to_string()));
    non_string_expect(
        AttrValue::Raw("[1.1,2.2,3.3,4.4]".to_string()),
        Some("[1.1,2.2,3.3,4.4]".to_string()),
    );
    non_string_expect(
        AttrValue::StrArray(vec![
            "a".to_string(),
            "b".to_string(),
            "c".to_string(),
            "d".to_string(),
        ]),
        Some("[\"a\",\"b\",\"c\",\"d\"]".to_string()),
    );
}

#[test]
fn test_encode_attr_forms() {
    assert_eq!(encode_attr(&AttrValue::Str("plain".to_string())), "plain");
    assert_eq!(encode_attr(&AttrValue::Int(0)), "0");
    assert_eq!(encode_attr(&AttrValue::Int(-45)), "-45");
    assert_eq!(encode_attr(&AttrValue::Int(i64::MIN)), "-9223372036854775808");
    assert_eq!(encode_attr(&AttrValue::Int(i64::MAX)), "9223372036854775807");
    assert_eq!(encode_attr(&AttrValue::Bool(true)), "true");
    assert_eq!(encode_attr(&AttrValue::Bool(false)), "false");
    assert_eq!(encode_attr(&AttrValue::BoolArray(vec![true, false])), "[true,false]");
    assert_eq!(encode_attr(&AttrValue::IntArray(vec![])), "[]");
    assert_eq!(encode_attr(&AttrValue::IntArray(vec![-1, 10])), "[-1,10]");
    assert_eq!(
        encode_attr(&AttrValue::StrArray(vec!["x".to_string()])),
        "[\"x\"]"
    );
}
