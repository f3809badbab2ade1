//! The attribute keys and label names this library reads and emits.

use vstd::prelude::*;

verus! {

/// The well-known attribute keys of detected resources.
pub struct ResourceAttributes;

impl ResourceAttributes {
    pub const AWS_EC2: &'static str = "aws_ec2";

    pub const CLOUD_ACCOUNT_ID: &'static str = "cloud.account.id";

    pub const CLOUD_AVAILABILITY_ZONE: &'static str = "cloud.availability_zone";

    pub const CLOUD_PLATFORM_KEY: &'static str = "cloud.platform";

    pub const CLOUD_PROVIDER: &'static str = "cloud.provider";

    pub const CLOUD_REGION: &'static str = "cloud.region";

    pub const GCP_COMPUTE_ENGINE: &'static str = "gcp_compute_engine";

    pub const GCP_KUBERNETES_ENGINE: &'static str = "gcp_kubernetes_engine";

    pub const HOST_ID: &'static str = "host.id";

    pub const HOST_NAME: &'static str = "host.name";

    pub const HOST_TYPE: &'static str = "host.type";

    pub const K8S_CLUSTER_NAME: &'static str = "k8s.cluster.name";

    pub const K8S_CONTAINER_NAME: &'static str = "k8s.container.name";

    pub const K8S_NAMESPACE_NAME: &'static str = "k8s.namespace.name";

    pub const K8S_NODE_NAME: &'static str = "k8s.node.name";

    pub const K8S_POD_NAME: &'static str = "k8s.pod.name";

    pub const SERVICE_INSTANCE_ID: &'static str = "service.instance.id";

    pub const SERVICE_NAME: &'static str = "service.name";

    pub const SERVICE_NAMESPACE: &'static str = "service.namespace";

    pub const FAAS_INSTANCE: &'static str = "faas.instance";

    pub const FAAS_NAME: &'static str = "faas.name";
}

pub const AWS_ACCOUNT: &'static str = "aws_account";

pub const AWS_EC2_INSTANCE: &'static str = "aws_ec2_instance";

pub const CLUSTER_NAME: &'static str = "cluster_name";

pub const CONTAINER_NAME: &'static str = "container_name";

pub const GCE_INSTANCE: &'static str = "gce_instance";

pub const GENERIC_NODE: &'static str = "generic_node";

pub const GENERIC_TASK: &'static str = "generic_task";

pub const INSTANCE_ID: &'static str = "instance_id";

pub const JOB: &'static str = "job";

pub const K8S_CLUSTER: &'static str = "k8s_cluster";

pub const K8S_CONTAINER: &'static str = "k8s_container";

pub const K8S_NODE: &'static str = "k8s_node";

pub const K8S_POD: &'static str = "k8s_pod";

pub const LOCATION: &'static str = "location";

pub const NAMESPACE: &'static str = "namespace";

pub const NAMESPACE_NAME: &'static str = "namespace_name";

pub const NODE_ID: &'static str = "node_id";

pub const NODE_NAME: &'static str = "node_name";

pub const POD_NAME: &'static str = "pod_name";

pub const REGION: &'static str = "region";

pub const TASK_ID: &'static str = "task_id";

pub const ZONE: &'static str = "zone";

pub const UNKNOWN_SERVICE_PREFIX: &'static str = "unknown_service";

} // verus!
