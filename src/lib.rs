//! Display-ready views of cluster resources.
pub mod age;
pub mod configmaps;
pub mod ingresses;
pub mod laws;
pub mod meta;
pub mod ns;
pub mod resource;
pub mod storageclass;
pub mod text;

pub use age::to_age;
pub use configmaps::{ConfigMap, KubeConfigMap};
pub use ingresses::{
    HttpIngressPath, HttpIngressRuleValue, Ingress, IngressBackend, IngressRule,
    IngressServiceBackend, IngressSpec, IngressStatus, IngressTls, KubeIng, LoadBalancerIngress,
    LoadBalancerStatus, PortStatus, ServiceBackendPort, TypedLocalObjectReference,
};
pub use meta::{KubeResource, ManagedFieldsEntry, ObjectMeta, OwnerReference};
pub use ns::{KubeNs, Namespace, NamespaceCondition, NamespaceSpec, NamespaceStatus};
pub use resource::{convert, RawResource, ResourceView};
pub use storageclass::{
    KubeStorageClass, StorageClass, TopologySelectorLabelRequirement, TopologySelectorTerm,
};
