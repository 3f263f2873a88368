//! ConfigMap view.
use vstd::prelude::*;
use std::collections::BTreeMap;
use crate::age::{age_of, to_age};
use crate::meta::{sanitize_meta, sanitized_meta, KubeResource, ObjectMeta};
use crate::text::{opt_text, string_or_empty};

verus! {

/// A ConfigMap as decoded from the cluster.
#[derive(Clone, Debug, PartialEq)]
pub struct ConfigMap {
    pub metadata: ObjectMeta,
    pub binary_data: Option<BTreeMap<String, Vec<u8>>>,
    pub data: Option<BTreeMap<String, String>>,
    pub immutable: Option<bool>,
}

/// The display view of a ConfigMap.
#[derive(Clone, Debug, PartialEq)]
pub struct KubeConfigMap {
    pub name: String,
    pub namespace: String,
    pub data: BTreeMap<String, String>,
    pub age: String,
    pub k8s_obj: ConfigMap,
}

/// The key/value pairs of an optional mapping, empty when absent.
pub open spec fn data_map(o: Option<BTreeMap<String, String>>) -> Map<String, String> {
    match o {
        Some(d) => d@,
        None => Map::<String, String>::empty(),
    }
}

pub open spec fn sanitized_config_map(cm: ConfigMap) -> ConfigMap {
    ConfigMap { metadata: sanitized_meta(cm.metadata), ..cm }
}

/// `v` is the view of `cm` as seen at `now`.
pub open spec fn converted_config_map(cm: ConfigMap, now: i64, v: KubeConfigMap) -> bool {
    &&& v.name@ == opt_text(cm.metadata.name)
    &&& v.namespace@ == opt_text(cm.metadata.namespace)
    &&& v.data@ == data_map(cm.data)
    &&& v.age@ == age_of(cm.metadata.creation_timestamp, now)
    &&& v.retained() == sanitized_config_map(cm)
}

/// The copy of a ConfigMap kept for export, with volatile bookkeeping cleared.
pub fn sanitize_config_map(cm: ConfigMap) -> (r: ConfigMap)
    ensures
        r == sanitized_config_map(cm),
{
    ConfigMap { metadata: sanitize_meta(cm.metadata), ..cm }
}

impl KubeConfigMap {
    /// Builds the view of `cm`, its age measured at `now` (seconds since the Unix epoch).
    pub fn from(cm: ConfigMap, now: i64) -> (r: Self)
        ensures
            converted_config_map(cm, now, r),
    {
        let name = string_or_empty(&cm.metadata.name);
        let namespace = string_or_empty(&cm.metadata.namespace);
        let age = to_age(cm.metadata.creation_timestamp, now);
        let data = match &cm.data {
            Some(d) => d.clone(),
            None => BTreeMap::new(),
        };
        KubeConfigMap { name, namespace, data, age, k8s_obj: sanitize_config_map(cm) }
    }
}

impl KubeResource<ConfigMap> for KubeConfigMap {
    open spec fn retained(&self) -> ConfigMap {
        self.k8s_obj
    }

    fn get_k8s_obj(&self) -> (r: &ConfigMap) {
        &self.k8s_obj
    }
}

} // verus!
