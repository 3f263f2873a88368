//! StorageClass view.
use vstd::prelude::*;
use std::collections::BTreeMap;
use crate::age::{age_of, to_age};
use crate::meta::{sanitize_meta, sanitized_meta, KubeResource, ObjectMeta};
use crate::text::{opt_text, string_or_empty};

verus! {

/// One label requirement of a topology selector.
#[derive(Clone, Debug, PartialEq)]
pub struct TopologySelectorLabelRequirement {
    pub key: String,
    pub values: Vec<String>,
}

/// A topology selector: all of its requirements must hold.
#[derive(Clone, Debug, PartialEq)]
pub struct TopologySelectorTerm {
    pub match_label_expressions: Option<Vec<TopologySelectorLabelRequirement>>,
}

/// A StorageClass as decoded from the cluster.
#[derive(Clone, Debug, PartialEq)]
pub struct StorageClass {
    pub metadata: ObjectMeta,
    pub allowed_topologies: Option<Vec<TopologySelectorTerm>>,
    pub provisioner: String,
    pub reclaim_policy: Option<String>,
    pub volume_binding_mode: Option<String>,
    pub allow_volume_expansion: Option<bool>,
    pub mount_options: Option<Vec<String>>,
    pub parameters: Option<BTreeMap<String, String>>,
}

/// The display view of a StorageClass.
#[derive(Clone, Debug, PartialEq)]
pub struct KubeStorageClass {
    pub name: String,
    pub provisioner: String,
    pub reclaim_policy: String,
    pub volume_binding_mode: String,
    pub allow_volume_expansion: bool,
    pub age: String,
    pub k8s_obj: StorageClass,
}

/// The flag held, `false` when absent.
pub open spec fn opt_flag(o: Option<bool>) -> bool {
    match o {
        Some(b) => b,
        None => false,
    }
}

pub open spec fn sanitized_storage_class(sc: StorageClass) -> StorageClass {
    StorageClass { metadata: sanitized_meta(sc.metadata), ..sc }
}

/// `v` is the view of `sc` as seen at `now`.
pub open spec fn converted_storage_class(sc: StorageClass, now: i64, v: KubeStorageClass) -> bool {
    &&& v.name@ == opt_text(sc.metadata.name)
    &&& v.provisioner@ == sc.provisioner@
    &&& v.reclaim_policy@ == opt_text(sc.reclaim_policy)
    &&& v.volume_binding_mode@ == opt_text(sc.volume_binding_mode)
    &&& v.allow_volume_expansion == opt_flag(sc.allow_volume_expansion)
    &&& v.age@ == age_of(sc.metadata.creation_timestamp, now)
    &&& v.retained() == sanitized_storage_class(sc)
}

/// The copy of a StorageClass kept for export, with volatile bookkeeping cleared.
pub fn sanitize_storage_class(sc: StorageClass) -> (r: StorageClass)
    ensures
        r == sanitized_storage_class(sc),
{
    StorageClass { metadata: sanitize_meta(sc.metadata), ..sc }
}

impl KubeStorageClass {
    /// Builds the view of `sc`, its age measured at `now` (seconds since the Unix epoch).
    pub fn from(sc: StorageClass, now: i64) -> (r: Self)
        ensures
            converted_storage_class(sc, now, r),
    {
        let allow_volume_expansion = match sc.allow_volume_expansion {
            Some(b) => b,
            None => false,
        };
        KubeStorageClass {
            name: string_or_empty(&sc.metadata.name),
            provisioner: sc.provisioner.clone(),
            reclaim_policy: string_or_empty(&sc.reclaim_policy),
            volume_binding_mode: string_or_empty(&sc.volume_binding_mode),
            allow_volume_expansion,
            age: to_age(sc.metadata.creation_timestamp, now),
            k8s_obj: sanitize_storage_class(sc),
        }
    }
}

impl KubeResource<StorageClass> for KubeStorageClass {
    open spec fn retained(&self) -> StorageClass {
        self.k8s_obj
    }

    fn get_k8s_obj(&self) -> (r: &StorageClass) {
        &self.k8s_obj
    }
}

} // verus!
