//! Object metadata shared by every kind, its sanitization, and the uniform
//! accessor through which a view exposes its retained object.
use vstd::prelude::*;
use std::collections::BTreeMap;

verus! {

/// One entry of server-side field-management bookkeeping.
#[derive(Clone, Debug, PartialEq)]
pub struct ManagedFieldsEntry {
    pub manager: Option<String>,
    pub operation: Option<String>,
    pub api_version: Option<String>,
    /// Seconds since the Unix epoch.
    pub time: Option<i64>,
}

/// A reference to an object that owns this one.
#[derive(Clone, Debug, PartialEq)]
pub struct OwnerReference {
    pub api_version: String,
    pub block_owner_deletion: Option<bool>,
    pub controller: Option<bool>,
    pub kind: String,
    pub name: String,
    pub uid: String,
}

/// The metadata block of a resource.
#[derive(Clone, Debug, PartialEq)]
pub struct ObjectMeta {
    pub annotations: Option<BTreeMap<String, String>>,
    pub cluster_name: Option<String>,
    /// Seconds since the Unix epoch.
    pub creation_timestamp: Option<i64>,
    pub deletion_grace_period_seconds: Option<i64>,
    /// Seconds since the Unix epoch.
    pub deletion_timestamp: Option<i64>,
    pub finalizers: Option<Vec<String>>,
    pub generate_name: Option<String>,
    pub generation: Option<i64>,
    pub labels: Option<BTreeMap<String, String>>,
    pub managed_fields: Option<Vec<ManagedFieldsEntry>>,
    pub name: Option<String>,
    pub namespace: Option<String>,
    pub owner_references: Option<Vec<OwnerReference>>,
    pub resource_version: Option<String>,
    pub self_link: Option<String>,
    pub uid: Option<String>,
}

/// Metadata with the volatile bookkeeping (resource version, field management)
/// cleared and every other field kept.
pub open spec fn sanitized_meta(m: ObjectMeta) -> ObjectMeta {
    ObjectMeta { resource_version: None, managed_fields: None, ..m }
}

/// Clears the fields that change over time without a change of the resource itself.
pub fn sanitize_meta(m: ObjectMeta) -> (r: ObjectMeta)
    ensures
        r == sanitized_meta(m),
{
    ObjectMeta { resource_version: None, managed_fields: None, ..m }
}

/// Implemented by every view: exposes the sanitized copy of the object it was made from.
pub trait KubeResource<T> {
    spec fn retained(&self) -> T;

    fn get_k8s_obj(&self) -> (r: &T)
        ensures
            *r == self.retained(),
    ;
}

} // verus!
