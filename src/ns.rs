//! Namespace view.
use vstd::prelude::*;
use vstd::string::*;
use crate::meta::{sanitize_meta, sanitized_meta, KubeResource, ObjectMeta};
use crate::text::{opt_text, string_or_empty};

verus! {

/// Shown when a namespace reports no phase.
pub const UNKNOWN: &'static str = "Unknown";

/// The desired state of a namespace.
#[derive(Clone, Debug, PartialEq)]
pub struct NamespaceSpec {
    pub finalizers: Option<Vec<String>>,
}

/// One observed condition of a namespace.
#[derive(Clone, Debug, PartialEq)]
pub struct NamespaceCondition {
    /// Seconds since the Unix epoch.
    pub last_transition_time: Option<i64>,
    pub message: Option<String>,
    pub reason: Option<String>,
    pub status: String,
    pub type_: String,
}

/// The observed state of a namespace.
#[derive(Clone, Debug, PartialEq)]
pub struct NamespaceStatus {
    pub conditions: Option<Vec<NamespaceCondition>>,
    pub phase: Option<String>,
}

/// A Namespace as decoded from the cluster.
#[derive(Clone, Debug, PartialEq)]
pub struct Namespace {
    pub metadata: ObjectMeta,
    pub spec: Option<NamespaceSpec>,
    pub status: Option<NamespaceStatus>,
}

/// The display view of a Namespace.
#[derive(Clone, Debug, PartialEq)]
pub struct KubeNs {
    pub name: String,
    pub status: String,
    pub k8s_obj: Namespace,
}

pub open spec fn unknown_text() -> Seq<char> {
    seq!['U', 'n', 'k', 'n', 'o', 'w', 'n']
}

/// The phase of a namespace, or `Unknown` when the status or its phase is absent.
pub open spec fn ns_status_text(ns: Namespace) -> Seq<char> {
    match ns.status {
        Some(st) => match st.phase {
            Some(p) => p@,
            None => unknown_text(),
        },
        None => unknown_text(),
    }
}

pub open spec fn sanitized_namespace(ns: Namespace) -> Namespace {
    Namespace { metadata: sanitized_meta(ns.metadata), ..ns }
}

/// `v` is the view of `ns`.
pub open spec fn converted_namespace(ns: Namespace, v: KubeNs) -> bool {
    &&& v.name@ == opt_text(ns.metadata.name)
    &&& v.status@ == ns_status_text(ns)
    &&& v.retained() == sanitized_namespace(ns)
}

/// The copy of a Namespace kept for export, with volatile bookkeeping cleared.
pub fn sanitize_namespace(ns: Namespace) -> (r: Namespace)
    ensures
        r == sanitized_namespace(ns),
{
    Namespace { metadata: sanitize_meta(ns.metadata), ..ns }
}

fn unknown() -> (r: String)
    ensures
        r@ == unknown_text(),
{
    proof {
        reveal_strlit("Unknown");
    }
    String::from_str(UNKNOWN)
}

impl KubeNs {
    /// Builds the view of `ns`.
    pub fn from(ns: Namespace) -> (r: Self)
        ensures
            converted_namespace(ns, r),
    {
        let status = match &ns.status {
            Some(st) => match &st.phase {
                Some(p) => p.clone(),
                None => unknown(),
            },
            None => unknown(),
        };
        KubeNs {
            name: string_or_empty(&ns.metadata.name),
            status,
            k8s_obj: sanitize_namespace(ns),
        }
    }
}

impl KubeResource<Namespace> for KubeNs {
    open spec fn retained(&self) -> Namespace {
        self.k8s_obj
    }

    fn get_k8s_obj(&self) -> (r: &Namespace) {
        &self.k8s_obj
    }
}

} // verus!
