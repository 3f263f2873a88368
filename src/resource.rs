//! One entry point for every supported kind.
use vstd::prelude::*;
use crate::configmaps::{converted_config_map, ConfigMap, KubeConfigMap};
use crate::ingresses::{converted_ingress, Ingress, KubeIng};
use crate::ns::{converted_namespace, KubeNs, Namespace};
use crate::storageclass::{converted_storage_class, KubeStorageClass, StorageClass};

verus! {

/// A decoded resource of one of the supported kinds.
#[derive(Clone, Debug, PartialEq)]
pub enum RawResource {
    ConfigMap(ConfigMap),
    Namespace(Namespace),
    StorageClass(StorageClass),
    Ingress(Ingress),
}

/// The view of a resource, of the same kind as the resource it was made from.
#[derive(Clone, Debug, PartialEq)]
pub enum ResourceView {
    ConfigMap(KubeConfigMap),
    Namespace(KubeNs),
    StorageClass(KubeStorageClass),
    Ingress(KubeIng),
}

/// `v` is the view of `raw` as seen at `now`.
pub open spec fn converted(raw: RawResource, now: i64, v: ResourceView) -> bool {
    match (raw, v) {
        (RawResource::ConfigMap(r), ResourceView::ConfigMap(w)) => converted_config_map(r, now, w),
        (RawResource::Namespace(r), ResourceView::Namespace(w)) => converted_namespace(r, w),
        (RawResource::StorageClass(r), ResourceView::StorageClass(w)) => converted_storage_class(
            r,
            now,
            w,
        ),
        (RawResource::Ingress(r), ResourceView::Ingress(w)) => converted_ingress(r, now, w),
        _ => false,
    }
}

/// Builds the view of `raw` with the converter of its kind, ages measured at `now`.
pub fn convert(raw: RawResource, now: i64) -> (r: ResourceView)
    ensures
        converted(raw, now, r),
{
    match raw {
        RawResource::ConfigMap(cm) => ResourceView::ConfigMap(KubeConfigMap::from(cm, now)),
        RawResource::Namespace(ns) => ResourceView::Namespace(KubeNs::from(ns)),
        RawResource::StorageClass(sc) => ResourceView::StorageClass(KubeStorageClass::from(sc, now)),
        RawResource::Ingress(ing) => ResourceView::Ingress(KubeIng::from(ing, now)),
    }
}

} // verus!
