use std::collections::BTreeMap;

use kube_views::{
    convert, to_age, IngressStatus, IngressTls, LoadBalancerIngress, LoadBalancerStatus,
    NamespaceCondition, NamespaceSpec, OwnerReference, PortStatus, RawResource, ResourceView,
    TopologySelectorLabelRequirement, TopologySelectorTerm, ConfigMap, HttpIngressPath, HttpIngressRuleValue, Ingress, IngressBackend, IngressRule,
    IngressServiceBackend, IngressSpec, KubeConfigMap, KubeIng, KubeNs, KubeResource,
    KubeStorageClass, Namespace, NamespaceStatus, ObjectMeta, ServiceBackendPort, StorageClass,
    TypedLocalObjectReference,
};

const DAY: i64 = 86_400;

fn meta(name: &str, namespace: Option<&str>, created: Option<i64>) -> ObjectMeta {
    ObjectMeta {
        annotations: None,
        cluster_name: None,
        creation_timestamp: created,
        deletion_grace_period_seconds: None,
        deletion_timestamp: None,
        finalizers: None,
        generate_name: None,
        generation: Some(1),
        labels: None,
        managed_fields: Some(vec![]),
        name: Some(name.to_string()),
        namespace: namespace.map(|s| s.to_string()),
        owner_references: None,
        resource_version: Some("777".to_string()),
        self_link: None,
        uid: None,
    }
}

fn empty_meta() -> ObjectMeta {
    ObjectMeta {
        annotations: None,
        cluster_name: None,
        creation_timestamp: None,
        deletion_grace_period_seconds: None,
        deletion_timestamp: None,
        finalizers: None,
        generate_name: None,
        generation: None,
        labels: None,
        managed_fields: None,
        name: None,
        namespace: None,
        owner_references: None,
        resource_version: None,
        self_link: None,
        uid: None,
    }
}

fn namespace(name: &str, phase: Option<&str>) -> Namespace {
    Namespace {
        metadata: meta(name, None, Some(1_620_683_280)),
        spec: Some(NamespaceSpec { finalizers: Some(vec!["kubernetes".to_string()]) }),
        status: Some(NamespaceStatus { conditions: None, phase: phase.map(|s| s.to_string()) }),
    }
}

fn ebs_storage_class() -> StorageClass {
    storage_class("ebs-performance", "kubernetes.io/aws-ebs", 1_639_480_139)
}

fn storage_class(name: &str, provisioner: &str, created: i64) -> StorageClass {
    StorageClass {
        metadata: meta(name, None, Some(created)),
        allowed_topologies: None,
        provisioner: provisioner.to_string(),
        reclaim_policy: Some("Delete".to_string()),
        volume_binding_mode: Some("Immediate".to_string()),
        allow_volume_expansion: None,
        mount_options: None,
        parameters: None,
    }
}

fn service(name: &str, port_name: Option<&str>, port_number: Option<i32>) -> IngressBackend {
    IngressBackend {
        resource: None,
        service: Some(IngressServiceBackend {
            name: name.to_string(),
            port: Some(ServiceBackendPort {
                name: port_name.map(|s| s.to_string()),
                number: port_number,
            }),
        }),
    }
}

fn resource(kind: &str, name: &str) -> IngressBackend {
    IngressBackend {
        resource: Some(TypedLocalObjectReference {
            api_group: Some("k8s.example.com".to_string()),
            kind: kind.to_string(),
            name: name.to_string(),
        }),
        service: None,
    }
}

fn path(backend: IngressBackend, path_type: &str, p: &str) -> HttpIngressPath {
    HttpIngressPath {
        backend,
        path: Some(p.to_string()),
        path_type: Some(path_type.to_string()),
    }
}

fn sample_ingress() -> Ingress {
    Ingress {
        metadata: meta("web", Some("default"), Some(0)),
        spec: Some(IngressSpec {
            default_backend: Some(service("default-http-backend", None, Some(80))),
            ingress_class_name: Some("traefik".to_string()),
            rules: Some(vec![
                IngressRule {
                    host: Some("example.com".to_string()),
                    http: Some(HttpIngressRuleValue {
                        paths: vec![
                            path(service("web", Some("http"), Some(8000)), "Prefix", "/"),
                            path(service("api", None, Some(8080)), "Exact", "/api"),
                            path(
                                resource("StorageBucket", "static-assets"),
                                "ImplementationSpecific",
                                "/static",
                            ),
                        ],
                    }),
                },
                IngressRule { host: None, http: None },
            ]),
            tls: None,
        }),
        status: None,
    }
}

#[test]
fn test_namespace_from_api() {
    let ns_list = vec![
        namespace("default", Some("Active")),
        namespace("kube-system", Some("Active")),
        namespace("kube-public", Some("Active")),
        namespace("kube-node-lease", Some("Active")),
    ];
    let nss: Vec<KubeNs> = ns_list.iter().map(|ns| KubeNs::from(ns.clone())).collect();

    assert_eq!(nss.len(), 4);
    let mut expected_obj = ns_list[0].clone();
    expected_obj.metadata.resource_version = None;
    expected_obj.metadata.managed_fields = None;
    assert_eq!(
        nss[0],
        KubeNs { name: "default".into(), status: "Active".into(), k8s_obj: expected_obj }
    );
}

#[test]
fn test_storageclass_from_api() {
    let now = 1_700_000_000;
    let storage_classes_list = vec![
        ebs_storage_class(),
        storage_class("ebs-standard", "kubernetes.io/aws-ebs", 1_639_480_140),
        storage_class("local-path", "rancher.io/local-path", 1_620_683_282),
        storage_class("nfs", "example.com/nfs", 1_639_480_141),
    ];
    let storage_classes: Vec<KubeStorageClass> =
        storage_classes_list.iter().map(|sc| KubeStorageClass::from(sc.clone(), now)).collect();
    assert_eq!(storage_classes_list.len(), 4);
    let mut expected_obj = storage_classes_list[0].clone();
    expected_obj.metadata.resource_version = None;
    expected_obj.metadata.managed_fields = None;
    assert_eq!(
        storage_classes[0],
        KubeStorageClass {
            name: "ebs-performance".into(),
            provisioner: "kubernetes.io/aws-ebs".into(),
            reclaim_policy: "Delete".into(),
            volume_binding_mode: "Immediate".into(),
            allow_volume_expansion: false,
            age: to_age(Some(1_639_480_139), now),
            k8s_obj: expected_obj,
        }
    );
}

#[test]
fn age_formats() {
    assert_eq!(to_age(None, 1_000), "");
    assert_eq!(to_age(Some(1_000), 1_000), "0m");
    assert_eq!(to_age(Some(0), 59), "0m");
    assert_eq!(to_age(Some(0), 60), "1m");
    assert_eq!(to_age(Some(0), 3_600), "1h");
    assert_eq!(to_age(Some(0), 3_660), "1h1m");
    assert_eq!(to_age(Some(0), 16 * 3_600 + 120), "16h2m");
    assert_eq!(to_age(Some(0), 3 * DAY), "3d");
    assert_eq!(to_age(Some(0), DAY + 3_600 + 60), "1d1h");
    assert_eq!(to_age(Some(0), 7 * 7 * DAY + DAY + 2 * 3_600), "7w1d2h");
    assert_eq!(to_age(Some(0), 14 * DAY + 59), "2w");
    assert_eq!(to_age(Some(-100), 1_000_000_000), "1653w3d1h");
}

#[test]
fn age_in_the_future_reads_zero() {
    assert_eq!(to_age(Some(5_000), 1_000), "0m");
    assert_eq!(to_age(Some(i64::MAX), i64::MIN), "0m");
}

#[test]
fn age_across_the_whole_range() {
    // i64::MAX - i64::MIN seconds, a little over 30 trillion weeks.
    let age = to_age(Some(i64::MIN), i64::MAX);
    assert_eq!(age, "30500568904943w7h");
}

#[test]
fn config_map_cluster_dns_after_four_hundred_days() {
    let created = 1_620_683_286; // 2021-05-10T21:48:06Z
    let mut data = BTreeMap::new();
    data.insert("clusterDNS".to_string(), "10.43.0.10".to_string());
    data.insert("clusterDomain".to_string(), "cluster.local".to_string());
    let cm = ConfigMap {
        metadata: meta("cluster-dns", Some("kube-system"), Some(created)),
        binary_data: None,
        data: Some(data.clone()),
        immutable: None,
    };
    let v = KubeConfigMap::from(cm, created + 400 * DAY);
    assert_eq!(v.name, "cluster-dns");
    assert_eq!(v.namespace, "kube-system");
    assert_eq!(v.data, data);
    assert_eq!(v.age, "57w1d");
}

#[test]
fn config_map_absent_fields_default() {
    let cm = ConfigMap { metadata: empty_meta(), binary_data: None, data: None, immutable: None };
    let v = KubeConfigMap::from(cm.clone(), 10);
    assert_eq!(v.name, "");
    assert_eq!(v.namespace, "");
    assert!(v.data.is_empty());
    assert_eq!(v.age, "");
    assert_eq!(v.get_k8s_obj(), &cm);
}

#[test]
fn config_map_conversion_is_deterministic() {
    let mut data = BTreeMap::new();
    data.insert("a".to_string(), "1".to_string());
    data.insert("b".to_string(), "".to_string());
    let cm = ConfigMap {
        metadata: meta("x", Some("ns"), Some(0)),
        binary_data: None,
        data: Some(data.clone()),
        immutable: Some(true),
    };
    let v1 = KubeConfigMap::from(cm.clone(), DAY);
    let v2 = KubeConfigMap::from(cm.clone(), DAY);
    let v3 = KubeConfigMap::from(cm, 2 * DAY);
    assert_eq!(v1, v2);
    assert_eq!(v1.data, data);
    assert_eq!(v1.get_k8s_obj(), v3.get_k8s_obj());
    assert_eq!(
        (v1.name.clone(), v1.namespace.clone(), v1.data.clone()),
        (v3.name, v3.namespace, v3.data)
    );
    assert_eq!(v1.age, "1d");
    assert_eq!(v3.age, "2d");
}

#[test]
fn sanitized_copy_clears_bookkeeping_only() {
    let cm = ConfigMap {
        metadata: meta("x", Some("ns"), Some(0)),
        binary_data: None,
        data: None,
        immutable: Some(false),
    };
    let v = KubeConfigMap::from(cm.clone(), 0);
    let kept = v.get_k8s_obj();
    assert_eq!(kept.metadata.resource_version, None);
    assert_eq!(kept.metadata.managed_fields, None);
    assert_eq!(kept.metadata.name, cm.metadata.name);
    assert_eq!(kept.metadata.generation, Some(1));
    assert_eq!(kept.immutable, Some(false));
}

#[test]
fn namespace_without_status_or_phase_is_unknown() {
    let no_status = Namespace { metadata: meta("a", None, None), spec: None, status: None };
    assert_eq!(KubeNs::from(no_status).status, "Unknown");
    assert_eq!(KubeNs::from(namespace("b", None)).status, "Unknown");
    assert_eq!(KubeNs::from(namespace("c", Some("Terminating"))).status, "Terminating");
}

#[test]
fn storage_class_absent_fields_default() {
    let mut sc = ebs_storage_class();
    sc.reclaim_policy = None;
    sc.volume_binding_mode = None;
    sc.allow_volume_expansion = None;
    sc.metadata.creation_timestamp = None;
    let v = KubeStorageClass::from(sc, 0);
    assert_eq!(v.reclaim_policy, "");
    assert_eq!(v.volume_binding_mode, "");
    assert!(!v.allow_volume_expansion);
    assert_eq!(v.age, "");

    let mut sc = ebs_storage_class();
    sc.allow_volume_expansion = Some(true);
    assert!(KubeStorageClass::from(sc, 0).allow_volume_expansion);
}

#[test]
fn ingress_renders_backends_and_rules() {
    let v = KubeIng::from(sample_ingress(), 3 * DAY + 16 * 3_600);
    assert_eq!(v.name, "web");
    assert_eq!(v.namespace, "default");
    assert_eq!(v.ing_class_name, "traefik");
    assert_eq!(v.default_backend, "[default-http-backend:80]");
    assert_eq!(
        v.rules,
        vec![
            "example.com\n \t\t[web:http] => Prefix:/\n\t\t[api:8080] => Exact:/api\n\t\t[StorageBucket -> static-assets] => ImplementationSpecific:/static"
                .to_string(),
            "\n ".to_string(),
        ]
    );
    assert_eq!(v.age, "3d16h");
}

#[test]
fn ingress_path_order_follows_source() {
    let mut ing = sample_ingress();
    if let Some(spec) = ing.spec.as_mut() {
        if let Some(rules) = spec.rules.as_mut() {
            if let Some(http) = rules[0].http.as_mut() {
                http.paths.reverse();
            }
        }
    }
    let v = KubeIng::from(ing, 0);
    assert_eq!(
        v.rules[0],
        "example.com\n \t\t[StorageBucket -> static-assets] => ImplementationSpecific:/static\n\t\t[api:8080] => Exact:/api\n\t\t[web:http] => Prefix:/"
    );
}

#[test]
fn ingress_backend_port_variants() {
    let mut ing = sample_ingress();
    let mut expect = |b: IngressBackend, s: &str| {
        ing.spec.as_mut().unwrap().default_backend = Some(b);
        assert_eq!(KubeIng::from(ing.clone(), 0).default_backend, s);
    };
    expect(service("svc", Some("grpc"), Some(9000)), "[svc:grpc]");
    expect(service("svc", None, Some(443)), "[svc:443]");
    expect(service("svc", None, Some(-5)), "[svc:-5]");
    expect(service("svc", None, Some(i32::MIN)), "[svc:-2147483648]");
    expect(service("svc", None, Some(0)), "[svc:0]");
    expect(service("svc", None, None), "[svc:]");
    expect(
        IngressBackend {
            resource: None,
            service: Some(IngressServiceBackend { name: "svc".to_string(), port: None }),
        },
        "[svc:]",
    );
    expect(resource("Bucket", "b1"), "[Bucket -> b1]");
    expect(IngressBackend { resource: None, service: None }, "");
}

#[test]
fn ingress_absent_fields_default() {
    let v = KubeIng::from(Ingress { metadata: meta("a", None, None), spec: None, status: None }, 0);
    assert_eq!(v.namespace, "");
    assert_eq!(v.ing_class_name, "");
    assert_eq!(v.default_backend, "");
    assert!(v.rules.is_empty());
    assert_eq!(v.age, "");

    let spec = IngressSpec { default_backend: None, ingress_class_name: None, rules: None, tls: None };
    let v = KubeIng::from(Ingress { metadata: meta("a", None, None), spec: Some(spec), status: None }, 0);
    assert_eq!(v.ing_class_name, "");
    assert_eq!(v.default_backend, "");
    assert!(v.rules.is_empty());

    let no_path = HttpIngressPath { backend: resource("K", "n"), path: None, path_type: None };
    let spec = IngressSpec {
        default_backend: None,
        ingress_class_name: None,
        rules: Some(vec![IngressRule {
            host: Some("h".to_string()),
            http: Some(HttpIngressRuleValue { paths: vec![no_path] }),
        }]),
        tls: None,
    };
    let v = KubeIng::from(Ingress { metadata: meta("a", None, None), spec: Some(spec), status: None }, 0);
    assert_eq!(v.rules, vec!["h\n \t\t[K -> n] => :".to_string()]);
}

#[test]
fn convert_dispatches_by_kind() {
    let now = 2 * DAY;
    match convert(RawResource::Ingress(sample_ingress()), now) {
        ResourceView::Ingress(v) => assert_eq!(v, KubeIng::from(sample_ingress(), now)),
        other => panic!("wrong kind: {:?}", other),
    }
    match convert(RawResource::Namespace(namespace("n", Some("Active"))), now) {
        ResourceView::Namespace(v) => assert_eq!(v.status, "Active"),
        other => panic!("wrong kind: {:?}", other),
    }
    match convert(RawResource::StorageClass(ebs_storage_class()), now) {
        ResourceView::StorageClass(v) => assert_eq!(v.provisioner, "kubernetes.io/aws-ebs"),
        other => panic!("wrong kind: {:?}", other),
    }
    let cm = ConfigMap {
        metadata: meta("c", Some("d"), Some(0)),
        binary_data: None,
        data: None,
        immutable: None,
    };
    match convert(RawResource::ConfigMap(cm), now) {
        ResourceView::ConfigMap(v) => assert_eq!((v.name.as_str(), v.age.as_str()), ("c", "2d")),
        other => panic!("wrong kind: {:?}", other),
    }
}

fn full_meta() -> ObjectMeta {
    let mut labels = BTreeMap::new();
    labels.insert("app".to_string(), "web".to_string());
    let mut annotations = BTreeMap::new();
    annotations.insert("note".to_string(), "kept".to_string());
    ObjectMeta {
        annotations: Some(annotations),
        cluster_name: Some("prod".to_string()),
        creation_timestamp: Some(100),
        deletion_grace_period_seconds: Some(30),
        deletion_timestamp: Some(200),
        finalizers: Some(vec!["example.com/cleanup".to_string()]),
        generate_name: Some("web-".to_string()),
        generation: Some(4),
        labels: Some(labels),
        managed_fields: Some(vec![kube_views::ManagedFieldsEntry {
            manager: Some("kubectl".to_string()),
            operation: Some("Apply".to_string()),
            api_version: Some("v1".to_string()),
            time: Some(150),
        }]),
        name: Some("web".to_string()),
        namespace: Some("default".to_string()),
        owner_references: Some(vec![OwnerReference {
            api_version: "apps/v1".to_string(),
            block_owner_deletion: Some(true),
            controller: Some(true),
            kind: "Deployment".to_string(),
            name: "web".to_string(),
            uid: "u-1".to_string(),
        }]),
        resource_version: Some("991".to_string()),
        self_link: Some("/apis/x/web".to_string()),
        uid: Some("u-2".to_string()),
    }
}

fn cleared(m: &ObjectMeta) -> ObjectMeta {
    let mut m = m.clone();
    m.resource_version = None;
    m.managed_fields = None;
    m
}

#[test]
fn kept_copies_keep_every_other_field() {
    let mut binary = BTreeMap::new();
    binary.insert("blob".to_string(), vec![0u8, 159, 146, 150]);
    let cm = ConfigMap {
        metadata: full_meta(),
        binary_data: Some(binary),
        data: None,
        immutable: Some(true),
    };
    let kept = KubeConfigMap::from(cm.clone(), 0).k8s_obj;
    assert_eq!(kept, ConfigMap { metadata: cleared(&cm.metadata), ..cm });

    let ns = Namespace {
        metadata: full_meta(),
        spec: Some(NamespaceSpec { finalizers: Some(vec!["kubernetes".to_string()]) }),
        status: Some(NamespaceStatus {
            conditions: Some(vec![NamespaceCondition {
                last_transition_time: Some(120),
                message: Some("all good".to_string()),
                reason: None,
                status: "False".to_string(),
                type_: "NamespaceDeletionContentFailure".to_string(),
            }]),
            phase: Some("Active".to_string()),
        }),
    };
    let kept = KubeNs::from(ns.clone()).get_k8s_obj().clone();
    assert_eq!(kept, Namespace { metadata: cleared(&ns.metadata), ..ns });

    let mut sc = ebs_storage_class();
    sc.metadata = full_meta();
    sc.allowed_topologies = Some(vec![TopologySelectorTerm {
        match_label_expressions: Some(vec![TopologySelectorLabelRequirement {
            key: "topology.kubernetes.io/zone".to_string(),
            values: vec!["eu-west-1a".to_string()],
        }]),
    }]);
    let kept = KubeStorageClass::from(sc.clone(), 0).k8s_obj;
    assert_eq!(kept, StorageClass { metadata: cleared(&sc.metadata), ..sc });

    let mut ing = sample_ingress();
    ing.metadata = full_meta();
    if let Some(spec) = ing.spec.as_mut() {
        spec.tls = Some(vec![IngressTls {
            hosts: Some(vec!["example.com".to_string()]),
            secret_name: Some("example-tls".to_string()),
        }]);
    }
    ing.status = Some(IngressStatus {
        load_balancer: Some(LoadBalancerStatus {
            ingress: Some(vec![LoadBalancerIngress {
                hostname: None,
                ip: Some("10.0.0.7".to_string()),
                ports: Some(vec![PortStatus {
                    error: None,
                    port: 443,
                    protocol: "TCP".to_string(),
                }]),
            }]),
        }),
    });
    let kept = KubeIng::from(ing.clone(), 0).get_k8s_obj().clone();
    assert_eq!(kept, Ingress { metadata: cleared(&ing.metadata), ..ing });
}
