//! Ingress view, and the flattening of backends and rules into display strings.
use vstd::prelude::*;
use vstd::string::*;
use crate::age::{age_of, to_age};
use crate::meta::{sanitize_meta, sanitized_meta, KubeResource, ObjectMeta};
use crate::text::{int_string, int_text, opt_text, string_or_empty};

verus! {

/// A reference to another object in the same namespace.
#[derive(Clone, Debug, PartialEq)]
pub struct TypedLocalObjectReference {
    pub api_group: Option<String>,
    pub kind: String,
    pub name: String,
}

/// A service port, by name or by number.
#[derive(Clone, Debug, PartialEq)]
pub struct ServiceBackendPort {
    pub name: Option<String>,
    pub number: Option<i32>,
}

/// A service that receives routed traffic.
#[derive(Clone, Debug, PartialEq)]
pub struct IngressServiceBackend {
    pub name: String,
    pub port: Option<ServiceBackendPort>,
}

/// A routing target: a resource reference or a service.
#[derive(Clone, Debug, PartialEq)]
pub struct IngressBackend {
    pub resource: Option<TypedLocalObjectReference>,
    pub service: Option<IngressServiceBackend>,
}

/// One path routed to a backend.
#[derive(Clone, Debug, PartialEq)]
pub struct HttpIngressPath {
    pub backend: IngressBackend,
    pub path: Option<String>,
    pub path_type: Option<String>,
}

/// The HTTP paths of a rule, in the order in which they are matched.
#[derive(Clone, Debug, PartialEq)]
pub struct HttpIngressRuleValue {
    pub paths: Vec<HttpIngressPath>,
}

/// The routes of one host.
#[derive(Clone, Debug, PartialEq)]
pub struct IngressRule {
    pub host: Option<String>,
    pub http: Option<HttpIngressRuleValue>,
}

/// TLS settings for a set of hosts.
#[derive(Clone, Debug, PartialEq)]
pub struct IngressTls {
    pub hosts: Option<Vec<String>>,
    pub secret_name: Option<String>,
}

/// The desired routing of an Ingress.
#[derive(Clone, Debug, PartialEq)]
pub struct IngressSpec {
    pub default_backend: Option<IngressBackend>,
    pub ingress_class_name: Option<String>,
    pub rules: Option<Vec<IngressRule>>,
    pub tls: Option<Vec<IngressTls>>,
}

/// The state of one port of a load balancer.
#[derive(Clone, Debug, PartialEq)]
pub struct PortStatus {
    pub error: Option<String>,
    pub port: i32,
    pub protocol: String,
}

/// One ingress point of a load balancer.
#[derive(Clone, Debug, PartialEq)]
pub struct LoadBalancerIngress {
    pub hostname: Option<String>,
    pub ip: Option<String>,
    pub ports: Option<Vec<PortStatus>>,
}

/// The state of a load balancer.
#[derive(Clone, Debug, PartialEq)]
pub struct LoadBalancerStatus {
    pub ingress: Option<Vec<LoadBalancerIngress>>,
}

/// The observed state of an Ingress.
#[derive(Clone, Debug, PartialEq)]
pub struct IngressStatus {
    pub load_balancer: Option<LoadBalancerStatus>,
}

/// An Ingress as decoded from the cluster.
#[derive(Clone, Debug, PartialEq)]
pub struct Ingress {
    pub metadata: ObjectMeta,
    pub spec: Option<IngressSpec>,
    pub status: Option<IngressStatus>,
}

/// The display view of an Ingress.
#[derive(Clone, Debug, PartialEq)]
pub struct KubeIng {
    pub namespace: String,
    pub name: String,
    pub ing_class_name: String,
    pub default_backend: String,
    pub rules: Vec<String>,
    pub age: String,
    pub k8s_obj: Ingress,
}

/// A port's name if set, else its number, else nothing.
pub open spec fn port_text(p: Option<ServiceBackendPort>) -> Seq<char> {
    match p {
        Some(port) => match port.name {
            Some(n) => n@,
            None => match port.number {
                Some(k) => int_text(k as int),
                None => Seq::<char>::empty(),
            },
        },
        None => Seq::<char>::empty(),
    }
}

/// `[Kind -> Name]` for a resource, `[Service:Port]` for a service, empty for neither.
pub open spec fn backend_text(b: IngressBackend) -> Seq<char> {
    match b.resource {
        Some(r) => seq!['['] + r.kind@ + seq![' ', '-', '>', ' '] + r.name@ + seq![']'],
        None => match b.service {
            Some(s) => seq!['['] + s.name@ + seq![':'] + port_text(s.port) + seq![']'],
            None => Seq::<char>::empty(),
        },
    }
}

/// `\t\tBackend => PathType:Path`
pub open spec fn path_line(p: HttpIngressPath) -> Seq<char> {
    seq!['\t', '\t'] + backend_text(p.backend) + seq![' ', '=', '>', ' '] + opt_text(p.path_type)
        + seq![':'] + opt_text(p.path)
}

/// The lines of `ps`, in order, separated by newlines.
pub open spec fn paths_text(ps: Seq<HttpIngressPath>) -> Seq<char>
    decreases ps.len(),
{
    if ps.len() == 0 {
        Seq::<char>::empty()
    } else if ps.len() == 1 {
        path_line(ps[0])
    } else {
        paths_text(ps.drop_last()) + seq!['\n'] + path_line(ps.last())
    }
}

pub open spec fn rule_paths(r: IngressRule) -> Seq<HttpIngressPath> {
    match r.http {
        Some(h) => h.paths@,
        None => Seq::<HttpIngressPath>::empty(),
    }
}

/// The host, a newline and a space, then one line per path.
pub open spec fn rule_text(r: IngressRule) -> Seq<char> {
    opt_text(r.host) + seq!['\n', ' '] + paths_text(rule_paths(r))
}

/// `texts` holds the rendering of each rule, in the rules' order.
pub open spec fn renders_rules(texts: Seq<String>, rules: Seq<IngressRule>) -> bool {
    &&& texts.len() == rules.len()
    &&& forall|i: int| 0 <= i < texts.len() ==> #[trigger] texts[i]@ == rule_text(rules[i])
}

pub open spec fn class_name_of(ing: Ingress) -> Seq<char> {
    match ing.spec {
        Some(s) => opt_text(s.ingress_class_name),
        None => Seq::<char>::empty(),
    }
}

/// The rendered default backend. The schema makes the default backend optional
/// (an Ingress may route by its rules alone), so an absent one reads as an empty
/// string rather than failing the conversion.
pub open spec fn default_backend_of(ing: Ingress) -> Seq<char> {
    match ing.spec {
        Some(s) => match s.default_backend {
            Some(b) => backend_text(b),
            None => Seq::<char>::empty(),
        },
        None => Seq::<char>::empty(),
    }
}

pub open spec fn rules_of(ing: Ingress) -> Seq<IngressRule> {
    match ing.spec {
        Some(s) => match s.rules {
            Some(rs) => rs@,
            None => Seq::<IngressRule>::empty(),
        },
        None => Seq::<IngressRule>::empty(),
    }
}

pub open spec fn sanitized_ingress(ing: Ingress) -> Ingress {
    Ingress { metadata: sanitized_meta(ing.metadata), ..ing }
}

/// `v` is the view of `ing` as seen at `now`.
pub open spec fn converted_ingress(ing: Ingress, now: i64, v: KubeIng) -> bool {
    &&& v.name@ == opt_text(ing.metadata.name)
    &&& v.namespace@ == opt_text(ing.metadata.namespace)
    &&& v.ing_class_name@ == class_name_of(ing)
    &&& v.default_backend@ == default_backend_of(ing)
    &&& renders_rules(v.rules@, rules_of(ing))
    &&& v.age@ == age_of(ing.metadata.creation_timestamp, now)
    &&& v.retained() == sanitized_ingress(ing)
}

fn port_string(p: &Option<ServiceBackendPort>) -> (r: String)
    ensures
        r@ == port_text(*p),
{
    match p {
        Some(port) => match &port.name {
            Some(n) => n.clone(),
            None => match port.number {
                Some(k) => int_string(k),
                None => String::new(),
            },
        },
        None => String::new(),
    }
}

/// Renders a backend as one token.
pub fn get_backend(b: &IngressBackend) -> (r: String)
    ensures
        r@ == backend_text(*b),
{
    proof {
        reveal_strlit("[");
        reveal_strlit(" -> ");
        reveal_strlit(":");
        reveal_strlit("]");
    }
    match &b.resource {
        Some(res) => {
            let r = String::from_str("[").concat(res.kind.as_str()).concat(" -> ").concat(
                res.name.as_str(),
            ).concat("]");
            r
        },
        None => match &b.service {
            Some(svc) => {
                let port = port_string(&svc.port);
                let r = String::from_str("[").concat(svc.name.as_str()).concat(":").concat(
                    port.as_str(),
                ).concat("]");
                r
            },
            None => String::new(),
        },
    }
}

fn get_path_line(p: &HttpIngressPath) -> (r: String)
    ensures
        r@ == path_line(*p),
{
    proof {
        reveal_strlit("\t\t");
        reveal_strlit(" => ");
        reveal_strlit(":");
    }
    let backend = get_backend(&p.backend);
    let path_type = string_or_empty(&p.path_type);
    let path = string_or_empty(&p.path);
    let r = String::from_str("\t\t").concat(backend.as_str()).concat(" => ").concat(
        path_type.as_str(),
    ).concat(":").concat(path.as_str());
    r
}

fn get_paths(ps: &Vec<HttpIngressPath>) -> (r: String)
    ensures
        r@ == paths_text(ps@),
{
    let mut out = String::new();
    let mut i: usize = 0;
    while i < ps.len()
        invariant
            i <= ps@.len(),
            out@ == paths_text(ps@.subrange(0, i as int)),
        decreases ps@.len() - i,
    {
        let line = get_path_line(&ps[i]);
        let ghost prefix = ps@.subrange(0, i as int + 1);
        assert(prefix.drop_last() =~= ps@.subrange(0, i as int));
        assert(prefix.last() == ps@[i as int]);
        if i > 0 {
            proof {
                reveal_strlit("\n");
            }
            out = out.concat("\n");
            out = out.concat(line.as_str());
        } else {
            out = out.concat(line.as_str());
            assert(out@ =~= path_line(prefix[0]));
        }
        i = i + 1;
    }
    assert(ps@.subrange(0, ps@.len() as int) =~= ps@);
    out
}

/// Renders one rule: its host, then its paths in source order.
pub fn get_ing_rule(rule: &IngressRule) -> (r: String)
    ensures
        r@ == rule_text(*rule),
{
    proof {
        reveal_strlit("\n ");
    }
    let host = string_or_empty(&rule.host);
    let lines = match &rule.http {
        Some(h) => get_paths(&h.paths),
        None => String::new(),
    };
    let r = host.concat("\n ").concat(lines.as_str());
    r
}

/// Renders each rule, keeping their order.
pub fn get_rules(rules: &[IngressRule]) -> (r: Vec<String>)
    ensures
        renders_rules(r@, rules@),
{
    let mut out: Vec<String> = Vec::new();
    let mut i: usize = 0;
    while i < rules.len()
        invariant
            i <= rules@.len(),
            renders_rules(out@, rules@.subrange(0, i as int)),
        decreases rules@.len() - i,
    {
        let text = get_ing_rule(&rules[i]);
        out.push(text);
        i = i + 1;
    }
    assert(rules@.subrange(0, rules@.len() as int) =~= rules@);
    out
}

/// The copy of an Ingress kept for export, with volatile bookkeeping cleared.
pub fn sanitize_ingress(ing: Ingress) -> (r: Ingress)
    ensures
        r == sanitized_ingress(ing),
{
    Ingress { metadata: sanitize_meta(ing.metadata), ..ing }
}

impl KubeIng {
    /// Builds the view of `ing`, its age measured at `now` (seconds since the Unix epoch).
    pub fn from(ing: Ingress, now: i64) -> (r: Self)
        ensures
            converted_ingress(ing, now, r),
    {
        let (ing_class_name, default_backend, rules) = match &ing.spec {
            Some(spec) => {
                let backend = match &spec.default_backend {
                    Some(b) => get_backend(b),
                    None => String::new(),
                };
                let rules = match &spec.rules {
                    Some(rs) => get_rules(rs.as_slice()),
                    None => Vec::new(),
                };
                (string_or_empty(&spec.ingress_class_name), backend, rules)
            },
            None => (String::new(), String::new(), Vec::new()),
        };
        KubeIng {
            name: string_or_empty(&ing.metadata.name),
            namespace: string_or_empty(&ing.metadata.namespace),
            ing_class_name,
            default_backend,
            rules,
            age: to_age(ing.metadata.creation_timestamp, now),
            k8s_obj: sanitize_ingress(ing),
        }
    }
}

impl KubeResource<Ingress> for KubeIng {
    open spec fn retained(&self) -> Ingress {
        self.k8s_obj
    }

    fn get_k8s_obj(&self) -> (r: &Ingress) {
        &self.k8s_obj
    }
}

} // verus!
