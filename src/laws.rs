//! Properties that hold of every conversion.
use vstd::prelude::*;
use crate::age::age_of;
use crate::configmaps::{converted_config_map, ConfigMap, KubeConfigMap};
use crate::ingresses::{
    backend_text, converted_ingress, path_line, paths_text, port_text, rule_paths, rule_text,
    rules_of, HttpIngressPath, Ingress, IngressBackend, IngressRule, KubeIng,
};
use crate::meta::KubeResource;
use crate::ns::{converted_namespace, unknown_text, KubeNs, Namespace};
use crate::resource::{converted, RawResource, ResourceView};
use crate::storageclass::{converted_storage_class, KubeStorageClass, StorageClass};
use crate::text::{int_text, opt_text};

verus! {

/// Converting one ConfigMap twice gives the same fields; only the age may differ,
/// and it depends on the creation instant and the reference instant alone.
pub proof fn lemma_config_map_deterministic(
    cm: ConfigMap,
    now1: i64,
    now2: i64,
    v1: KubeConfigMap,
    v2: KubeConfigMap,
)
    requires
        converted_config_map(cm, now1, v1),
        converted_config_map(cm, now2, v2),
    ensures
        v1.name@ == v2.name@,
        v1.namespace@ == v2.namespace@,
        v1.data@ == v2.data@,
        v1.retained() == v2.retained(),
        v1.age@ == age_of(cm.metadata.creation_timestamp, now1),
        now1 == now2 ==> v1.age@ == v2.age@,
{
}

/// Converting one Namespace twice gives the same view.
pub proof fn lemma_namespace_deterministic(ns: Namespace, v1: KubeNs, v2: KubeNs)
    requires
        converted_namespace(ns, v1),
        converted_namespace(ns, v2),
    ensures
        v1.name@ == v2.name@,
        v1.status@ == v2.status@,
        v1.retained() == v2.retained(),
{
}

/// Converting one StorageClass twice gives the same fields; only the age may differ,
/// and it depends on the creation instant and the reference instant alone.
pub proof fn lemma_storage_class_deterministic(
    sc: StorageClass,
    now1: i64,
    now2: i64,
    v1: KubeStorageClass,
    v2: KubeStorageClass,
)
    requires
        converted_storage_class(sc, now1, v1),
        converted_storage_class(sc, now2, v2),
    ensures
        v1.name@ == v2.name@,
        v1.provisioner@ == v2.provisioner@,
        v1.reclaim_policy@ == v2.reclaim_policy@,
        v1.volume_binding_mode@ == v2.volume_binding_mode@,
        v1.allow_volume_expansion == v2.allow_volume_expansion,
        v1.retained() == v2.retained(),
        v1.age@ == age_of(sc.metadata.creation_timestamp, now1),
        now1 == now2 ==> v1.age@ == v2.age@,
{
}

/// Converting one Ingress twice gives the same fields; only the age may differ,
/// and it depends on the creation instant and the reference instant alone.
pub proof fn lemma_ingress_deterministic(
    ing: Ingress,
    now1: i64,
    now2: i64,
    v1: KubeIng,
    v2: KubeIng,
)
    requires
        converted_ingress(ing, now1, v1),
        converted_ingress(ing, now2, v2),
    ensures
        v1.name@ == v2.name@,
        v1.namespace@ == v2.namespace@,
        v1.ing_class_name@ == v2.ing_class_name@,
        v1.default_backend@ == v2.default_backend@,
        v1.rules@.len() == v2.rules@.len(),
        forall|i: int| 0 <= i < v1.rules@.len() ==> #[trigger] v1.rules@[i]@ == v2.rules@[i]@,
        v1.retained() == v2.retained(),
        v1.age@ == age_of(ing.metadata.creation_timestamp, now1),
        now1 == now2 ==> v1.age@ == v2.age@,
{
    assert forall|i: int| 0 <= i < v1.rules@.len() implies #[trigger] v1.rules@[i]@
        == v2.rules@[i]@ by {
        assert(v2.rules@[i]@ == rule_text(rules_of(ing)[i]));
    }
}

/// Two views of one kind whose fields, the age aside, read the same.
pub open spec fn agree_except_age(v1: ResourceView, v2: ResourceView) -> bool {
    match (v1, v2) {
        (ResourceView::ConfigMap(a), ResourceView::ConfigMap(b)) => {
            &&& a.name@ == b.name@
            &&& a.namespace@ == b.namespace@
            &&& a.data@ == b.data@
            &&& a.retained() == b.retained()
        },
        (ResourceView::Namespace(a), ResourceView::Namespace(b)) => {
            &&& a.name@ == b.name@
            &&& a.status@ == b.status@
            &&& a.retained() == b.retained()
        },
        (ResourceView::StorageClass(a), ResourceView::StorageClass(b)) => {
            &&& a.name@ == b.name@
            &&& a.provisioner@ == b.provisioner@
            &&& a.reclaim_policy@ == b.reclaim_policy@
            &&& a.volume_binding_mode@ == b.volume_binding_mode@
            &&& a.allow_volume_expansion == b.allow_volume_expansion
            &&& a.retained() == b.retained()
        },
        (ResourceView::Ingress(a), ResourceView::Ingress(b)) => {
            &&& a.name@ == b.name@
            &&& a.namespace@ == b.namespace@
            &&& a.ing_class_name@ == b.ing_class_name@
            &&& a.default_backend@ == b.default_backend@
            &&& a.rules@.len() == b.rules@.len()
            &&& forall|i: int| 0 <= i < a.rules@.len() ==> #[trigger] a.rules@[i]@ == b.rules@[i]@
            &&& a.retained() == b.retained()
        },
        _ => false,
    }
}

/// The age a view shows; a namespace view has none.
pub open spec fn view_age(v: ResourceView) -> Seq<char> {
    match v {
        ResourceView::ConfigMap(a) => a.age@,
        ResourceView::Namespace(_) => Seq::<char>::empty(),
        ResourceView::StorageClass(a) => a.age@,
        ResourceView::Ingress(a) => a.age@,
    }
}

/// Converting one resource twice gives views of its kind that agree in every field
/// but the age, and the same age when the reference instant is the same.
pub proof fn lemma_convert_deterministic(
    raw: RawResource,
    now1: i64,
    now2: i64,
    v1: ResourceView,
    v2: ResourceView,
)
    requires
        converted(raw, now1, v1),
        converted(raw, now2, v2),
    ensures
        agree_except_age(v1, v2),
        now1 == now2 ==> view_age(v1) == view_age(v2),
{
    match (raw, v1, v2) {
        (RawResource::ConfigMap(r), ResourceView::ConfigMap(a), ResourceView::ConfigMap(b)) => {
            lemma_config_map_deterministic(r, now1, now2, a, b);
        },
        (RawResource::Namespace(r), ResourceView::Namespace(a), ResourceView::Namespace(b)) => {
            lemma_namespace_deterministic(r, a, b);
        },
        (
            RawResource::StorageClass(r),
            ResourceView::StorageClass(a),
            ResourceView::StorageClass(b),
        ) => {
            lemma_storage_class_deterministic(r, now1, now2, a, b);
        },
        (RawResource::Ingress(r), ResourceView::Ingress(a), ResourceView::Ingress(b)) => {
            lemma_ingress_deterministic(r, now1, now2, a, b);
        },
        _ => {},
    }
}

/// Absent optional fields of a ConfigMap read as empty: name, namespace, data and age.
pub proof fn lemma_config_map_defaults(cm: ConfigMap, now: i64, v: KubeConfigMap)
    requires
        converted_config_map(cm, now, v),
    ensures
        cm.metadata.name is None ==> v.name@ == Seq::<char>::empty(),
        cm.metadata.namespace is None ==> v.namespace@ == Seq::<char>::empty(),
        cm.data is None ==> v.data@ == Map::<String, String>::empty(),
        cm.metadata.creation_timestamp is None ==> v.age@ == Seq::<char>::empty(),
{
}

/// Absent optional fields of an Ingress read as empty: without a spec, the class,
/// the default backend and the rules; within a spec, each one that is absent.
pub proof fn lemma_ingress_defaults(ing: Ingress, now: i64, v: KubeIng)
    requires
        converted_ingress(ing, now, v),
    ensures
        ing.metadata.name is None ==> v.name@ == Seq::<char>::empty(),
        ing.metadata.namespace is None ==> v.namespace@ == Seq::<char>::empty(),
        ing.spec is None ==> v.ing_class_name@ == Seq::<char>::empty()
            && v.default_backend@ == Seq::<char>::empty() && v.rules@.len() == 0,
        ing.spec is Some && ing.spec.unwrap().ingress_class_name is None ==> v.ing_class_name@
            == Seq::<char>::empty(),
        ing.spec is Some && ing.spec.unwrap().default_backend is None ==> v.default_backend@
            == Seq::<char>::empty(),
        ing.spec is Some && ing.spec.unwrap().rules is None ==> v.rules@.len() == 0,
        ing.metadata.creation_timestamp is None ==> v.age@ == Seq::<char>::empty(),
{
}

/// A ConfigMap's data comes through whole: every key with its value, no key added,
/// and an absent or empty mapping gives an empty one.
pub proof fn lemma_config_map_data_preserved(cm: ConfigMap, now: i64, v: KubeConfigMap)
    requires
        converted_config_map(cm, now, v),
    ensures
        cm.data matches Some(d) ==> (forall|k: String| #[trigger]
            v.data@.contains_key(k) <==> d@.contains_key(k)),
        cm.data matches Some(d) ==> (forall|k: String| #[trigger]
            d@.contains_key(k) ==> v.data@[k] == d@[k]),
        cm.data matches Some(d) ==> v.data@.len() == d@.len(),
        cm.data is Some && cm.data.unwrap()@.len() == 0 ==> v.data@.len() == 0,
        cm.data is None ==> v.data@.len() == 0,
{
}

/// A namespace without a status, or whose status has no phase, shows `Unknown`.
pub proof fn lemma_namespace_unknown(ns: Namespace, v: KubeNs)
    requires
        converted_namespace(ns, v),
    ensures
        ns.status is None ==> v.status@ == unknown_text(),
        ns.status is Some && ns.status.unwrap().phase is None ==> v.status@ == unknown_text(),
        ns.status is Some && ns.status.unwrap().phase is Some ==> v.status@
            == ns.status.unwrap().phase.unwrap()@,
        ns.metadata.name is None ==> v.name@ == Seq::<char>::empty(),
{
}

/// A resource backend renders as `[Kind -> Name]`; a service backend as
/// `[Service:PortName]` when the port is named, else `[Service:PortNumber]`,
/// else `[Service:]`.
pub proof fn lemma_backend_rendering(b: IngressBackend)
    ensures
        b.resource is Some ==> backend_text(b) == seq!['['] + b.resource.unwrap().kind@ + seq![
            ' ',
            '-',
            '>',
            ' ',
        ] + b.resource.unwrap().name@ + seq![']'],
        ({
            &&& b.resource is None
            &&& b.service is Some
            &&& b.service.unwrap().port is Some
            &&& b.service.unwrap().port.unwrap().name is Some
        }) ==> backend_text(b) == seq!['['] + b.service.unwrap().name@ + seq![':']
            + b.service.unwrap().port.unwrap().name.unwrap()@ + seq![']'],
        ({
            &&& b.resource is None
            &&& b.service is Some
            &&& b.service.unwrap().port is Some
            &&& b.service.unwrap().port.unwrap().name is None
            &&& b.service.unwrap().port.unwrap().number is Some
        }) ==> backend_text(b) == seq!['['] + b.service.unwrap().name@ + seq![':'] + int_text(
            b.service.unwrap().port.unwrap().number.unwrap() as int,
        ) + seq![']'],
        ({
            &&& b.resource is None
            &&& b.service is Some
            &&& b.service.unwrap().port is None
        }) ==> backend_text(b) == seq!['['] + b.service.unwrap().name@ + seq![':', ']'],
{
    if b.resource is None && b.service is Some && b.service.unwrap().port is None {
        let s = b.service.unwrap();
        assert(port_text(s.port) == Seq::<char>::empty());
        assert(seq!['['] + s.name@ + seq![':'] + Seq::<char>::empty() + seq![']'] =~= seq!['[']
            + s.name@ + seq![':', ']']);
    }
}

/// Path lines keep the source order: a path added at the end of a rule adds its line
/// at the end of the rendering.
pub proof fn lemma_path_order(ps: Seq<HttpIngressPath>, p: HttpIngressPath)
    ensures
        ps.len() == 0 ==> paths_text(ps.push(p)) == path_line(p),
        ps.len() > 0 ==> paths_text(ps.push(p)) == paths_text(ps) + seq!['\n'] + path_line(p),
{
    assert(ps.push(p).drop_last() =~= ps);
    assert(ps.push(p).last() == p);
    if ps.len() == 0 {
        assert(ps.push(p)[0] == p);
    }
}

/// Lines joined by newlines, in order.
pub open spec fn join_lines(lines: Seq<Seq<char>>) -> Seq<char>
    decreases lines.len(),
{
    if lines.len() == 0 {
        Seq::<char>::empty()
    } else if lines.len() == 1 {
        lines[0]
    } else {
        join_lines(lines.drop_last()) + seq!['\n'] + lines.last()
    }
}

/// The rendered line of each path of a rule, in source order.
pub open spec fn path_lines(r: IngressRule) -> Seq<Seq<char>> {
    rule_paths(r).map_values(|p: HttpIngressPath| path_line(p))
}

proof fn lemma_paths_text_joins(ps: Seq<HttpIngressPath>)
    ensures
        paths_text(ps) == join_lines(ps.map_values(|p: HttpIngressPath| path_line(p))),
    decreases ps.len(),
{
    let lines = ps.map_values(|p: HttpIngressPath| path_line(p));
    if ps.len() > 1 {
        lemma_paths_text_joins(ps.drop_last());
        assert(lines.drop_last() =~= ps.drop_last().map_values(|p: HttpIngressPath| path_line(p)));
    }
}

/// A rule renders as its host, a newline and a space, then the line of each path,
/// in source order, joined by newlines.
pub proof fn lemma_rule_lines(r: IngressRule)
    ensures
        rule_text(r) == opt_text(r.host) + seq!['\n', ' '] + join_lines(path_lines(r)),
        path_lines(r).len() == rule_paths(r).len(),
        forall|i: int|
            0 <= i < rule_paths(r).len() ==> #[trigger] path_lines(r)[i] == path_line(
                rule_paths(r)[i],
            ),
{
    lemma_paths_text_joins(rule_paths(r));
}

/// Rendering never reorders paths: when the paths of one rule are those of another
/// taken in the order `pi`, with the same host, its path lines are the other's
/// lines taken in the same order.
pub proof fn lemma_path_lines_permuted(r1: IngressRule, r2: IngressRule, pi: spec_fn(int) -> int)
    requires
        r1.host == r2.host,
        rule_paths(r1).len() == rule_paths(r2).len(),
        forall|i: int|
            0 <= i < rule_paths(r2).len() ==> 0 <= #[trigger] pi(i) < rule_paths(r1).len()
                && rule_paths(r2)[i] == rule_paths(r1)[pi(i)],
    ensures
        path_lines(r2).len() == path_lines(r1).len(),
        forall|i: int|
            0 <= i < path_lines(r2).len() ==> #[trigger] path_lines(r2)[i] == path_lines(r1)[pi(
                i,
            )],
        rule_text(r2) == opt_text(r1.host) + seq!['\n', ' '] + join_lines(path_lines(r2)),
{
    lemma_rule_lines(r1);
    lemma_rule_lines(r2);
    assert forall|i: int| 0 <= i < path_lines(r2).len() implies #[trigger] path_lines(r2)[i]
        == path_lines(r1)[pi(i)] by {
        assert(0 <= pi(i) < rule_paths(r1).len());
        assert(path_lines(r1)[pi(i)] == path_line(rule_paths(r1)[pi(i)]));
    }
}

/// The lines of a text: the pieces between newlines, one more than there are newlines.
pub open spec fn split_lines(s: Seq<char>) -> Seq<Seq<char>>
    decreases s.len(),
{
    if s.len() == 0 {
        seq![Seq::<char>::empty()]
    } else if s.last() == '\n' {
        split_lines(s.drop_last()).push(Seq::<char>::empty())
    } else {
        let prev = split_lines(s.drop_last());
        prev.update(prev.len() - 1, prev.last().push(s.last()))
    }
}

proof fn lemma_split_nonempty(s: Seq<char>)
    ensures
        split_lines(s).len() >= 1,
    decreases s.len(),
{
    if s.len() > 0 {
        lemma_split_nonempty(s.drop_last());
    }
}

proof fn lemma_split_append(x: Seq<char>, b: Seq<char>)
    requires
        !b.contains('\n'),
    ensures
        split_lines(x + b) == split_lines(x).update(
            split_lines(x).len() - 1,
            split_lines(x).last() + b,
        ),
    decreases b.len(),
{
    lemma_split_nonempty(x);
    let sx = split_lines(x);
    if b.len() == 0 {
        assert(x + b =~= x);
        assert(sx.last() + b =~= sx.last());
        assert(sx.update(sx.len() - 1, sx.last()) =~= sx);
    } else {
        let b0 = b.drop_last();
        assert(!b0.contains('\n')) by {
            if b0.contains('\n') {
                let k = choose|k: int| 0 <= k < b0.len() && b0[k] == '\n';
                assert(b[k] == '\n');
            }
        }
        lemma_split_append(x, b0);
        assert((x + b).drop_last() =~= x + b0);
        assert((x + b).last() == b.last());
        assert(b.last() != '\n') by {
            if b.last() == '\n' {
                assert(b[b.len() - 1] == '\n');
            }
        }
        let p = split_lines(x + b0);
        assert(p.last() == sx.last() + b0);
        assert((sx.last() + b0).push(b.last()) =~= sx.last() + b);
        assert(p.update(p.len() - 1, p.last().push(b.last())) =~= sx.update(
            sx.len() - 1,
            sx.last() + b,
        ));
    }
}

proof fn lemma_split_join(ls: Seq<Seq<char>>)
    requires
        ls.len() >= 1,
        forall|i: int| 0 <= i < ls.len() ==> !(#[trigger] ls[i]).contains('\n'),
    ensures
        split_lines(join_lines(ls)) == ls,
    decreases ls.len(),
{
    let e = Seq::<char>::empty();
    if ls.len() == 1 {
        lemma_split_append(e, ls[0]);
        assert(e + ls[0] =~= ls[0]);
        assert(split_lines(e).update(0, e + ls[0]) =~= ls);
    } else {
        let head = ls.drop_last();
        assert forall|i: int| 0 <= i < head.len() implies !(#[trigger] head[i]).contains('\n') by {
            assert(head[i] == ls[i]);
        }
        lemma_split_join(head);
        let j = join_lines(head) + seq!['\n'];
        assert(j.drop_last() =~= join_lines(head));
        assert(split_lines(j) == head.push(e));
        assert(!ls[ls.len() - 1].contains('\n'));
        lemma_split_append(j, ls.last());
        assert(j + ls.last() =~= join_lines(ls));
        assert(e + ls.last() =~= ls.last());
        assert(head.push(e).update(head.len() as int, ls.last()) =~= ls);
    }
}

/// Where no path line holds a newline, the text after a rule's host and the
/// newline and space that follow it splits at newlines into exactly the path lines,
/// one per path, in source order.
pub proof fn lemma_rule_text_splits(r: IngressRule)
    requires
        rule_paths(r).len() >= 1,
        forall|i: int|
            0 <= i < rule_paths(r).len() ==> !path_line(#[trigger] rule_paths(r)[i]).contains('\n'),
    ensures
        rule_text(r) == opt_text(r.host) + seq!['\n', ' '] + join_lines(path_lines(r)),
        split_lines(join_lines(path_lines(r))) == path_lines(r),
{
    lemma_rule_lines(r);
    let ls = path_lines(r);
    assert forall|i: int| 0 <= i < ls.len() implies !(#[trigger] ls[i]).contains('\n') by {
        assert(ls[i] == path_line(rule_paths(r)[i]));
    }
    lemma_split_join(ls);
}

/// A StorageClass without `allowVolumeExpansion` shows `false`; without a reclaim
/// policy or a volume binding mode, an empty string.
pub proof fn lemma_storage_class_defaults(sc: StorageClass, now: i64, v: KubeStorageClass)
    requires
        converted_storage_class(sc, now, v),
    ensures
        sc.allow_volume_expansion is None ==> !v.allow_volume_expansion,
        sc.reclaim_policy is None ==> v.reclaim_policy@ == Seq::<char>::empty(),
        sc.volume_binding_mode is None ==> v.volume_binding_mode@ == Seq::<char>::empty(),
        sc.metadata.name is None ==> v.name@ == Seq::<char>::empty(),
        sc.metadata.creation_timestamp is None ==> v.age@ == Seq::<char>::empty(),
{
}

} // verus!
