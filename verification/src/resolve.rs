//! Resolution: folding the outcomes of the planned calls into the graph.
//! The root node is inserted first; every outcome then contributes its
//! nodes and edges under first-insertion-wins deduplication, and a failed
//! lookup contributes nothing.

use vstd::prelude::*;
use crate::graph::EdgeD;
use crate::graph::GraphD;
use crate::graph::GraphData;
use crate::graph::GraphEdge;
use crate::graph::GraphNode;
use crate::graph::NodeD;
use crate::graph::add_edge;
use crate::graph::add_node;
use crate::graph::edge_id_spec;
use crate::graph::edges_view;
use crate::graph::graph_wf;
use crate::graph::has_node_id;
use crate::graph::nodes_view;
use crate::graph::push_dedup;
use crate::kinds::K8sResourceType;
use crate::kinds::kind_name_spec;
use crate::object::OwnerRef;
use crate::object::PodRef;
use crate::object::ResourceObject;
use crate::plan::CallD;
use crate::plan::PlannedCall;
use crate::plan::plan_d;
use crate::plan::plan_requests;
use crate::selector::selector_matches;
use crate::selector::selector_matches_exec;

verus! {

/// What a performed call handed back: nothing (the lookup failed or found
/// nothing), one object, or a list of objects.
pub enum CallOutcome {
    /// The call failed; a failed non-root lookup contributes nothing.
    Failed,
    /// A single-object lookup succeeded.
    GotOne(ResourceObject),
    /// A listing succeeded, possibly empty.
    GotList(Vec<ResourceObject>),
}

/// Why a resolution was refused.
#[derive(Debug, Clone, Copy, PartialEq, Eq, Structural)]
pub enum ResolveError {
    /// The root object carries no `metadata.uid`.
    MissingUid,
}

impl ResolveError {
    /// A human-readable description of the error.
    pub fn message(&self) -> (s: String)
        ensures
            s@ == "Missing UID"@,
    {
        "Missing UID".to_owned()
    }
}

/// The root facts the fold consults: the root's kind, uid, name and
/// labels.
pub ghost struct RootCtx {
    pub kind: K8sResourceType,
    pub uid: Seq<char>,
    pub name: Seq<char>,
    pub labels: Option<Seq<(Seq<char>, Seq<char>)>>,
}

/// The usable uid of a secondary object: present and non-empty. Objects
/// without one are treated as failed lookups and skipped.
pub open spec fn usable_uid(o: ResourceObject) -> Option<Seq<char>> {
    match o.uid {
        Some(u) => if u@.len() > 0 {
            Some(u@)
        } else {
            None
        },
        None => None,
    }
}

/// Whether some owner reference carries the uid.
pub open spec fn owned_by(refs: Seq<OwnerRef>, uid: Seq<char>) -> bool {
    exists|i: int| 0 <= i < refs.len() && (#[trigger] refs[i]).uid@ == uid
}

/// Whether one pod-spec reference points at the root: claims only through
/// volumes, ConfigMaps and Secrets through volumes and env alike.
pub open spec fn ref_matches(kind: K8sResourceType, name: Seq<char>, r: PodRef) -> bool {
    match kind {
        K8sResourceType::ConfigMap => (r.kind is VolumeConfigMap || r.kind is EnvConfigMap)
            && r.name@ == name,
        K8sResourceType::Secret => (r.kind is VolumeSecret || r.kind is EnvSecret) && r.name@
            == name,
        K8sResourceType::PersistentVolumeClaim => r.kind is VolumeClaim && r.name@ == name,
        _ => false,
    }
}

/// Whether a pod references the root at all.
pub open spec fn pod_uses(kind: K8sResourceType, name: Seq<char>, refs: Seq<PodRef>) -> bool {
    exists|i: int| 0 <= i < refs.len() && ref_matches(kind, name, #[trigger] refs[i])
}

/// The labels the fold matches selectors against; a root without labels
/// matches no selector.
pub open spec fn root_labels_view(ctx: RootCtx) -> Seq<(Seq<char>, Seq<char>)> {
    match ctx.labels {
        Some(l) => l,
        None => Seq::empty(),
    }
}

/// A node for a related object.
pub open spec fn related_node(
    id: Seq<char>,
    label: Seq<char>,
    kind: K8sResourceType,
    data: serde_json::Value,
) -> NodeD {
    NodeD { id, label, resource_type: kind_name_spec(kind), data }
}

/// An edge between two node ids.
pub open spec fn labeled_edge(source: Seq<char>, target: Seq<char>, label: Seq<char>) -> EdgeD {
    EdgeD { id: edge_id_spec(source, target), source, target, label }
}

/// Inserting one related object: its node, deduplicated by id, and its
/// edge, appended unconditionally.
pub open spec fn add_pair(g: GraphD, n: NodeD, e: EdgeD) -> GraphD {
    GraphD { nodes: push_dedup(g.nodes, n), edges: g.edges.push(e) }
}

/// What one successful single-object lookup contributes. An owner node is
/// keyed and labelled by its owner reference; the other lookups are keyed
/// by the fetched object's uid and labelled by the requested name, and
/// are skipped when that uid is absent or empty.
pub open spec fn get_step(g: GraphD, ctx: RootCtx, call: CallD, o: ResourceObject) -> GraphD {
    match call {
        CallD::GetOwner { kind, name, ref_uid, .. } => add_pair(
            g,
            related_node(ref_uid, name, kind, o.data),
            labeled_edge(ref_uid, ctx.uid, "owner"@),
        ),
        CallD::GetPodRef { kind, name, .. } => match usable_uid(o) {
            Some(u) => add_pair(
                g,
                related_node(u, name, kind, o.data),
                labeled_edge(ctx.uid, u, "uses"@),
            ),
            None => g,
        },
        CallD::GetStorageClass { name } => match usable_uid(o) {
            Some(u) => add_pair(
                g,
                related_node(u, name, K8sResourceType::StorageClass, o.data),
                labeled_edge(ctx.uid, u, "uses"@),
            ),
            None => g,
        },
        CallD::GetPersistentVolume { name } => match usable_uid(o) {
            Some(u) => add_pair(
                g,
                related_node(u, name, K8sResourceType::PersistentVolume, o.data),
                labeled_edge(ctx.uid, u, "bound"@),
            ),
            None => g,
        },
        CallD::GetClaim { name, .. } => match usable_uid(o) {
            Some(u) => add_pair(
                g,
                related_node(u, name, K8sResourceType::PersistentVolumeClaim, o.data),
                labeled_edge(ctx.uid, u, "bound"@),
            ),
            None => g,
        },
        _ => g,
    }
}

/// What one object of a successful listing contributes, by the rule that
/// asked for the listing. Objects without a usable uid, and objects the
/// rule does not select, contribute nothing.
pub open spec fn item_step(g: GraphD, ctx: RootCtx, call: CallD, o: ResourceObject) -> GraphD {
    match call {
        CallD::ListSelectedPods { .. } => match usable_uid(o) {
            Some(u) => add_pair(
                g,
                related_node(u, o.name@, K8sResourceType::Pod, o.data),
                labeled_edge(ctx.uid, u, "selects"@),
            ),
            None => g,
        },
        CallD::ListServices { .. } => match (usable_uid(o), o.selector) {
            (Some(u), Some(sel)) => if selector_matches(sel.deep_view(), root_labels_view(ctx)) {
                add_pair(
                    g,
                    related_node(u, o.name@, K8sResourceType::Service, o.data),
                    labeled_edge(u, ctx.uid, "selects"@),
                )
            } else {
                g
            },
            _ => g,
        },
        CallD::ListPodsUsingRoot { .. } => match usable_uid(o) {
            Some(u) => if pod_uses(ctx.kind, ctx.name, o.pod_refs@) {
                add_pair(
                    g,
                    related_node(u, o.name@, K8sResourceType::Pod, o.data),
                    labeled_edge(u, ctx.uid, "uses"@),
                )
            } else {
                g
            },
            None => g,
        },
        CallD::ListClaimsOfClass => match (usable_uid(o), o.storage_class_name) {
            (Some(u), Some(n)) => if n@ == ctx.name {
                add_pair(
                    g,
                    related_node(u, o.name@, K8sResourceType::PersistentVolumeClaim, o.data),
                    labeled_edge(u, ctx.uid, "uses"@),
                )
            } else {
                g
            },
            _ => g,
        },
        CallD::ListReplicaSets { .. } => match usable_uid(o) {
            Some(u) => if owned_by(o.owner_references@, ctx.uid) {
                add_pair(
                    g,
                    related_node(u, o.name@, K8sResourceType::ReplicaSet, o.data),
                    labeled_edge(ctx.uid, u, "manages"@),
                )
            } else {
                g
            },
            None => g,
        },
        CallD::ListOwnedPods { .. } => match usable_uid(o) {
            Some(u) => if owned_by(o.owner_references@, ctx.uid) {
                add_pair(
                    g,
                    related_node(u, o.name@, K8sResourceType::Pod, o.data),
                    labeled_edge(ctx.uid, u, "manages"@),
                )
            } else {
                g
            },
            None => g,
        },
        _ => g,
    }
}

/// A listing's objects folded in, left to right.
pub open spec fn fold_items(
    g: GraphD,
    ctx: RootCtx,
    call: CallD,
    items: Seq<ResourceObject>,
) -> GraphD
    decreases items.len(),
{
    if items.len() == 0 {
        g
    } else {
        item_step(fold_items(g, ctx, call, items.drop_last()), ctx, call, items.last())
    }
}

/// Whether a call fetches a single object.
pub open spec fn is_get_call(call: CallD) -> bool {
    match call {
        CallD::GetOwner { .. } => true,
        CallD::GetPodRef { .. } => true,
        CallD::GetStorageClass { .. } => true,
        CallD::GetPersistentVolume { .. } => true,
        CallD::GetClaim { .. } => true,
        _ => false,
    }
}

/// What one call's outcome contributes: a failed call, and an outcome of
/// the wrong shape, contribute nothing.
pub open spec fn apply_d(g: GraphD, ctx: RootCtx, call: CallD, out: CallOutcome) -> GraphD {
    match out {
        CallOutcome::Failed => g,
        CallOutcome::GotOne(o) => if is_get_call(call) {
            get_step(g, ctx, call, o)
        } else {
            g
        },
        CallOutcome::GotList(items) => if !is_get_call(call) {
            fold_items(g, ctx, call, items@)
        } else {
            g
        },
    }
}

/// The outcome paired with call `i`: outcomes past the end count as
/// failed.
pub open spec fn out_at(outs: Seq<CallOutcome>, i: int) -> CallOutcome {
    if 0 <= i < outs.len() {
        outs[i]
    } else {
        CallOutcome::Failed
    }
}

/// All calls' outcomes folded in, in plan order.
pub open spec fn fold_calls(
    g: GraphD,
    ctx: RootCtx,
    calls: Seq<CallD>,
    outs: Seq<CallOutcome>,
) -> GraphD
    decreases calls.len(),
{
    if calls.len() == 0 {
        g
    } else {
        apply_d(
            fold_calls(g, ctx, calls.drop_last(), outs),
            ctx,
            calls.last(),
            out_at(outs, calls.len() - 1),
        )
    }
}

/// The root node: keyed by the root's uid, labelled by its name, carrying
/// the full document.
pub open spec fn root_node_d(kind: K8sResourceType, root: ResourceObject) -> NodeD {
    NodeD {
        id: root.uid->0@,
        label: root.name@,
        resource_type: kind_name_spec(kind),
        data: root.data,
    }
}

/// The graph before any outcome is folded in: the root node alone.
pub open spec fn init_graph_d(kind: K8sResourceType, root: ResourceObject) -> GraphD {
    GraphD { nodes: seq![root_node_d(kind, root)], edges: Seq::empty() }
}

/// The root facts of a root object.
pub open spec fn ctx_of(kind: K8sResourceType, root: ResourceObject) -> RootCtx {
    RootCtx {
        kind,
        uid: root.uid->0@,
        name: root.name@,
        labels: match root.labels {
            Some(l) => Some(l.deep_view()),
            None => None,
        },
    }
}

/// The resolved graph of a root object with a uid: the planned calls'
/// outcomes folded into the root-only graph.
pub open spec fn resolve_d(
    kind: K8sResourceType,
    root: ResourceObject,
    ns: Option<Seq<char>>,
    outs: Seq<CallOutcome>,
) -> GraphD {
    fold_calls(init_graph_d(kind, root), ctx_of(kind, root), plan_d(kind, root, ns), outs)
}

/// Whether some owner reference carries the uid.
pub fn owned_by_exec(refs: &Vec<OwnerRef>, uid: &String) -> (b: bool)
    ensures
        b == owned_by(refs@, uid@),
{
    let mut i: usize = 0;
    while i < refs.len()
        invariant
            i <= refs.len(),
            forall|j: int| 0 <= j < i ==> (#[trigger] refs@[j]).uid@ != uid@,
        decreases refs.len() - i,
    {
        if refs[i].uid == *uid {
            return true;
        }
        i = i + 1;
    }
    false
}

/// Whether one pod-spec reference points at the root.
pub fn ref_matches_exec(kind: K8sResourceType, name: &String, r: &PodRef) -> (b: bool)
    ensures
        b == ref_matches(kind, name@, *r),
{
    match kind {
        K8sResourceType::ConfigMap => (matches!(
            r.kind,
            crate::object::PodRefKind::VolumeConfigMap | crate::object::PodRefKind::EnvConfigMap
        )) && r.name == *name,
        K8sResourceType::Secret => (matches!(
            r.kind,
            crate::object::PodRefKind::VolumeSecret | crate::object::PodRefKind::EnvSecret
        )) && r.name == *name,
        K8sResourceType::PersistentVolumeClaim => (matches!(
            r.kind,
            crate::object::PodRefKind::VolumeClaim
        )) && r.name == *name,
        _ => false,
    }
}

/// Whether a pod references the root at all.
pub fn pod_uses_exec(kind: K8sResourceType, name: &String, refs: &Vec<PodRef>) -> (b: bool)
    ensures
        b == pod_uses(kind, name@, refs@),
{
    let mut i: usize = 0;
    while i < refs.len()
        invariant
            i <= refs.len(),
            forall|j: int| 0 <= j < i ==> !ref_matches(kind, name@, #[trigger] refs@[j]),
        decreases refs.len() - i,
    {
        if ref_matches_exec(kind, name, &refs[i]) {
            return true;
        }
        i = i + 1;
    }
    false
}

/// Inserts one related object: its node under deduplication, its edge
/// unconditionally.
fn add_related(
    nodes: &mut Vec<GraphNode>,
    edges: &mut Vec<GraphEdge>,
    id: &String,
    label: &String,
    kind: K8sResourceType,
    data: serde_json::Value,
    source: &String,
    target: &String,
    edge_label: String,
)
    ensures
        nodes_view(final(nodes)@) == push_dedup(
            nodes_view(old(nodes)@),
            related_node(id@, label@, kind, data),
        ),
        edges_view(final(edges)@) == edges_view(old(edges)@).push(
            labeled_edge(source@, target@, edge_label@),
        ),
{
    add_node(
        nodes,
        GraphNode {
            id: id.clone(),
            label: label.clone(),
            resource_type: kind.kind_name(),
            data,
        },
    );
    add_edge(edges, source, target, edge_label);
}

/// Folds one object of a listing into the graph, by the rule that asked
/// for the listing.
fn apply_item(
    nodes: &mut Vec<GraphNode>,
    edges: &mut Vec<GraphEdge>,
    root_kind: K8sResourceType,
    root_uid: &String,
    root_name: &String,
    root_labels: &Option<Vec<(String, String)>>,
    call: &PlannedCall,
    o: ResourceObject,
)
    ensures
        (GraphD { nodes: nodes_view(final(nodes)@), edges: edges_view(final(edges)@) })
            == item_step(
            (GraphD { nodes: nodes_view(old(nodes)@), edges: edges_view(old(edges)@) }),
            (RootCtx {
                kind: root_kind,
                uid: root_uid@,
                name: root_name@,
                labels: root_labels.deep_view(),
            }),
            call@,
            o,
        ),
{
    let ghost ctx = RootCtx {
        kind: root_kind,
        uid: root_uid@,
        name: root_name@,
        labels: root_labels.deep_view(),
    };
    match call {
        PlannedCall::ListSelectedPods { .. } => {
            let ResourceObject { uid, name, data, .. } = o;
            match uid {
                Some(u) => {
                    if !u.as_str().is_empty() {
                        add_related(
                            nodes,
                            edges,
                            &u,
                            &name,
                            K8sResourceType::Pod,
                            data,
                            root_uid,
                            &u,
                            "selects".to_owned(),
                        );
                    }
                },
                None => {},
            }
        },
        PlannedCall::ListServices { .. } => {
            let ResourceObject { uid, name, selector, data, .. } = o;
            match (uid, selector) {
                (Some(u), Some(sel)) => {
                    if !u.as_str().is_empty() {
                        let empty: Vec<(String, String)> = Vec::new();
                        let labs: &Vec<(String, String)> = match root_labels {
                            Some(l) => l,
                            None => &empty,
                        };
                        proof {
                            assert(labs.deep_view() =~= root_labels_view(ctx));
                        }
                        if selector_matches_exec(&sel, labs) {
                            add_related(
                                nodes,
                                edges,
                                &u,
                                &name,
                                K8sResourceType::Service,
                                data,
                                &u,
                                root_uid,
                                "selects".to_owned(),
                            );
                        }
                    }
                },
                _ => {},
            }
        },
        PlannedCall::ListPodsUsingRoot { .. } => {
            let ResourceObject { uid, name, pod_refs, data, .. } = o;
            match uid {
                Some(u) => {
                    if !u.as_str().is_empty() && pod_uses_exec(root_kind, root_name, &pod_refs) {
                        add_related(
                            nodes,
                            edges,
                            &u,
                            &name,
                            K8sResourceType::Pod,
                            data,
                            &u,
                            root_uid,
                            "uses".to_owned(),
                        );
                    }
                },
                None => {},
            }
        },
        PlannedCall::ListClaimsOfClass => {
            let ResourceObject { uid, name, storage_class_name, data, .. } = o;
            match (uid, storage_class_name) {
                (Some(u), Some(n)) => {
                    if !u.as_str().is_empty() && n == *root_name {
                        add_related(
                            nodes,
                            edges,
                            &u,
                            &name,
                            K8sResourceType::PersistentVolumeClaim,
                            data,
                            &u,
                            root_uid,
                            "uses".to_owned(),
                        );
                    }
                },
                _ => {},
            }
        },
        PlannedCall::ListReplicaSets { .. } => {
            let ResourceObject { uid, name, owner_references, data, .. } = o;
            match uid {
                Some(u) => {
                    if !u.as_str().is_empty() && owned_by_exec(&owner_references, root_uid) {
                        add_related(
                            nodes,
                            edges,
                            &u,
                            &name,
                            K8sResourceType::ReplicaSet,
                            data,
                            root_uid,
                            &u,
                            "manages".to_owned(),
                        );
                    }
                },
                None => {},
            }
        },
        PlannedCall::ListOwnedPods { .. } => {
            let ResourceObject { uid, name, owner_references, data, .. } = o;
            match uid {
                Some(u) => {
                    if !u.as_str().is_empty() && owned_by_exec(&owner_references, root_uid) {
                        add_related(
                            nodes,
                            edges,
                            &u,
                            &name,
                            K8sResourceType::Pod,
                            data,
                            root_uid,
                            &u,
                            "manages".to_owned(),
                        );
                    }
                },
                None => {},
            }
        },
        _ => {},
    }
}

/// Folds a listing's objects into the graph, left to right.
fn apply_list(
    nodes: &mut Vec<GraphNode>,
    edges: &mut Vec<GraphEdge>,
    root_kind: K8sResourceType,
    root_uid: &String,
    root_name: &String,
    root_labels: &Option<Vec<(String, String)>>,
    call: &PlannedCall,
    items: Vec<ResourceObject>,
)
    ensures
        (GraphD { nodes: nodes_view(final(nodes)@), edges: edges_view(final(edges)@) })
            == fold_items(
            (GraphD { nodes: nodes_view(old(nodes)@), edges: edges_view(old(edges)@) }),
            (RootCtx {
                kind: root_kind,
                uid: root_uid@,
                name: root_name@,
                labels: root_labels.deep_view(),
            }),
            call@,
            items@,
        ),
{
    let ghost ctx = RootCtx {
        kind: root_kind,
        uid: root_uid@,
        name: root_name@,
        labels: root_labels.deep_view(),
    };
    let ghost g0 = GraphD { nodes: nodes_view(nodes@), edges: edges_view(edges@) };
    let ghost items0 = items@;
    let items_len: usize = items.len();
    let mut rest = items;
    let mut i: usize = 0;
    while i < items_len
        invariant
            i <= items0.len(),
            rest@ == items0.skip(i as int),
            (GraphD { nodes: nodes_view(nodes@), edges: edges_view(edges@) }) == fold_items(
                g0,
                ctx,
                call@,
                items0.take(i as int),
            ),
            ctx == (RootCtx {
                kind: root_kind,
                uid: root_uid@,
                name: root_name@,
                labels: root_labels.deep_view(),
            }),
            items_len == items0.len(),
        decreases items0.len() - i,
    {
        let o = rest.remove(0);
        proof {
            assert(items0.skip(i as int)[0] == items0[i as int]);
            assert(items0.skip(i as int).remove(0) =~= items0.skip(i + 1 as int));
            assert(items0.take(i + 1 as int).drop_last() =~= items0.take(i as int));
            assert(items0.take(i + 1 as int).last() == items0[i as int]);
        }
        apply_item(nodes, edges, root_kind, root_uid, root_name, root_labels, call, o);
        assert((GraphD { nodes: nodes_view(nodes@), edges: edges_view(edges@) }) == fold_items(
            g0,
            ctx,
            call@,
            items0.take(i + 1 as int),
        ));
        i = i + 1;
    }
    assert(items0.take(items0.len() as int) =~= items0);
}

/// Folds one call's outcome into the graph.
fn apply_call(
    nodes: &mut Vec<GraphNode>,
    edges: &mut Vec<GraphEdge>,
    root_kind: K8sResourceType,
    root_uid: &String,
    root_name: &String,
    root_labels: &Option<Vec<(String, String)>>,
    call: &PlannedCall,
    out: CallOutcome,
)
    ensures
        (GraphD { nodes: nodes_view(final(nodes)@), edges: edges_view(final(edges)@) })
            == apply_d(
            (GraphD { nodes: nodes_view(old(nodes)@), edges: edges_view(old(edges)@) }),
            (RootCtx {
                kind: root_kind,
                uid: root_uid@,
                name: root_name@,
                labels: root_labels.deep_view(),
            }),
            call@,
            out,
        ),
{
    let ghost ctx = RootCtx {
        kind: root_kind,
        uid: root_uid@,
        name: root_name@,
        labels: root_labels.deep_view(),
    };
    match out {
        CallOutcome::Failed => {},
        CallOutcome::GotOne(o) => {
            match call {
                PlannedCall::GetOwner { kind, name, ref_uid, .. } => {
                    let ResourceObject { data, .. } = o;
                    add_related(
                        nodes,
                        edges,
                        ref_uid,
                        name,
                        *kind,
                        data,
                        ref_uid,
                        root_uid,
                        "owner".to_owned(),
                    );
                },
                PlannedCall::GetPodRef { kind, name, .. } => {
                    let ResourceObject { uid, data, .. } = o;
                    match uid {
                        Some(u) => {
                            if !u.as_str().is_empty() {
                                add_related(
                                    nodes,
                                    edges,
                                    &u,
                                    name,
                                    *kind,
                                    data,
                                    root_uid,
                                    &u,
                                    "uses".to_owned(),
                                );
                            }
                        },
                        None => {},
                    }
                },
                PlannedCall::GetStorageClass { name } => {
                    let ResourceObject { uid, data, .. } = o;
                    match uid {
                        Some(u) => {
                            if !u.as_str().is_empty() {
                                add_related(
                                    nodes,
                                    edges,
                                    &u,
                                    name,
                                    K8sResourceType::StorageClass,
                                    data,
                                    root_uid,
                                    &u,
                                    "uses".to_owned(),
                                );
                            }
                        },
                        None => {},
                    }
                },
                PlannedCall::GetPersistentVolume { name } => {
                    let ResourceObject { uid, data, .. } = o;
                    match uid {
                        Some(u) => {
                            if !u.as_str().is_empty() {
                                add_related(
                                    nodes,
                                    edges,
                                    &u,
                                    name,
                                    K8sResourceType::PersistentVolume,
                                    data,
                                    root_uid,
                                    &u,
                                    "bound".to_owned(),
                                );
                            }
                        },
                        None => {},
                    }
                },
                PlannedCall::GetClaim { name, .. } => {
                    let ResourceObject { uid, data, .. } = o;
                    match uid {
                        Some(u) => {
                            if !u.as_str().is_empty() {
                                add_related(
                                    nodes,
                                    edges,
                                    &u,
                                    name,
                                    K8sResourceType::PersistentVolumeClaim,
                                    data,
                                    root_uid,
                                    &u,
                                    "bound".to_owned(),
                                );
                            }
                        },
                        None => {},
                    }
                },
                _ => {},
            }
        },
        CallOutcome::GotList(items) => {
            match call {
                PlannedCall::GetOwner { .. } => {},
                PlannedCall::GetPodRef { .. } => {},
                PlannedCall::GetStorageClass { .. } => {},
                PlannedCall::GetPersistentVolume { .. } => {},
                PlannedCall::GetClaim { .. } => {},
                _ => {
                    apply_list(
                        nodes,
                        edges,
                        root_kind,
                        root_uid,
                        root_name,
                        root_labels,
                        call,
                        items,
                    );
                },
            }
        },
    }
}

/// Inserting one related object preserves well-formedness whenever the
/// edge runs between the inserted node and the root.
proof fn lemma_add_pair_wf(g: GraphD, n: NodeD, e: EdgeD, root_id: Seq<char>)
    requires
        graph_wf(g, root_id),
        e.source == n.id || e.source == root_id,
        e.target == n.id || e.target == root_id,
    ensures
        graph_wf(add_pair(g, n, e), root_id),
{
    let g2 = add_pair(g, n, e);
    let ns2 = g2.nodes;
    assert(ns2[0] == g.nodes[0]);
    if !has_node_id(g.nodes, n.id) {
        assert forall|i: int, j: int| 0 <= i < j < ns2.len() implies (#[trigger] ns2[i]).id != (
        #[trigger] ns2[j]).id by {
            if j == ns2.len() - 1 {
                if ns2[i].id == n.id {
                    assert(g.nodes[i].id == n.id);
                    assert(has_node_id(g.nodes, n.id));
                }
            }
        }
    }
    assert(has_node_id(ns2, root_id)) by {
        assert(ns2[0].id == root_id);
    }
    assert(has_node_id(ns2, n.id)) by {
        if has_node_id(g.nodes, n.id) {
            let w = choose|w: int| 0 <= w < g.nodes.len() && g.nodes[w].id == n.id;
            assert(ns2[w].id == n.id);
        } else {
            assert(ns2[ns2.len() - 1].id == n.id);
        }
    }
    assert forall|k: int| 0 <= k < g2.edges.len() implies has_node_id(
        g2.nodes,
        (#[trigger] g2.edges[k]).source,
    ) && has_node_id(g2.nodes, g2.edges[k].target) by {
        if k < g.edges.len() {
            assert(g2.edges[k] == g.edges[k]);
            assert(has_node_id(g.nodes, g.edges[k].source));
            assert(has_node_id(g.nodes, g.edges[k].target));
            let ws = choose|w: int| 0 <= w < g.nodes.len() && g.nodes[w].id == g.edges[k].source;
            assert(ns2[ws].id == g.edges[k].source);
            let wt = choose|w: int| 0 <= w < g.nodes.len() && g.nodes[w].id == g.edges[k].target;
            assert(ns2[wt].id == g.edges[k].target);
        } else {
            assert(g2.edges[k] == e);
        }
    }
}

/// One single-object outcome preserves well-formedness.
proof fn lemma_get_step_wf(g: GraphD, ctx: RootCtx, call: CallD, o: ResourceObject)
    requires
        graph_wf(g, ctx.uid),
    ensures
        graph_wf(get_step(g, ctx, call, o), ctx.uid),
{
    match call {
        CallD::GetOwner { kind, name, ref_uid, .. } => {
            lemma_add_pair_wf(
                g,
                related_node(ref_uid, name, kind, o.data),
                labeled_edge(ref_uid, ctx.uid, "owner"@),
                ctx.uid,
            );
        },
        CallD::GetPodRef { kind, name, .. } => {
            match usable_uid(o) {
                Some(u) => lemma_add_pair_wf(
                    g,
                    related_node(u, name, kind, o.data),
                    labeled_edge(ctx.uid, u, "uses"@),
                    ctx.uid,
                ),
                None => {},
            }
        },
        CallD::GetStorageClass { name } => {
            match usable_uid(o) {
                Some(u) => lemma_add_pair_wf(
                    g,
                    related_node(u, name, K8sResourceType::StorageClass, o.data),
                    labeled_edge(ctx.uid, u, "uses"@),
                    ctx.uid,
                ),
                None => {},
            }
        },
        CallD::GetPersistentVolume { name } => {
            match usable_uid(o) {
                Some(u) => lemma_add_pair_wf(
                    g,
                    related_node(u, name, K8sResourceType::PersistentVolume, o.data),
                    labeled_edge(ctx.uid, u, "bound"@),
                    ctx.uid,
                ),
                None => {},
            }
        },
        CallD::GetClaim { name, .. } => {
            match usable_uid(o) {
                Some(u) => lemma_add_pair_wf(
                    g,
                    related_node(u, name, K8sResourceType::PersistentVolumeClaim, o.data),
                    labeled_edge(ctx.uid, u, "bound"@),
                    ctx.uid,
                ),
                None => {},
            }
        },
        _ => {},
    }
}

/// One listed object preserves well-formedness.
proof fn lemma_item_step_wf(g: GraphD, ctx: RootCtx, call: CallD, o: ResourceObject)
    requires
        graph_wf(g, ctx.uid),
    ensures
        graph_wf(item_step(g, ctx, call, o), ctx.uid),
{
    match call {
        CallD::ListSelectedPods { .. } => {
            match usable_uid(o) {
                Some(u) => lemma_add_pair_wf(
                    g,
                    related_node(u, o.name@, K8sResourceType::Pod, o.data),
                    labeled_edge(ctx.uid, u, "selects"@),
                    ctx.uid,
                ),
                None => {},
            }
        },
        CallD::ListServices { .. } => {
            match (usable_uid(o), o.selector) {
                (Some(u), Some(sel)) => {
                    if selector_matches(sel.deep_view(), root_labels_view(ctx)) {
                        lemma_add_pair_wf(
                            g,
                            related_node(u, o.name@, K8sResourceType::Service, o.data),
                            labeled_edge(u, ctx.uid, "selects"@),
                            ctx.uid,
                        );
                    }
                },
                _ => {},
            }
        },
        CallD::ListPodsUsingRoot { .. } => {
            match usable_uid(o) {
                Some(u) => {
                    if pod_uses(ctx.kind, ctx.name, o.pod_refs@) {
                        lemma_add_pair_wf(
                            g,
                            related_node(u, o.name@, K8sResourceType::Pod, o.data),
                            labeled_edge(u, ctx.uid, "uses"@),
                            ctx.uid,
                        );
                    }
                },
                None => {},
            }
        },
        CallD::ListClaimsOfClass => {
            match (usable_uid(o), o.storage_class_name) {
                (Some(u), Some(n)) => {
                    if n@ == ctx.name {
                        lemma_add_pair_wf(
                            g,
                            related_node(
                                u,
                                o.name@,
                                K8sResourceType::PersistentVolumeClaim,
                                o.data,
                            ),
                            labeled_edge(u, ctx.uid, "uses"@),
                            ctx.uid,
                        );
                    }
                },
                _ => {},
            }
        },
        CallD::ListReplicaSets { .. } => {
            match usable_uid(o) {
                Some(u) => {
                    if owned_by(o.owner_references@, ctx.uid) {
                        lemma_add_pair_wf(
                            g,
                            related_node(u, o.name@, K8sResourceType::ReplicaSet, o.data),
                            labeled_edge(ctx.uid, u, "manages"@),
                            ctx.uid,
                        );
                    }
                },
                None => {},
            }
        },
        CallD::ListOwnedPods { .. } => {
            match usable_uid(o) {
                Some(u) => {
                    if owned_by(o.owner_references@, ctx.uid) {
                        lemma_add_pair_wf(
                            g,
                            related_node(u, o.name@, K8sResourceType::Pod, o.data),
                            labeled_edge(ctx.uid, u, "manages"@),
                            ctx.uid,
                        );
                    }
                },
                None => {},
            }
        },
        _ => {},
    }
}

/// A whole listing preserves well-formedness.
proof fn lemma_fold_items_wf(g: GraphD, ctx: RootCtx, call: CallD, items: Seq<ResourceObject>)
    requires
        graph_wf(g, ctx.uid),
    ensures
        graph_wf(fold_items(g, ctx, call, items), ctx.uid),
    decreases items.len(),
{
    if items.len() > 0 {
        lemma_fold_items_wf(g, ctx, call, items.drop_last());
        lemma_item_step_wf(fold_items(g, ctx, call, items.drop_last()), ctx, call, items.last());
    }
}

/// One call's outcome preserves well-formedness.
proof fn lemma_apply_wf(g: GraphD, ctx: RootCtx, call: CallD, out: CallOutcome)
    requires
        graph_wf(g, ctx.uid),
    ensures
        graph_wf(apply_d(g, ctx, call, out), ctx.uid),
{
    match out {
        CallOutcome::Failed => {},
        CallOutcome::GotOne(o) => {
            if is_get_call(call) {
                lemma_get_step_wf(g, ctx, call, o);
            }
        },
        CallOutcome::GotList(items) => {
            if !is_get_call(call) {
                lemma_fold_items_wf(g, ctx, call, items@);
            }
        },
    }
}

/// The whole fold preserves well-formedness.
proof fn lemma_fold_calls_wf(g: GraphD, ctx: RootCtx, calls: Seq<CallD>, outs: Seq<CallOutcome>)
    requires
        graph_wf(g, ctx.uid),
    ensures
        graph_wf(fold_calls(g, ctx, calls, outs), ctx.uid),
    decreases calls.len(),
{
    if calls.len() > 0 {
        lemma_fold_calls_wf(g, ctx, calls.drop_last(), outs);
        lemma_apply_wf(
            fold_calls(g, ctx, calls.drop_last(), outs),
            ctx,
            calls.last(),
            out_at(outs, calls.len() - 1),
        );
    }
}

/// Resolves the graph of a root object: the root node first, then every
/// outcome folded in under first-insertion-wins deduplication.
///
/// Succeeds exactly when the root carries a uid. The result then is the
/// exact fold `resolve_d`, and it is well-formed: every edge endpoint
/// names a node, node ids are unique, and the root node comes first.
pub fn resolve_graph(
    kind: K8sResourceType,
    root: ResourceObject,
    namespace: Option<String>,
    outcomes: Vec<CallOutcome>,
) -> (r: Result<GraphData, ResolveError>)
    ensures
        (r is Err) <==> (root.uid is None),
        r is Err ==> r->Err_0 == ResolveError::MissingUid,
        r is Ok ==> (r->Ok_0)@ == resolve_d(kind, root, namespace.deep_view(), outcomes@),
        r is Ok ==> graph_wf((r->Ok_0)@, root.uid->0@),
{
    let ghost nsv = namespace.deep_view();
    let ghost outs0 = outcomes@;
    let calls = plan_requests(kind, &root, &namespace);
    let ghost root0 = root;
    let ghost calls_d = calls.deep_view();
    let ResourceObject { uid, name, labels, data, .. } = root;
    let uid = match uid {
        Some(u) => u,
        None => {
            return Err(ResolveError::MissingUid);
        },
    };
    let mut nodes: Vec<GraphNode> = Vec::new();
    let mut edges: Vec<GraphEdge> = Vec::new();
    nodes.push(
        GraphNode {
            id: uid.clone(),
            label: name.clone(),
            resource_type: kind.kind_name(),
            data,
        },
    );
    let ghost ctx = ctx_of(kind, root0);
    let ghost g0 = init_graph_d(kind, root0);
    proof {
        assert(nodes_view(nodes@) =~= seq![root_node_d(kind, root0)]);
        assert(edges_view(edges@) =~= Seq::<EdgeD>::empty());
        assert(ctx == (RootCtx { kind, uid: uid@, name: name@, labels: labels.deep_view() }));
        assert(graph_wf(g0, ctx.uid));
    }
    let calls_len: usize = calls.len();
    let mut rest = outcomes;
    let mut i: usize = 0;
    while i < calls_len
        invariant
            i <= calls_d.len(),
            calls_len == calls_d.len(),
            calls.deep_view() == calls_d,
            calls@.len() == calls_d.len(),
            (i as int <= outs0.len() && rest@ == outs0.skip(i as int)) || (i as int > outs0.len()
                && rest@.len() == 0),
            (GraphD { nodes: nodes_view(nodes@), edges: edges_view(edges@) }) == fold_calls(
                g0,
                ctx,
                calls_d.take(i as int),
                outs0,
            ),
            ctx == (RootCtx { kind, uid: uid@, name: name@, labels: labels.deep_view() }),
        decreases calls_d.len() - i,
    {
        let out: CallOutcome = if rest.len() > 0 {
            let o = rest.remove(0);
            proof {
                if (i as int) <= outs0.len() {
                    assert(outs0.skip(i as int)[0] == outs0[i as int]);
                    assert(outs0.skip(i as int).remove(0) =~= outs0.skip(i + 1 as int));
                }
            }
            o
        } else {
            proof {
                if (i as int) < outs0.len() {
                    assert(outs0.skip(i as int).len() > 0);
                }
            }
            CallOutcome::Failed
        };
        proof {
            assert(out == out_at(outs0, i as int));
            assert(calls_d.take(i + 1 as int).drop_last() =~= calls_d.take(i as int));
            assert(calls_d.take(i + 1 as int).last() == calls_d[i as int]);
            assert(calls@[i as int].deep_view() == calls_d[i as int]);
        }
        apply_call(&mut nodes, &mut edges, kind, &uid, &name, &labels, &calls[i], out);
        assert((GraphD { nodes: nodes_view(nodes@), edges: edges_view(edges@) }) == fold_calls(
            g0,
            ctx,
            calls_d.take(i + 1 as int),
            outs0,
        ));
        i = i + 1;
    }
    proof {
        assert(calls_d.take(calls_d.len() as int) =~= calls_d);
        assert(calls_d == plan_d(kind, root0, nsv));
        lemma_fold_calls_wf(g0, ctx, calls_d, outs0);
    }
    Ok(GraphData { nodes, edges })
}

/// A failed lookup contributes nothing: the graph after a failed outcome
/// is the graph before it. The absence of a related object never
/// produces a node or an edge.
pub proof fn lemma_failed_lookup_adds_nothing(g: GraphD, ctx: RootCtx, call: CallD)
    ensures
        apply_d(g, ctx, call, CallOutcome::Failed) == g,
{
}

/// The edge label each rule writes.
pub open spec fn call_edge_label(call: CallD) -> Seq<char> {
    match call {
        CallD::GetOwner { .. } => "owner"@,
        CallD::ListSelectedPods { .. } => "selects"@,
        CallD::ListServices { .. } => "selects"@,
        CallD::GetPodRef { .. } => "uses"@,
        CallD::GetStorageClass { .. } => "uses"@,
        CallD::GetPersistentVolume { .. } => "bound"@,
        CallD::GetClaim { .. } => "bound"@,
        CallD::ListPodsUsingRoot { .. } => "uses"@,
        CallD::ListClaimsOfClass => "uses"@,
        CallD::ListReplicaSets { .. } => "manages"@,
        CallD::ListOwnedPods { .. } => "manages"@,
    }
}

/// Whether a step kept the old edges in place and labelled every new one
/// with `lbl`.
pub open spec fn edges_extended(g: GraphD, g2: GraphD, lbl: Seq<char>) -> bool {
    &&& g.edges.len() <= g2.edges.len()
    &&& forall|k: int| 0 <= k < g.edges.len() ==> g2.edges[k] == g.edges[k]
    &&& forall|k: int|
        g.edges.len() <= k < g2.edges.len() ==> (#[trigger] g2.edges[k]).label == lbl
}

/// A single-object outcome only appends edges carrying its rule's label.
proof fn lemma_get_step_label(g: GraphD, ctx: RootCtx, call: CallD, o: ResourceObject)
    ensures
        edges_extended(g, get_step(g, ctx, call, o), call_edge_label(call)),
{
}

/// A listed object only appends edges carrying its rule's label.
proof fn lemma_item_step_label(g: GraphD, ctx: RootCtx, call: CallD, o: ResourceObject)
    ensures
        edges_extended(g, item_step(g, ctx, call, o), call_edge_label(call)),
{
}

/// A whole listing only appends edges carrying its rule's label.
proof fn lemma_fold_items_label(g: GraphD, ctx: RootCtx, call: CallD, items: Seq<ResourceObject>)
    ensures
        edges_extended(g, fold_items(g, ctx, call, items), call_edge_label(call)),
    decreases items.len(),
{
    if items.len() > 0 {
        lemma_fold_items_label(g, ctx, call, items.drop_last());
        lemma_item_step_label(fold_items(g, ctx, call, items.drop_last()), ctx, call, items.last());
    }
}

/// One call's outcome only appends edges carrying the call's label.
proof fn lemma_apply_label(g: GraphD, ctx: RootCtx, call: CallD, out: CallOutcome)
    ensures
        edges_extended(g, apply_d(g, ctx, call, out), call_edge_label(call)),
{
    match out {
        CallOutcome::Failed => {},
        CallOutcome::GotOne(o) => {
            if is_get_call(call) {
                lemma_get_step_label(g, ctx, call, o);
            }
        },
        CallOutcome::GotList(items) => {
            if !is_get_call(call) {
                lemma_fold_items_label(g, ctx, call, items@);
            }
        },
    }
}

/// Every edge the fold appends carries the label of one of the folded
/// calls; the edges already present stay in place.
proof fn lemma_fold_calls_label(g: GraphD, ctx: RootCtx, calls: Seq<CallD>, outs: Seq<CallOutcome>)
    ensures
        g.edges.len() <= fold_calls(g, ctx, calls, outs).edges.len(),
        forall|k: int|
            0 <= k < g.edges.len() ==> fold_calls(g, ctx, calls, outs).edges[k] == g.edges[k],
        forall|k: int|
            g.edges.len() <= k < fold_calls(g, ctx, calls, outs).edges.len() ==> exists|i: int|
                0 <= i < calls.len() && (#[trigger] fold_calls(g, ctx, calls, outs).edges[k]).label
                    == call_edge_label(#[trigger] calls[i]),
    decreases calls.len(),
{
    if calls.len() > 0 {
        let prev = fold_calls(g, ctx, calls.drop_last(), outs);
        let last = calls.last();
        lemma_fold_calls_label(g, ctx, calls.drop_last(), outs);
        lemma_apply_label(prev, ctx, last, out_at(outs, calls.len() - 1));
        let g2 = fold_calls(g, ctx, calls, outs);
        assert forall|k: int| g.edges.len() <= k < g2.edges.len() implies exists|i: int|
            0 <= i < calls.len() && (#[trigger] g2.edges[k]).label == call_edge_label(
                #[trigger] calls[i],
            ) by {
            if k < prev.edges.len() {
                let i = choose|i: int|
                    0 <= i < calls.drop_last().len() && prev.edges[k].label == call_edge_label(
                        #[trigger] calls.drop_last()[i],
                    );
                assert(calls.drop_last()[i] == calls[i]);
                assert(g2.edges[k] == prev.edges[k]);
                assert(g2.edges[k].label == call_edge_label(calls[i]));
            } else {
                assert(g2.edges[k].label == call_edge_label(last));
                assert(calls[calls.len() - 1] == last);
            }
        }
    }
}

/// A Service root whose selector is absent or empty yields no `selects`
/// edge: beside making no list call, the resolved graph never relates
/// the Service to a pod.
pub proof fn lemma_empty_selector_no_selects_edge(
    root: ResourceObject,
    ns: Option<Seq<char>>,
    outs: Seq<CallOutcome>,
)
    requires
        root.selector is None || root.selector->0.deep_view().len() == 0,
    ensures
        forall|k: int|
            0 <= k < resolve_d(K8sResourceType::Service, root, ns, outs).edges.len() ==> (
            #[trigger] resolve_d(K8sResourceType::Service, root, ns, outs).edges[k]).label
                != "selects"@,
{
    let kind = K8sResourceType::Service;
    let calls = plan_d(kind, root, ns);
    let g0 = init_graph_d(kind, root);
    let ctx = ctx_of(kind, root);
    crate::plan::lemma_empty_selector_no_list(root, ns);
    lemma_fold_calls_label(g0, ctx, calls, outs);
    reveal_strlit("owner");
    reveal_strlit("selects");
    assert("owner"@.len() == 5);
    assert("selects"@.len() == 7);
    assert forall|k: int| 0 <= k < resolve_d(kind, root, ns, outs).edges.len() implies (
    #[trigger] resolve_d(kind, root, ns, outs).edges[k]).label != "selects"@ by {
        let g2 = resolve_d(kind, root, ns, outs);
        assert(g0.edges.len() == 0);
        let i = choose|i: int|
            0 <= i < calls.len() && g2.edges[k].label == call_edge_label(#[trigger] calls[i]);
        assert(calls[i] is GetOwner);
        assert(call_edge_label(calls[i]) == "owner"@);
    }
}

/// An owner reference whose kind is outside the registry yields no
/// upstream edge: when no reference of the root carries a registered
/// kind, the resolved graph holds no `owner` edge at all.
pub proof fn lemma_unregistered_owner_no_owner_edge(
    kind: K8sResourceType,
    root: ResourceObject,
    ns: Option<Seq<char>>,
    outs: Seq<CallOutcome>,
)
    requires
        forall|j: int|
            0 <= j < root.owner_references@.len() ==> crate::kinds::from_kind_spec(
                (#[trigger] root.owner_references@[j]).kind@,
            ) is None,
    ensures
        forall|k: int|
            0 <= k < resolve_d(kind, root, ns, outs).edges.len() ==> (#[trigger] resolve_d(
                kind,
                root,
                ns,
                outs,
            ).edges[k]).label != "owner"@,
{
    let calls = plan_d(kind, root, ns);
    let g0 = init_graph_d(kind, root);
    let ctx = ctx_of(kind, root);
    crate::plan::lemma_unregistered_owner_no_call(kind, root, ns);
    lemma_fold_calls_label(g0, ctx, calls, outs);
    reveal_strlit("owner");
    reveal_strlit("selects");
    reveal_strlit("uses");
    reveal_strlit("bound");
    reveal_strlit("manages");
    assert("owner"@.len() == 5);
    assert("selects"@.len() == 7);
    assert("uses"@.len() == 4);
    assert("bound"@.len() == 5);
    assert("manages"@.len() == 7);
    assert("bound"@ != "owner"@) by {
        assert("bound"@[0] != "owner"@[0]);
    }
    assert forall|k: int| 0 <= k < resolve_d(kind, root, ns, outs).edges.len() implies (
    #[trigger] resolve_d(kind, root, ns, outs).edges[k]).label != "owner"@ by {
        let g2 = resolve_d(kind, root, ns, outs);
        assert(g0.edges.len() == 0);
        let i = choose|i: int|
            0 <= i < calls.len() && g2.edges[k].label == call_edge_label(#[trigger] calls[i]);
        assert(!(calls[i] is GetOwner));
        assert(call_edge_label(calls[i]) != "owner"@);
    }
}

} // verus!\n