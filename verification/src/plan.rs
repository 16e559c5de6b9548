//! Planning: from the root object's plain facts to the exact list of
//! follow-up API calls the resolver wants performed. The plan depends on
//! the root object alone, so every call can be issued independently and
//! the outcomes folded afterwards.

use vstd::prelude::*;
use crate::kinds::K8sResourceType;
use crate::kinds::from_kind_spec;
use crate::object::OwnerRef;
use crate::object::PodRef;
use crate::object::PodRefKind;
use crate::object::ResourceObject;
use crate::object::clone_opt_string;
use crate::object::clone_pairs;
use crate::selector::render_selector;
use crate::selector::render_selector_spec;

verus! {

/// One planned follow-up call, together with what the resolver will do
/// with its outcome.
#[allow(inconsistent_fields)]
pub enum PlannedCall {
    /// Fetch one owner from `metadata.ownerReferences`; its node is keyed
    /// by the reference's uid and an `owner` edge points at the root.
    GetOwner { kind: K8sResourceType, name: String, ref_uid: String, namespace: Option<String> },
    /// List the pods a Service selects, server-side, by its selector;
    /// each match gains a `selects` edge from the root.
    ListSelectedPods { namespace: Option<String>, selector: Vec<(String, String)> },
    /// List the Services of the namespace; those whose selector matches
    /// the root pod's labels gain a `selects` edge towards the root.
    ListServices { namespace: Option<String> },
    /// Fetch one ConfigMap, Secret or claim a pod spec references; a
    /// `uses` edge points from the root at it.
    GetPodRef { kind: K8sResourceType, name: String, namespace: Option<String> },
    /// Fetch the StorageClass a claim names; cluster-scoped.
    GetStorageClass { name: String },
    /// Fetch the PersistentVolume a claim is bound to; cluster-scoped.
    GetPersistentVolume { name: String },
    /// Fetch the claim a PersistentVolume's `claimRef` names.
    GetClaim { name: String, namespace: String },
    /// List the pods of the namespace; those referencing the root by name
    /// gain a `uses` edge towards the root.
    ListPodsUsingRoot { namespace: String },
    /// List claims cluster-wide; those naming the root StorageClass gain
    /// a `uses` edge towards the root.
    ListClaimsOfClass,
    /// List the ReplicaSets of the namespace; those owned by the root
    /// Deployment gain a `manages` edge from the root.
    ListReplicaSets { namespace: String },
    /// List the pods of the namespace; those owned by the root ReplicaSet
    /// gain a `manages` edge from the root.
    ListOwnedPods { namespace: String },
}

/// The mathematical image of a planned call.
#[allow(inconsistent_fields)]
pub ghost enum CallD {
    GetOwner {
        kind: K8sResourceType,
        name: Seq<char>,
        ref_uid: Seq<char>,
        namespace: Option<Seq<char>>,
    },
    ListSelectedPods { namespace: Option<Seq<char>>, selector: Seq<(Seq<char>, Seq<char>)> },
    ListServices { namespace: Option<Seq<char>> },
    GetPodRef { kind: K8sResourceType, name: Seq<char>, namespace: Option<Seq<char>> },
    GetStorageClass { name: Seq<char> },
    GetPersistentVolume { name: Seq<char> },
    GetClaim { name: Seq<char>, namespace: Seq<char> },
    ListPodsUsingRoot { namespace: Seq<char> },
    ListClaimsOfClass,
    ListReplicaSets { namespace: Seq<char> },
    ListOwnedPods { namespace: Seq<char> },
}

impl View for PlannedCall {
    type V = CallD;

    open spec fn view(&self) -> CallD {
        match self {
            PlannedCall::GetOwner { kind, name, ref_uid, namespace } => CallD::GetOwner {
                kind: *kind,
                name: name@,
                ref_uid: ref_uid@,
                namespace: namespace.deep_view(),
            },
            PlannedCall::ListSelectedPods { namespace, selector } => CallD::ListSelectedPods {
                namespace: namespace.deep_view(),
                selector: selector.deep_view(),
            },
            PlannedCall::ListServices { namespace } => CallD::ListServices {
                namespace: namespace.deep_view(),
            },
            PlannedCall::GetPodRef { kind, name, namespace } => CallD::GetPodRef {
                kind: *kind,
                name: name@,
                namespace: namespace.deep_view(),
            },
            PlannedCall::GetStorageClass { name } => CallD::GetStorageClass { name: name@ },
            PlannedCall::GetPersistentVolume { name } => CallD::GetPersistentVolume {
                name: name@,
            },
            PlannedCall::GetClaim { name, namespace } => CallD::GetClaim {
                name: name@,
                namespace: namespace@,
            },
            PlannedCall::ListPodsUsingRoot { namespace } => CallD::ListPodsUsingRoot {
                namespace: namespace@,
            },
            PlannedCall::ListClaimsOfClass => CallD::ListClaimsOfClass,
            PlannedCall::ListReplicaSets { namespace } => CallD::ListReplicaSets {
                namespace: namespace@,
            },
            PlannedCall::ListOwnedPods { namespace } => CallD::ListOwnedPods {
                namespace: namespace@,
            },
        }
    }
}

impl DeepView for PlannedCall {
    type V = CallD;

    open spec fn deep_view(&self) -> CallD {
        self.view()
    }
}

/// Whether an owner reference is usable: its kind is in the registry and
/// its name and uid are present. Malformed references are skipped
/// silently.
pub open spec fn owner_ref_usable(r: OwnerRef) -> bool {
    &&& from_kind_spec(r.kind@) is Some
    &&& r.name@.len() > 0
    &&& r.uid@.len() > 0
}

/// The owner lookup planned for one usable reference.
pub open spec fn owner_call(r: OwnerRef, ns: Option<Seq<char>>) -> CallD {
    CallD::GetOwner {
        kind: from_kind_spec(r.kind@)->0,
        name: r.name@,
        ref_uid: r.uid@,
        namespace: ns,
    }
}

/// The owner lookups planned for a reference list: one `GetOwner` per
/// usable reference, in document order.
pub open spec fn owner_calls(refs: Seq<OwnerRef>, ns: Option<Seq<char>>) -> Seq<CallD>
    decreases refs.len(),
{
    if refs.len() == 0 {
        Seq::empty()
    } else {
        owner_calls(refs.drop_last(), ns) + if owner_ref_usable(refs.last()) {
            seq![owner_call(refs.last(), ns)]
        } else {
            Seq::empty()
        }
    }
}

/// The kind of object a pod-spec reference points at.
pub open spec fn ref_target_kind_spec(k: PodRefKind) -> K8sResourceType {
    match k {
        PodRefKind::VolumeConfigMap => K8sResourceType::ConfigMap,
        PodRefKind::VolumeSecret => K8sResourceType::Secret,
        PodRefKind::VolumeClaim => K8sResourceType::PersistentVolumeClaim,
        PodRefKind::EnvConfigMap => K8sResourceType::ConfigMap,
        PodRefKind::EnvSecret => K8sResourceType::Secret,
    }
}

/// The lookups planned for a pod's configuration and storage references:
/// one `GetPodRef` per reference, in scan order.
pub open spec fn pod_ref_calls(refs: Seq<PodRef>, ns: Option<Seq<char>>) -> Seq<CallD>
    decreases refs.len(),
{
    if refs.len() == 0 {
        Seq::empty()
    } else {
        pod_ref_calls(refs.drop_last(), ns) + seq![
            CallD::GetPodRef {
                kind: ref_target_kind_spec(refs.last().kind),
                name: refs.last().name@,
                namespace: ns,
            },
        ]
    }
}

/// The server-side pod listing planned for a Service root: one call when
/// the selector is present and non-empty, none otherwise.
pub open spec fn service_calls(
    kind: K8sResourceType,
    root: ResourceObject,
    ns: Option<Seq<char>>,
) -> Seq<CallD> {
    if kind is Service {
        match root.selector {
            Some(sel) => if sel.deep_view().len() > 0 {
                seq![CallD::ListSelectedPods { namespace: ns, selector: sel.deep_view() }]
            } else {
                Seq::empty()
            },
            None => Seq::empty(),
        }
    } else {
        Seq::empty()
    }
}

/// The Service listing planned for a Pod root: one call when the pod has
/// a label map at all, none otherwise.
pub open spec fn reverse_service_calls(
    kind: K8sResourceType,
    root: ResourceObject,
    ns: Option<Seq<char>>,
) -> Seq<CallD> {
    if kind is Pod && root.labels is Some {
        seq![CallD::ListServices { namespace: ns }]
    } else {
        Seq::empty()
    }
}

/// The storage lookups planned for a claim root: its StorageClass and its
/// bound volume, each when named; both cluster-scoped.
pub open spec fn claim_calls(kind: K8sResourceType, root: ResourceObject) -> Seq<CallD> {
    if kind is PersistentVolumeClaim {
        (match root.storage_class_name {
            Some(n) => seq![CallD::GetStorageClass { name: n@ }],
            None => Seq::empty(),
        }) + (match root.volume_name {
            Some(n) => seq![CallD::GetPersistentVolume { name: n@ }],
            None => Seq::empty(),
        })
    } else {
        Seq::empty()
    }
}

/// The claim lookup planned for a PersistentVolume root: one call when
/// `claimRef` names both a namespace and a name, none otherwise.
pub open spec fn volume_calls(kind: K8sResourceType, root: ResourceObject) -> Seq<CallD> {
    if kind is PersistentVolume {
        match (root.claim_ref_namespace, root.claim_ref_name) {
            (Some(ns2), Some(n)) => seq![CallD::GetClaim { name: n@, namespace: ns2@ }],
            _ => Seq::empty(),
        }
    } else {
        Seq::empty()
    }
}

/// The reverse pod listing planned for a ConfigMap, Secret or claim root:
/// one call when the root has a namespace, none otherwise — pods are
/// namespaced, so the lookup is skipped without one.
pub open spec fn reverse_pod_calls(
    kind: K8sResourceType,
    ns: Option<Seq<char>>,
) -> Seq<CallD> {
    if (kind is ConfigMap || kind is Secret || kind is PersistentVolumeClaim) && ns is Some {
        seq![CallD::ListPodsUsingRoot { namespace: ns->0 }]
    } else {
        Seq::empty()
    }
}

/// The cluster-wide claim listing planned for a StorageClass root.
pub open spec fn class_claim_calls(kind: K8sResourceType) -> Seq<CallD> {
    if kind is StorageClass {
        seq![CallD::ListClaimsOfClass]
    } else {
        Seq::empty()
    }
}

/// The ReplicaSet listing planned for a Deployment root, when it has a
/// namespace.
pub open spec fn deployment_calls(kind: K8sResourceType, ns: Option<Seq<char>>) -> Seq<CallD> {
    if kind is Deployment && ns is Some {
        seq![CallD::ListReplicaSets { namespace: ns->0 }]
    } else {
        Seq::empty()
    }
}

/// The pod listing planned for a ReplicaSet root, when it has a
/// namespace.
pub open spec fn replica_set_calls(kind: K8sResourceType, ns: Option<Seq<char>>) -> Seq<CallD> {
    if kind is ReplicaSet && ns is Some {
        seq![CallD::ListOwnedPods { namespace: ns->0 }]
    } else {
        Seq::empty()
    }
}

/// The full plan for a root: owner lookups first, then each kind-specific
/// rule in a fixed order.
pub open spec fn plan_d(
    kind: K8sResourceType,
    root: ResourceObject,
    ns: Option<Seq<char>>,
) -> Seq<CallD> {
    owner_calls(root.owner_references@, ns) + service_calls(kind, root, ns)
        + reverse_service_calls(kind, root, ns) + (if kind is Pod {
        pod_ref_calls(root.pod_refs@, ns)
    } else {
        Seq::empty()
    }) + claim_calls(kind, root) + volume_calls(kind, root) + reverse_pod_calls(kind, ns)
        + class_claim_calls(kind) + deployment_calls(kind, ns) + replica_set_calls(kind, ns)
}

/// The kind of object a pod-spec reference points at.
pub fn ref_target_kind(k: PodRefKind) -> (r: K8sResourceType)
    ensures
        r == ref_target_kind_spec(k),
{
    match k {
        PodRefKind::VolumeConfigMap => K8sResourceType::ConfigMap,
        PodRefKind::VolumeSecret => K8sResourceType::Secret,
        PodRefKind::VolumeClaim => K8sResourceType::PersistentVolumeClaim,
        PodRefKind::EnvConfigMap => K8sResourceType::ConfigMap,
        PodRefKind::EnvSecret => K8sResourceType::Secret,
    }
}

/// Plans the follow-up calls for a root object of the given kind: exactly
/// the calls of `plan_d`, in order.
pub fn plan_requests(
    kind: K8sResourceType,
    root: &ResourceObject,
    namespace: &Option<String>,
) -> (calls: Vec<PlannedCall>)
    ensures
        calls.deep_view() == plan_d(kind, *root, namespace.deep_view()),
{
    let ghost nsv = namespace.deep_view();
    let mut calls: Vec<PlannedCall> = Vec::new();

    // Upstream: one lookup per usable owner reference.
    let mut i: usize = 0;
    while i < root.owner_references.len()
        invariant
            i <= root.owner_references.len(),
            calls.deep_view() == owner_calls(root.owner_references@.take(i as int), nsv),
            nsv == namespace.deep_view(),
        decreases root.owner_references.len() - i,
    {
        let r = &root.owner_references[i];
        proof {
            assert(root.owner_references@.take(i + 1 as int).drop_last()
                =~= root.owner_references@.take(i as int));
            assert(root.owner_references@.take(i + 1 as int).last()
                == root.owner_references@[i as int]);
        }
        match K8sResourceType::from_kind(r.kind.as_str()) {
            Some(k) => {
                if !r.name.as_str().is_empty() && !r.uid.as_str().is_empty() {
                    let c = PlannedCall::GetOwner {
                        kind: k,
                        name: r.name.clone(),
                        ref_uid: r.uid.clone(),
                        namespace: clone_opt_string(namespace),
                    };
                    calls.push(c);
                    assert(calls.deep_view() =~= owner_calls(
                        root.owner_references@.take(i + 1 as int),
                        nsv,
                    ));
                } else {
                    assert(calls.deep_view() =~= owner_calls(
                        root.owner_references@.take(i + 1 as int),
                        nsv,
                    ));
                }
            },
            None => {
                assert(calls.deep_view() =~= owner_calls(
                    root.owner_references@.take(i + 1 as int),
                    nsv,
                ));
            },
        }
        i = i + 1;
    }
    assert(root.owner_references@.take(root.owner_references@.len() as int)
        =~= root.owner_references@);
    let ghost seg_owners = owner_calls(root.owner_references@, nsv);
    assert(calls.deep_view() == seg_owners);

    // Service root: list the selected pods when the selector is non-empty.
    match (kind, &root.selector) {
        (K8sResourceType::Service, Some(sel)) => {
            if sel.len() > 0 {
                calls.push(PlannedCall::ListSelectedPods {
                    namespace: clone_opt_string(namespace),
                    selector: clone_pairs(sel),
                });
            }
        },
        _ => {},
    }
    let ghost seg_service = seg_owners + service_calls(kind, *root, nsv);
    assert(calls.deep_view() =~= seg_service);

    // Pod root: list the namespace's Services when the pod has labels.
    match (kind, &root.labels) {
        (K8sResourceType::Pod, Some(_)) => {
            calls.push(PlannedCall::ListServices { namespace: clone_opt_string(namespace) });
        },
        _ => {},
    }
    let ghost seg_rev_service = seg_service + reverse_service_calls(kind, *root, nsv);
    assert(calls.deep_view() =~= seg_rev_service);

    // Pod root: one lookup per configuration or storage reference.
    if matches!(kind, K8sResourceType::Pod) {
        let ghost base = calls.deep_view();
        let mut j: usize = 0;
        while j < root.pod_refs.len()
            invariant
                j <= root.pod_refs.len(),
                calls.deep_view() == base + pod_ref_calls(root.pod_refs@.take(j as int), nsv),
                nsv == namespace.deep_view(),
            decreases root.pod_refs.len() - j,
        {
            let pr = &root.pod_refs[j];
            proof {
                assert(root.pod_refs@.take(j + 1 as int).drop_last()
                    =~= root.pod_refs@.take(j as int));
                assert(root.pod_refs@.take(j + 1 as int).last() == root.pod_refs@[j as int]);
            }
            let c = PlannedCall::GetPodRef {
                kind: ref_target_kind(pr.kind),
                name: pr.name.clone(),
                namespace: clone_opt_string(namespace),
            };
            let ghost pre = calls.deep_view();
            calls.push(c);
            proof {
                assert(calls.deep_view() =~= pre.push(c@));
                assert(c@ == CallD::GetPodRef {
                    kind: ref_target_kind_spec(root.pod_refs@[j as int].kind),
                    name: root.pod_refs@[j as int].name@,
                    namespace: nsv,
                });
                assert(calls.deep_view() =~= base + pod_ref_calls(
                    root.pod_refs@.take(j + 1 as int),
                    nsv,
                ));
            }
            j = j + 1;
        }
        assert(root.pod_refs@.take(root.pod_refs@.len() as int) =~= root.pod_refs@);
    }
    let ghost seg_pod_refs = seg_rev_service + if kind is Pod {
        pod_ref_calls(root.pod_refs@, nsv)
    } else {
        Seq::empty()
    };
    assert(calls.deep_view() =~= seg_pod_refs);

    // Claim root: its StorageClass and bound volume, cluster-scoped.
    if matches!(kind, K8sResourceType::PersistentVolumeClaim) {
        match &root.storage_class_name {
            Some(n) => {
                calls.push(PlannedCall::GetStorageClass { name: n.clone() });
            },
            None => {},
        }
        match &root.volume_name {
            Some(n) => {
                calls.push(PlannedCall::GetPersistentVolume { name: n.clone() });
            },
            None => {},
        }
    }
    let ghost seg_claim = seg_pod_refs + claim_calls(kind, *root);
    assert(calls.deep_view() =~= seg_claim);

    // Volume root: the claim its claimRef names, when complete.
    if matches!(kind, K8sResourceType::PersistentVolume) {
        match (&root.claim_ref_namespace, &root.claim_ref_name) {
            (Some(ns2), Some(n)) => {
                calls.push(PlannedCall::GetClaim { name: n.clone(), namespace: ns2.clone() });
            },
            _ => {},
        }
    }
    let ghost seg_volume = seg_claim + volume_calls(kind, *root);
    assert(calls.deep_view() =~= seg_volume);

    // Reverse lookup: pods using the root, only inside a namespace.
    if matches!(
        kind,
        K8sResourceType::ConfigMap | K8sResourceType::Secret
            | K8sResourceType::PersistentVolumeClaim
    ) {
        match namespace {
            Some(ns2) => {
                calls.push(PlannedCall::ListPodsUsingRoot { namespace: ns2.clone() });
            },
            None => {},
        }
    }
    let ghost seg_rev_pods = seg_volume + reverse_pod_calls(kind, nsv);
    assert(calls.deep_view() =~= seg_rev_pods);

    // StorageClass root: claims cluster-wide.
    if matches!(kind, K8sResourceType::StorageClass) {
        calls.push(PlannedCall::ListClaimsOfClass);
    }
    let ghost seg_class = seg_rev_pods + class_claim_calls(kind);
    assert(calls.deep_view() =~= seg_class);

    // Deployment root: the namespace's ReplicaSets.
    if matches!(kind, K8sResourceType::Deployment) {
        match namespace {
            Some(ns2) => {
                calls.push(PlannedCall::ListReplicaSets { namespace: ns2.clone() });
            },
            None => {},
        }
    }
    let ghost seg_deploy = seg_class + deployment_calls(kind, nsv);
    assert(calls.deep_view() =~= seg_deploy);

    // ReplicaSet root: the namespace's pods.
    if matches!(kind, K8sResourceType::ReplicaSet) {
        match namespace {
            Some(ns2) => {
                calls.push(PlannedCall::ListOwnedPods { namespace: ns2.clone() });
            },
            None => {},
        }
    }
    assert(calls.deep_view() =~= seg_deploy + replica_set_calls(kind, nsv));
    assert(calls.deep_view() =~= plan_d(kind, *root, nsv));

    calls
}

/// Every owner lookup in a plan stems from a usable owner reference; a
/// reference whose kind is outside the registry plans no call, so no
/// upstream edge can arise from it.
pub proof fn lemma_owner_calls_only_usable(refs: Seq<OwnerRef>, ns: Option<Seq<char>>)
    ensures
        forall|i: int|
            0 <= i < owner_calls(refs, ns).len() ==> exists|j: int|
                0 <= j < refs.len() && owner_ref_usable(#[trigger] refs[j])
                    && (#[trigger] owner_calls(refs, ns)[i]) == owner_call(refs[j], ns),
    decreases refs.len(),
{
    if refs.len() > 0 {
        lemma_owner_calls_only_usable(refs.drop_last(), ns);
        assert forall|i: int| 0 <= i < owner_calls(refs, ns).len() implies exists|j: int|
            0 <= j < refs.len() && owner_ref_usable(#[trigger] refs[j])
                && (#[trigger] owner_calls(refs, ns)[i]) == owner_call(refs[j], ns) by {
            let pre = owner_calls(refs.drop_last(), ns);
            if i < pre.len() {
                let j = choose|j: int|
                    0 <= j < refs.drop_last().len() && owner_ref_usable(
                        #[trigger] refs.drop_last()[j],
                    ) && pre[i] == owner_call(refs.drop_last()[j], ns);
                assert(refs.drop_last()[j] == refs[j]);
            } else {
                assert(owner_ref_usable(refs.last()));
                assert(refs.last() == refs[refs.len() - 1]);
            }
        }
    }
}

/// Every call planned for a pod's configuration and storage references
/// is a single-object lookup.
pub proof fn lemma_pod_ref_calls_only_get_ref(refs: Seq<PodRef>, ns: Option<Seq<char>>)
    ensures
        forall|i: int|
            0 <= i < pod_ref_calls(refs, ns).len() ==> (#[trigger] pod_ref_calls(refs, ns)[i])
                is GetPodRef,
    decreases refs.len(),
{
    if refs.len() > 0 {
        lemma_pod_ref_calls_only_get_ref(refs.drop_last(), ns);
    }
}

/// If no owner reference of the root carries a registered kind, the plan
/// holds no owner lookup at all.
pub proof fn lemma_unregistered_owner_no_call(
    kind: K8sResourceType,
    root: ResourceObject,
    ns: Option<Seq<char>>,
)
    requires
        forall|j: int|
            0 <= j < root.owner_references@.len() ==> from_kind_spec(
                (#[trigger] root.owner_references@[j]).kind@,
            ) is None,
    ensures
        forall|i: int|
            0 <= i < plan_d(kind, root, ns).len() ==> !((#[trigger] plan_d(kind, root, ns)[i])
                is GetOwner),
{
    lemma_owner_calls_only_usable(root.owner_references@, ns);
    lemma_pod_ref_calls_only_get_ref(root.pod_refs@, ns);
    let refs = root.owner_references@;
    assert(owner_calls(refs, ns).len() == 0) by {
        if owner_calls(refs, ns).len() > 0 {
            let c0 = owner_calls(refs, ns)[0];
            let j = choose|j: int|
                0 <= j < refs.len() && owner_ref_usable(#[trigger] refs[j]) && owner_calls(
                    refs,
                    ns,
                )[0] == owner_call(refs[j], ns);
            assert(from_kind_spec(refs[j].kind@) is Some);
            assert(false);
        }
    }
    assert forall|i: int| 0 <= i < plan_d(kind, root, ns).len() implies !((#[trigger] plan_d(
        kind,
        root,
        ns,
    )[i]) is GetOwner) by {
        let c = plan_d(kind, root, ns)[i];
    }
}

/// A Service root whose selector is absent or empty plans no pod listing:
/// every call of its plan is an owner lookup, so in particular no list
/// call is made.
pub proof fn lemma_empty_selector_no_list(
    root: ResourceObject,
    ns: Option<Seq<char>>,
)
    requires
        root.selector is None || root.selector->0.deep_view().len() == 0,
    ensures
        forall|i: int|
            0 <= i < plan_d(K8sResourceType::Service, root, ns).len() ==> (#[trigger] plan_d(
                K8sResourceType::Service,
                root,
                ns,
            )[i]) is GetOwner,
{
    let k = K8sResourceType::Service;
    assert(service_calls(k, root, ns) =~= Seq::<CallD>::empty());
    lemma_owner_calls_only_usable(root.owner_references@, ns);
    assert forall|i: int| 0 <= i < plan_d(k, root, ns).len() implies (#[trigger] plan_d(
        k,
        root,
        ns,
    )[i]) is GetOwner by {
        assert(plan_d(k, root, ns) =~= owner_calls(root.owner_references@, ns));
        assert(plan_d(k, root, ns)[i] == owner_calls(root.owner_references@, ns)[i]);
    }
}

/// A ConfigMap, Secret or claim root without a namespace plans no reverse
/// pod listing.
pub proof fn lemma_no_namespace_no_reverse_lookup(
    kind: K8sResourceType,
    root: ResourceObject,
    ns: Option<Seq<char>>,
)
    requires
        ns is None,
    ensures
        forall|i: int|
            0 <= i < plan_d(kind, root, ns).len() ==> !((#[trigger] plan_d(kind, root, ns)[i])
                is ListPodsUsingRoot),
{
    assert(reverse_pod_calls(kind, ns) =~= Seq::<CallD>::empty());
    lemma_owner_calls_only_usable(root.owner_references@, ns);
    lemma_pod_ref_calls_only_get_ref(root.pod_refs@, ns);
    assert forall|i: int| 0 <= i < plan_d(kind, root, ns).len() implies !((#[trigger] plan_d(
        kind,
        root,
        ns,
    )[i]) is ListPodsUsingRoot) by {
        let c = plan_d(kind, root, ns)[i];
    }
}

/// The API operation a planned call performs: a get of one object or a
/// listing, possibly namespaced, possibly with a server-side label
/// selector.
pub enum ApiRequest {
    Get { kind: K8sResourceType, name: String, namespace: Option<String> },
    List { kind: K8sResourceType, namespace: Option<String>, label_selector: Option<String> },
}

/// The mathematical image of an API operation.
pub ghost enum ReqD {
    Get { kind: K8sResourceType, name: Seq<char>, namespace: Option<Seq<char>> },
    List {
        kind: K8sResourceType,
        namespace: Option<Seq<char>>,
        label_selector: Option<Seq<char>>,
    },
}

impl View for ApiRequest {
    type V = ReqD;

    open spec fn view(&self) -> ReqD {
        match self {
            ApiRequest::Get { kind, name, namespace } => ReqD::Get {
                kind: *kind,
                name: name@,
                namespace: namespace.deep_view(),
            },
            ApiRequest::List { kind, namespace, label_selector } => ReqD::List {
                kind: *kind,
                namespace: namespace.deep_view(),
                label_selector: label_selector.deep_view(),
            },
        }
    }
}

/// The API operation each call performs. Owner and pod-reference lookups
/// inherit the root namespace; StorageClass and PersistentVolume gets are
/// cluster-scoped; a Service's pod listing carries the rendered selector.
pub open spec fn request_d(c: CallD) -> ReqD {
    match c {
        CallD::GetOwner { kind, name, namespace, .. } => ReqD::Get { kind, name, namespace },
        CallD::ListSelectedPods { namespace, selector } => ReqD::List {
            kind: K8sResourceType::Pod,
            namespace,
            label_selector: Some(render_selector_spec(selector)),
        },
        CallD::ListServices { namespace } => ReqD::List {
            kind: K8sResourceType::Service,
            namespace,
            label_selector: None,
        },
        CallD::GetPodRef { kind, name, namespace } => ReqD::Get { kind, name, namespace },
        CallD::GetStorageClass { name } => ReqD::Get {
            kind: K8sResourceType::StorageClass,
            name,
            namespace: None,
        },
        CallD::GetPersistentVolume { name } => ReqD::Get {
            kind: K8sResourceType::PersistentVolume,
            name,
            namespace: None,
        },
        CallD::GetClaim { name, namespace } => ReqD::Get {
            kind: K8sResourceType::PersistentVolumeClaim,
            name,
            namespace: Some(namespace),
        },
        CallD::ListPodsUsingRoot { namespace } => ReqD::List {
            kind: K8sResourceType::Pod,
            namespace: Some(namespace),
            label_selector: None,
        },
        CallD::ListClaimsOfClass => ReqD::List {
            kind: K8sResourceType::PersistentVolumeClaim,
            namespace: None,
            label_selector: None,
        },
        CallD::ListReplicaSets { namespace } => ReqD::List {
            kind: K8sResourceType::ReplicaSet,
            namespace: Some(namespace),
            label_selector: None,
        },
        CallD::ListOwnedPods { namespace } => ReqD::List {
            kind: K8sResourceType::Pod,
            namespace: Some(namespace),
            label_selector: None,
        },
    }
}

impl PlannedCall {
    /// The API operation to perform for this call.
    pub fn request(&self) -> (r: ApiRequest)
        ensures
            r@ == request_d(self@),
    {
        match self {
            PlannedCall::GetOwner { kind, name, namespace, .. } => ApiRequest::Get {
                kind: *kind,
                name: name.clone(),
                namespace: clone_opt_string(namespace),
            },
            PlannedCall::ListSelectedPods { namespace, selector } => ApiRequest::List {
                kind: K8sResourceType::Pod,
                namespace: clone_opt_string(namespace),
                label_selector: Some(render_selector(selector)),
            },
            PlannedCall::ListServices { namespace } => ApiRequest::List {
                kind: K8sResourceType::Service,
                namespace: clone_opt_string(namespace),
                label_selector: None,
            },
            PlannedCall::GetPodRef { kind, name, namespace } => ApiRequest::Get {
                kind: *kind,
                name: name.clone(),
                namespace: clone_opt_string(namespace),
            },
            PlannedCall::GetStorageClass { name } => ApiRequest::Get {
                kind: K8sResourceType::StorageClass,
                name: name.clone(),
                namespace: None,
            },
            PlannedCall::GetPersistentVolume { name } => ApiRequest::Get {
                kind: K8sResourceType::PersistentVolume,
                name: name.clone(),
                namespace: None,
            },
            PlannedCall::GetClaim { name, namespace } => ApiRequest::Get {
                kind: K8sResourceType::PersistentVolumeClaim,
                name: name.clone(),
                namespace: Some(namespace.clone()),
            },
            PlannedCall::ListPodsUsingRoot { namespace } => ApiRequest::List {
                kind: K8sResourceType::Pod,
                namespace: Some(namespace.clone()),
                label_selector: None,
            },
            PlannedCall::ListClaimsOfClass => ApiRequest::List {
                kind: K8sResourceType::PersistentVolumeClaim,
                namespace: None,
                label_selector: None,
            },
            PlannedCall::ListReplicaSets { namespace } => ApiRequest::List {
                kind: K8sResourceType::ReplicaSet,
                namespace: Some(namespace.clone()),
                label_selector: None,
            },
            PlannedCall::ListOwnedPods { namespace } => ApiRequest::List {
                kind: K8sResourceType::Pod,
                namespace: Some(namespace.clone()),
                label_selector: None,
            },
        }
    }
}

} // verus!\n