//! The plain-value model of a Kubernetes object: exactly the named paths
//! the resolver reads, with the full document carried through opaquely.

use vstd::prelude::*;

verus! {

/// Declares `serde_json::Value` so that it can be carried through the
/// library. The resolver never looks inside it; it only moves the full
/// document into the node that reports it.
#[verifier::external_type_specification]
#[verifier::external_body]
pub struct ExValue(serde_json::Value);

/// One entry of `metadata.ownerReferences`: a pointer from a child object
/// to its controller.
pub struct OwnerRef {
    pub kind: String,
    pub name: String,
    pub uid: String,
}

/// Where in a pod spec a configuration or storage reference was found.
/// Volume references and environment references are told apart because
/// reverse lookups match claims through volumes only.
#[derive(Debug, Clone, Copy, PartialEq, Eq, Structural)]
pub enum PodRefKind {
    VolumeConfigMap,
    VolumeSecret,
    VolumeClaim,
    EnvConfigMap,
    EnvSecret,
}

/// One reference from a pod spec to a named object, in document order.
pub struct PodRef {
    pub kind: PodRefKind,
    pub name: String,
}

/// A Kubernetes object reduced to the plain values the resolver reads.
/// Absent fields stay `None`; unknown fields pass through inside `data`.
pub struct ResourceObject {
    /// `metadata.uid`; `None` when the document carries none.
    pub uid: Option<String>,
    /// `metadata.name`, or the requested name when the document carries none.
    pub name: String,
    /// `metadata.labels`, when present.
    pub labels: Option<Vec<(String, String)>>,
    /// `metadata.ownerReferences`, in document order.
    pub owner_references: Vec<OwnerRef>,
    /// `spec.selector` of a Service, when present.
    pub selector: Option<Vec<(String, String)>>,
    /// ConfigMap, Secret and claim references of a pod spec, in scan order:
    /// volumes first, then the env of containers and init containers.
    pub pod_refs: Vec<PodRef>,
    /// `spec.storageClassName` of a claim, when present.
    pub storage_class_name: Option<String>,
    /// `spec.volumeName` of a claim, when present.
    pub volume_name: Option<String>,
    /// `spec.claimRef.namespace` of a persistent volume, when present.
    pub claim_ref_namespace: Option<String>,
    /// `spec.claimRef.name` of a persistent volume, when present.
    pub claim_ref_name: Option<String>,
    /// The full document, untouched.
    pub data: serde_json::Value,
}

/// Clones an optional string, preserving the value exactly.
pub fn clone_opt_string(o: &Option<String>) -> (r: Option<String>)
    ensures
        r == *o,
{
    match o {
        Some(s) => Some(s.clone()),
        None => None,
    }
}

/// Clones a list of key/value pairs, preserving each pair exactly.
pub fn clone_pairs(v: &Vec<(String, String)>) -> (r: Vec<(String, String)>)
    ensures
        r@ == v@,
{
    let mut r: Vec<(String, String)> = Vec::new();
    let mut i: usize = 0;
    while i < v.len()
        invariant
            i <= v.len(),
            r@ == v@.take(i as int),
        decreases v.len() - i,
    {
        let (k, val) = (&v[i].0, &v[i].1);
        r.push((k.clone(), val.clone()));
        assert(v@.take(i + 1 as int).drop_last() == v@.take(i as int));
        assert(r@ == v@.take(i + 1 as int));
        i = i + 1;
    }
    assert(v@.take(v@.len() as int) == v@);
    r
}

} // verus!
