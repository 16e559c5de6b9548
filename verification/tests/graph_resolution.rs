use kubegraph::kinds::K8sResourceType;
use kubegraph::object::OwnerRef;
use kubegraph::object::PodRef;
use kubegraph::object::PodRefKind;
use kubegraph::object::ResourceObject;
use kubegraph::plan::ApiRequest;
use kubegraph::plan::PlannedCall;
use kubegraph::plan::plan_requests;
use kubegraph::resolve::CallOutcome;
use kubegraph::resolve::ResolveError;
use kubegraph::resolve::resolve_graph;

fn obj(uid: &str, name: &str) -> ResourceObject {
    ResourceObject {
        uid: Some(uid.to_string()),
        name: name.to_string(),
        labels: None,
        owner_references: Vec::new(),
        selector: None,
        pod_refs: Vec::new(),
        storage_class_name: None,
        volume_name: None,
        claim_ref_namespace: None,
        claim_ref_name: None,
        data: serde_json::Value::Null,
    }
}

fn ns_default() -> Option<String> {
    Some("default".to_string())
}

#[test]
fn test_get_resource_graph_pod_owner() {
    let mut root = obj("pod-uid", "my-pod");
    root.owner_references.push(OwnerRef {
        kind: "ReplicaSet".to_string(),
        name: "my-rs".to_string(),
        uid: "rs-uid".to_string(),
    });
    let ns = ns_default();
    let calls = plan_requests(K8sResourceType::Pod, &root, &ns);
    assert_eq!(calls.len(), 1);
    match &calls[0] {
        PlannedCall::GetOwner { kind, name, ref_uid, namespace } => {
            assert_eq!(*kind, K8sResourceType::ReplicaSet);
            assert_eq!(name, "my-rs");
            assert_eq!(ref_uid, "rs-uid");
            assert_eq!(namespace.as_deref(), Some("default"));
        }
        _ => panic!("expected an owner lookup"),
    }
    let rs = obj("rs-uid", "my-rs");
    let graph =
        resolve_graph(K8sResourceType::Pod, root, ns, vec![CallOutcome::GotOne(rs)]).unwrap();
    assert_eq!(graph.nodes.len(), 2);
    assert_eq!(graph.edges.len(), 1);
    let edge = &graph.edges[0];
    assert_eq!(edge.source, "rs-uid");
    assert_eq!(edge.target, "pod-uid");
    assert_eq!(edge.label, "owner");
    assert_eq!(graph.nodes[0].id, "pod-uid");
    assert_eq!(graph.nodes[1].label, "my-rs");
    assert_eq!(graph.nodes[1].resource_type, "ReplicaSet");
}

#[test]
fn test_get_resource_graph_pod_reverse_networking() {
    let mut root = obj("pod-uid", "target-pod");
    root.labels = Some(vec![("app".to_string(), "myapp".to_string())]);
    let ns = ns_default();
    let calls = plan_requests(K8sResourceType::Pod, &root, &ns);
    assert_eq!(calls.len(), 1);
    match calls[0].request() {
        ApiRequest::List { kind, namespace, label_selector } => {
            assert_eq!(kind, K8sResourceType::Service);
            assert_eq!(namespace.as_deref(), Some("default"));
            assert!(label_selector.is_none());
        }
        _ => panic!("expected a Service listing"),
    }
    let mut svc = obj("svc-uid", "my-service");
    svc.selector = Some(vec![("app".to_string(), "myapp".to_string())]);
    let graph = resolve_graph(
        K8sResourceType::Pod,
        root,
        ns,
        vec![CallOutcome::GotList(vec![svc])],
    )
    .unwrap();
    assert_eq!(graph.nodes.len(), 2);
    assert_eq!(graph.edges.len(), 1);
    let edge = &graph.edges[0];
    assert_eq!(edge.source, "svc-uid");
    assert_eq!(edge.target, "pod-uid");
    assert_eq!(edge.label, "selects");
}

#[test]
fn service_selects_two_pods() {
    let mut root = obj("svc-uid", "web-svc");
    root.selector = Some(vec![("app".to_string(), "web".to_string())]);
    let ns = ns_default();
    let calls = plan_requests(K8sResourceType::Service, &root, &ns);
    assert_eq!(calls.len(), 1);
    match calls[0].request() {
        ApiRequest::List { kind, namespace, label_selector } => {
            assert_eq!(kind, K8sResourceType::Pod);
            assert_eq!(namespace.as_deref(), Some("default"));
            assert_eq!(label_selector.as_deref(), Some("app=web"));
        }
        _ => panic!("expected a pod listing"),
    }
    let pods = vec![obj("pod-1", "web-1"), obj("pod-2", "web-2")];
    let graph = resolve_graph(
        K8sResourceType::Service,
        root,
        ns,
        vec![CallOutcome::GotList(pods)],
    )
    .unwrap();
    assert_eq!(graph.nodes.len(), 3);
    assert_eq!(graph.edges.len(), 2);
    for edge in &graph.edges {
        assert_eq!(edge.source, "svc-uid");
        assert_eq!(edge.label, "selects");
    }
    assert_eq!(graph.edges[0].target, "pod-1");
    assert_eq!(graph.edges[1].target, "pod-2");
}

#[test]
fn claim_binds_class_and_volume() {
    let mut root = obj("pvc-uid", "my-claim");
    root.storage_class_name = Some("fast".to_string());
    root.volume_name = Some("pv-7".to_string());
    let ns = ns_default();
    let calls = plan_requests(K8sResourceType::PersistentVolumeClaim, &root, &ns);
    assert_eq!(calls.len(), 3);
    assert!(matches!(&calls[2], PlannedCall::ListPodsUsingRoot { namespace } if namespace == "default"));
    match calls[0].request() {
        ApiRequest::Get { kind, name, namespace } => {
            assert_eq!(kind, K8sResourceType::StorageClass);
            assert_eq!(name, "fast");
            assert!(namespace.is_none());
        }
        _ => panic!("expected a StorageClass get"),
    }
    match calls[1].request() {
        ApiRequest::Get { kind, name, namespace } => {
            assert_eq!(kind, K8sResourceType::PersistentVolume);
            assert_eq!(name, "pv-7");
            assert!(namespace.is_none());
        }
        _ => panic!("expected a PersistentVolume get"),
    }
    let outcomes = vec![
        CallOutcome::GotOne(obj("sc-uid", "fast")),
        CallOutcome::GotOne(obj("pv-uid", "pv-7")),
        CallOutcome::Failed,
    ];
    let graph =
        resolve_graph(K8sResourceType::PersistentVolumeClaim, root, ns, outcomes).unwrap();
    assert_eq!(graph.nodes.len(), 3);
    assert_eq!(graph.edges.len(), 2);
    assert_eq!(graph.edges[0].source, "pvc-uid");
    assert_eq!(graph.edges[0].target, "sc-uid");
    assert_eq!(graph.edges[0].label, "uses");
    assert_eq!(graph.edges[0].id, "pvc-uid-sc-uid");
    assert_eq!(graph.edges[1].source, "pvc-uid");
    assert_eq!(graph.edges[1].target, "pv-uid");
    assert_eq!(graph.edges[1].label, "bound");
}

#[test]
fn deployment_manages_owned_replica_sets() {
    let root = obj("dep-uid", "my-dep");
    let ns = ns_default();
    let calls = plan_requests(K8sResourceType::Deployment, &root, &ns);
    assert_eq!(calls.len(), 1);
    assert!(matches!(&calls[0], PlannedCall::ListReplicaSets { namespace } if namespace == "default"));
    let mut rs1 = obj("rs-1", "dep-rs-1");
    rs1.owner_references.push(OwnerRef {
        kind: "Deployment".to_string(),
        name: "my-dep".to_string(),
        uid: "dep-uid".to_string(),
    });
    let mut rs2 = obj("rs-2", "other-rs");
    rs2.owner_references.push(OwnerRef {
        kind: "Deployment".to_string(),
        name: "other-dep".to_string(),
        uid: "other-uid".to_string(),
    });
    let mut rs3 = obj("rs-3", "dep-rs-2");
    rs3.owner_references.push(OwnerRef {
        kind: "Deployment".to_string(),
        name: "my-dep".to_string(),
        uid: "dep-uid".to_string(),
    });
    let graph = resolve_graph(
        K8sResourceType::Deployment,
        root,
        ns,
        vec![CallOutcome::GotList(vec![rs1, rs2, rs3])],
    )
    .unwrap();
    assert_eq!(graph.nodes.len(), 3);
    assert_eq!(graph.edges.len(), 2);
    assert!(graph.nodes.iter().all(|n| n.id != "rs-2"));
    for edge in &graph.edges {
        assert_eq!(edge.source, "dep-uid");
        assert_eq!(edge.label, "manages");
    }
}

#[test]
fn replica_set_manages_owned_pods() {
    let root = obj("rs-uid", "my-rs");
    let ns = ns_default();
    let calls = plan_requests(K8sResourceType::ReplicaSet, &root, &ns);
    assert_eq!(calls.len(), 1);
    assert!(matches!(&calls[0], PlannedCall::ListOwnedPods { namespace } if namespace == "default"));
    let mut pod1 = obj("pod-1", "rs-pod-1");
    pod1.owner_references.push(OwnerRef {
        kind: "ReplicaSet".to_string(),
        name: "my-rs".to_string(),
        uid: "rs-uid".to_string(),
    });
    let pod2 = obj("pod-2", "loose-pod");
    let graph = resolve_graph(
        K8sResourceType::ReplicaSet,
        root,
        ns,
        vec![CallOutcome::GotList(vec![pod1, pod2])],
    )
    .unwrap();
    assert_eq!(graph.nodes.len(), 2);
    assert_eq!(graph.edges.len(), 1);
    assert_eq!(graph.edges[0].source, "rs-uid");
    assert_eq!(graph.edges[0].target, "pod-1");
    assert_eq!(graph.edges[0].label, "manages");
}

#[test]
fn failed_owner_lookup_leaves_root_alone() {
    let mut root = obj("pod-uid", "my-pod");
    root.owner_references.push(OwnerRef {
        kind: "ReplicaSet".to_string(),
        name: "gone-rs".to_string(),
        uid: "rs-uid".to_string(),
    });
    let ns = ns_default();
    let graph =
        resolve_graph(K8sResourceType::Pod, root, ns, vec![CallOutcome::Failed]).unwrap();
    assert_eq!(graph.nodes.len(), 1);
    assert_eq!(graph.edges.len(), 0);
    assert_eq!(graph.nodes[0].id, "pod-uid");
}

#[test]
fn unregistered_owner_kind_plans_nothing() {
    let mut root = obj("pod-uid", "my-pod");
    root.owner_references.push(OwnerRef {
        kind: "CustomResource".to_string(),
        name: "thing".to_string(),
        uid: "thing-uid".to_string(),
    });
    let ns = ns_default();
    let calls = plan_requests(K8sResourceType::Pod, &root, &ns);
    assert_eq!(calls.len(), 0);
    let graph = resolve_graph(K8sResourceType::Pod, root, ns, Vec::new()).unwrap();
    assert_eq!(graph.nodes.len(), 1);
    assert_eq!(graph.edges.len(), 0);
}

#[test]
fn empty_selector_makes_no_list_call() {
    let mut root = obj("svc-uid", "quiet-svc");
    root.selector = Some(Vec::new());
    let ns = ns_default();
    let calls = plan_requests(K8sResourceType::Service, &root, &ns);
    assert_eq!(calls.len(), 0);
    let root2 = obj("svc-uid", "bare-svc");
    let calls2 = plan_requests(K8sResourceType::Service, &root2, &ns);
    assert_eq!(calls2.len(), 0);
}

#[test]
fn reverse_lookup_skipped_without_namespace() {
    let root = obj("cm-uid", "my-cm");
    let calls = plan_requests(K8sResourceType::ConfigMap, &root, &None);
    assert_eq!(calls.len(), 0);
    let root2 = obj("cm-uid", "my-cm");
    let calls2 = plan_requests(K8sResourceType::ConfigMap, &root2, &ns_default());
    assert_eq!(calls2.len(), 1);
    assert!(matches!(&calls2[0], PlannedCall::ListPodsUsingRoot { namespace } if namespace == "default"));
}

#[test]
fn config_map_reverse_matches_volume_and_env() {
    let root = obj("cm-uid", "my-cm");
    let ns = ns_default();
    let mut pod1 = obj("pod-1", "vol-user");
    pod1.pod_refs.push(PodRef {
        kind: PodRefKind::VolumeConfigMap,
        name: "my-cm".to_string(),
    });
    let mut pod2 = obj("pod-2", "env-user");
    pod2.pod_refs.push(PodRef { kind: PodRefKind::EnvConfigMap, name: "my-cm".to_string() });
    let mut pod3 = obj("pod-3", "other-user");
    pod3.pod_refs.push(PodRef {
        kind: PodRefKind::VolumeConfigMap,
        name: "other-cm".to_string(),
    });
    let mut pod4 = obj("pod-4", "secret-user");
    pod4.pod_refs.push(PodRef { kind: PodRefKind::VolumeSecret, name: "my-cm".to_string() });
    let graph = resolve_graph(
        K8sResourceType::ConfigMap,
        root,
        ns,
        vec![CallOutcome::GotList(vec![pod1, pod2, pod3, pod4])],
    )
    .unwrap();
    assert_eq!(graph.nodes.len(), 3);
    assert_eq!(graph.edges.len(), 2);
    assert_eq!(graph.edges[0].source, "pod-1");
    assert_eq!(graph.edges[1].source, "pod-2");
    for edge in &graph.edges {
        assert_eq!(edge.target, "cm-uid");
        assert_eq!(edge.label, "uses");
    }
}

#[test]
fn claim_reverse_matches_volumes_only() {
    let root = obj("pvc-uid", "my-pvc");
    let ns = ns_default();
    let mut pod1 = obj("pod-1", "mounts-claim");
    pod1.pod_refs.push(PodRef { kind: PodRefKind::VolumeClaim, name: "my-pvc".to_string() });
    let mut pod2 = obj("pod-2", "env-name-clash");
    pod2.pod_refs.push(PodRef { kind: PodRefKind::EnvConfigMap, name: "my-pvc".to_string() });
    let graph = resolve_graph(
        K8sResourceType::PersistentVolumeClaim,
        root,
        ns,
        vec![CallOutcome::GotList(vec![pod1, pod2])],
    )
    .unwrap();
    assert_eq!(graph.nodes.len(), 2);
    assert_eq!(graph.edges.len(), 1);
    assert_eq!(graph.edges[0].source, "pod-1");
}

#[test]
fn pod_references_fetch_in_scan_order() {
    let mut root = obj("pod-uid", "busy-pod");
    root.pod_refs.push(PodRef { kind: PodRefKind::VolumeConfigMap, name: "cm-a".to_string() });
    root.pod_refs.push(PodRef { kind: PodRefKind::VolumeSecret, name: "sec-b".to_string() });
    root.pod_refs.push(PodRef { kind: PodRefKind::VolumeClaim, name: "claim-c".to_string() });
    root.pod_refs.push(PodRef { kind: PodRefKind::EnvSecret, name: "sec-d".to_string() });
    let ns = ns_default();
    let calls = plan_requests(K8sResourceType::Pod, &root, &ns);
    assert_eq!(calls.len(), 4);
    let expected = [
        (K8sResourceType::ConfigMap, "cm-a"),
        (K8sResourceType::Secret, "sec-b"),
        (K8sResourceType::PersistentVolumeClaim, "claim-c"),
        (K8sResourceType::Secret, "sec-d"),
    ];
    for (call, (want_kind, want_name)) in calls.iter().zip(expected.iter()) {
        match call {
            PlannedCall::GetPodRef { kind, name, namespace } => {
                assert_eq!(kind, want_kind);
                assert_eq!(name, want_name);
                assert_eq!(namespace.as_deref(), Some("default"));
            }
            _ => panic!("expected a reference lookup"),
        }
    }
    let outcomes = vec![
        CallOutcome::GotOne(obj("cm-a-uid", "cm-a")),
        CallOutcome::Failed,
        CallOutcome::GotOne(obj("claim-c-uid", "claim-c")),
        CallOutcome::Failed,
    ];
    let graph = resolve_graph(K8sResourceType::Pod, root, ns, outcomes).unwrap();
    assert_eq!(graph.nodes.len(), 3);
    assert_eq!(graph.edges.len(), 2);
    assert_eq!(graph.edges[0].target, "cm-a-uid");
    assert_eq!(graph.edges[0].label, "uses");
    assert_eq!(graph.edges[1].target, "claim-c-uid");
    assert_eq!(graph.nodes[1].resource_type, "ConfigMap");
    assert_eq!(graph.nodes[2].resource_type, "PersistentVolumeClaim");
}

#[test]
fn storage_class_lists_matching_claims() {
    let root = obj("sc-uid", "fast");
    let calls = plan_requests(K8sResourceType::StorageClass, &root, &None);
    assert_eq!(calls.len(), 1);
    match calls[0].request() {
        ApiRequest::List { kind, namespace, label_selector } => {
            assert_eq!(kind, K8sResourceType::PersistentVolumeClaim);
            assert!(namespace.is_none());
            assert!(label_selector.is_none());
        }
        _ => panic!("expected a claim listing"),
    }
    let mut pvc1 = obj("c1", "claim-fast");
    pvc1.storage_class_name = Some("fast".to_string());
    let mut pvc2 = obj("c2", "claim-slow");
    pvc2.storage_class_name = Some("slow".to_string());
    let pvc3 = obj("c3", "claim-none");
    let graph = resolve_graph(
        K8sResourceType::StorageClass,
        root,
        None,
        vec![CallOutcome::GotList(vec![pvc1, pvc2, pvc3])],
    )
    .unwrap();
    assert_eq!(graph.nodes.len(), 2);
    assert_eq!(graph.edges.len(), 1);
    assert_eq!(graph.edges[0].source, "c1");
    assert_eq!(graph.edges[0].target, "sc-uid");
    assert_eq!(graph.edges[0].label, "uses");
}

#[test]
fn volume_fetches_claim_only_when_reference_is_complete() {
    let mut root = obj("pv-uid", "pv-7");
    root.claim_ref_namespace = Some("apps".to_string());
    root.claim_ref_name = Some("my-claim".to_string());
    let calls = plan_requests(K8sResourceType::PersistentVolume, &root, &None);
    assert_eq!(calls.len(), 1);
    match calls[0].request() {
        ApiRequest::Get { kind, name, namespace } => {
            assert_eq!(kind, K8sResourceType::PersistentVolumeClaim);
            assert_eq!(name, "my-claim");
            assert_eq!(namespace.as_deref(), Some("apps"));
        }
        _ => panic!("expected a claim get"),
    }
    let graph = resolve_graph(
        K8sResourceType::PersistentVolume,
        root,
        None,
        vec![CallOutcome::GotOne(obj("pvc-uid", "my-claim"))],
    )
    .unwrap();
    assert_eq!(graph.edges.len(), 1);
    assert_eq!(graph.edges[0].label, "bound");
    let mut partial = obj("pv-uid", "pv-8");
    partial.claim_ref_name = Some("my-claim".to_string());
    let calls2 = plan_requests(K8sResourceType::PersistentVolume, &partial, &None);
    assert_eq!(calls2.len(), 0);
}

#[test]
fn duplicate_owner_references_yield_one_node() {
    let mut root = obj("pod-uid", "my-pod");
    root.owner_references.push(OwnerRef {
        kind: "ReplicaSet".to_string(),
        name: "my-rs".to_string(),
        uid: "rs-uid".to_string(),
    });
    root.owner_references.push(OwnerRef {
        kind: "ReplicaSet".to_string(),
        name: "my-rs".to_string(),
        uid: "rs-uid".to_string(),
    });
    let ns = ns_default();
    let calls = plan_requests(K8sResourceType::Pod, &root, &ns);
    assert_eq!(calls.len(), 2);
    let outcomes = vec![
        CallOutcome::GotOne(obj("rs-uid", "my-rs")),
        CallOutcome::GotOne(obj("rs-uid", "my-rs")),
    ];
    let graph = resolve_graph(K8sResourceType::Pod, root, ns, outcomes).unwrap();
    assert_eq!(graph.nodes.len(), 2);
    assert_eq!(graph.edges.len(), 2);
}

#[test]
fn rediscovered_root_is_never_inserted_twice() {
    let root = obj("cm-uid", "my-cm");
    let ns = ns_default();
    let mut echo = obj("cm-uid", "echo-of-root");
    echo.pod_refs.push(PodRef {
        kind: PodRefKind::VolumeConfigMap,
        name: "my-cm".to_string(),
    });
    let graph = resolve_graph(
        K8sResourceType::ConfigMap,
        root,
        ns,
        vec![CallOutcome::GotList(vec![echo])],
    )
    .unwrap();
    assert_eq!(graph.nodes.len(), 1);
    assert_eq!(graph.nodes[0].label, "my-cm");
    assert_eq!(graph.edges.len(), 1);
}

#[test]
fn secondary_object_without_uid_is_skipped() {
    let mut root = obj("svc-uid", "web-svc");
    root.selector = Some(vec![("app".to_string(), "web".to_string())]);
    let ns = ns_default();
    let mut ghostly = obj("", "no-uid-pod");
    ghostly.uid = Some(String::new());
    let mut missing = obj("", "none-uid-pod");
    missing.uid = None;
    let graph = resolve_graph(
        K8sResourceType::Service,
        root,
        ns,
        vec![CallOutcome::GotList(vec![ghostly, missing])],
    )
    .unwrap();
    assert_eq!(graph.nodes.len(), 1);
    assert_eq!(graph.edges.len(), 0);
}

#[test]
fn root_without_uid_is_refused() {
    let mut root = obj("ignored", "nameless");
    root.uid = None;
    let r = resolve_graph(K8sResourceType::Pod, root, None, Vec::new());
    match r {
        Err(e) => {
            assert_eq!(e, ResolveError::MissingUid);
            assert_eq!(e.message(), "Missing UID");
        }
        Ok(_) => panic!("a root without uid must be refused"),
    }
}

#[test]
fn missing_outcomes_count_as_failures() {
    let mut root = obj("pvc-uid", "my-claim");
    root.storage_class_name = Some("fast".to_string());
    root.volume_name = Some("pv-7".to_string());
    let ns = ns_default();
    let outcomes = vec![CallOutcome::GotOne(obj("sc-uid", "fast"))];
    let graph =
        resolve_graph(K8sResourceType::PersistentVolumeClaim, root, ns, outcomes).unwrap();
    assert_eq!(graph.nodes.len(), 2);
    assert_eq!(graph.edges.len(), 1);
    assert_eq!(graph.edges[0].target, "sc-uid");
}

#[test]
fn mismatched_outcome_shape_contributes_nothing() {
    let mut root = obj("pod-uid", "my-pod");
    root.owner_references.push(OwnerRef {
        kind: "ReplicaSet".to_string(),
        name: "my-rs".to_string(),
        uid: "rs-uid".to_string(),
    });
    let ns = ns_default();
    let outcomes = vec![CallOutcome::GotList(vec![obj("rs-uid", "my-rs")])];
    let graph = resolve_graph(K8sResourceType::Pod, root, ns, outcomes).unwrap();
    assert_eq!(graph.nodes.len(), 1);
    assert_eq!(graph.edges.len(), 0);
}

#[test]
fn document_passes_through_into_node_data() {
    let mut root = obj("pod-uid", "my-pod");
    root.data = serde_json::Value::String("root-doc".to_string());
    root.owner_references.push(OwnerRef {
        kind: "ReplicaSet".to_string(),
        name: "my-rs".to_string(),
        uid: "rs-uid".to_string(),
    });
    let mut rs = obj("rs-uid", "my-rs");
    rs.data = serde_json::Value::String("owner-doc".to_string());
    let ns = ns_default();
    let graph =
        resolve_graph(K8sResourceType::Pod, root, ns, vec![CallOutcome::GotOne(rs)]).unwrap();
    assert_eq!(graph.nodes[0].data, serde_json::Value::String("root-doc".to_string()));
    assert_eq!(graph.nodes[1].data, serde_json::Value::String("owner-doc".to_string()));
}

#[test]
fn resolved_graphs_keep_their_invariants() {
    let mut root = obj("pod-uid", "busy-pod");
    root.labels = Some(vec![("app".to_string(), "myapp".to_string())]);
    root.owner_references.push(OwnerRef {
        kind: "ReplicaSet".to_string(),
        name: "my-rs".to_string(),
        uid: "rs-uid".to_string(),
    });
    root.pod_refs.push(PodRef {
        kind: PodRefKind::VolumeConfigMap,
        name: "my-cm".to_string(),
    });
    let ns = ns_default();
    let calls = plan_requests(K8sResourceType::Pod, &root, &ns);
    assert_eq!(calls.len(), 3);
    let mut svc = obj("svc-uid", "my-service");
    svc.selector = Some(vec![("app".to_string(), "myapp".to_string())]);
    let outcomes = vec![
        CallOutcome::GotOne(obj("rs-uid", "my-rs")),
        CallOutcome::GotList(vec![svc]),
        CallOutcome::GotOne(obj("cm-uid", "my-cm")),
    ];
    let graph = resolve_graph(K8sResourceType::Pod, root, ns, outcomes).unwrap();
    assert_eq!(graph.nodes[0].id, "pod-uid");
    assert_eq!(graph.nodes.len(), 4);
    assert_eq!(graph.edges.len(), 3);
    for (i, a) in graph.nodes.iter().enumerate() {
        for b in graph.nodes.iter().skip(i + 1) {
            assert_ne!(a.id, b.id);
        }
    }
    for edge in &graph.edges {
        assert!(graph.nodes.iter().any(|n| n.id == edge.source));
        assert!(graph.nodes.iter().any(|n| n.id == edge.target));
    }
}

#[test]
fn pod_without_labels_plans_no_service_listing() {
    let root = obj("pod-uid", "plain-pod");
    let ns = ns_default();
    let calls = plan_requests(K8sResourceType::Pod, &root, &ns);
    assert_eq!(calls.len(), 0);
}

#[test]
fn service_with_non_matching_selector_adds_nothing() {
    let mut root = obj("pod-uid", "target-pod");
    root.labels = Some(vec![("app".to_string(), "myapp".to_string())]);
    let ns = ns_default();
    let mut svc_other = obj("svc-1", "other-svc");
    svc_other.selector = Some(vec![("app".to_string(), "other".to_string())]);
    let mut svc_empty = obj("svc-2", "empty-svc");
    svc_empty.selector = Some(Vec::new());
    let svc_none = obj("svc-3", "bare-svc");
    let graph = resolve_graph(
        K8sResourceType::Pod,
        root,
        ns,
        vec![CallOutcome::GotList(vec![svc_other, svc_empty, svc_none])],
    )
    .unwrap();
    assert_eq!(graph.nodes.len(), 1);
    assert_eq!(graph.edges.len(), 0);
}
