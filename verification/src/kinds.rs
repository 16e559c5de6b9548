//! The resource-kind registry: the closed set of Kubernetes kinds the
//! resolver understands, with each kind's API group, version, kind string,
//! plural name and namespacing scope.

use vstd::prelude::*;

verus! {

/// The closed set of supported Kubernetes resource kinds.
#[derive(Debug, Clone, Copy, PartialEq, Eq, Structural)]
pub enum K8sResourceType {
    Pod,
    Deployment,
    ReplicaSet,
    StatefulSet,
    DaemonSet,
    Job,
    CronJob,
    Service,
    Ingress,
    PersistentVolume,
    PersistentVolumeClaim,
    StorageClass,
    ConfigMap,
    Secret,
    Namespace,
    Role,
    ClusterRole,
    RoleBinding,
    ClusterRoleBinding,
    ServiceAccount,
}

/// Group/version/kind, plural name and scope for one resource kind,
/// as plain values.
pub struct ApiResourceInfo {
    pub group: String,
    pub version: String,
    pub kind: String,
    pub plural: String,
    pub namespaced: bool,
}

/// The Kind string of a resource kind, e.g. `"Pod"`; the same token that
/// `from_kind` accepts.
pub open spec fn kind_name_spec(k: K8sResourceType) -> Seq<char> {
    match k {
        K8sResourceType::Pod => "Pod"@,
        K8sResourceType::Deployment => "Deployment"@,
        K8sResourceType::ReplicaSet => "ReplicaSet"@,
        K8sResourceType::StatefulSet => "StatefulSet"@,
        K8sResourceType::DaemonSet => "DaemonSet"@,
        K8sResourceType::Job => "Job"@,
        K8sResourceType::CronJob => "CronJob"@,
        K8sResourceType::Service => "Service"@,
        K8sResourceType::Ingress => "Ingress"@,
        K8sResourceType::PersistentVolume => "PersistentVolume"@,
        K8sResourceType::PersistentVolumeClaim => "PersistentVolumeClaim"@,
        K8sResourceType::StorageClass => "StorageClass"@,
        K8sResourceType::ConfigMap => "ConfigMap"@,
        K8sResourceType::Secret => "Secret"@,
        K8sResourceType::Namespace => "Namespace"@,
        K8sResourceType::Role => "Role"@,
        K8sResourceType::ClusterRole => "ClusterRole"@,
        K8sResourceType::RoleBinding => "RoleBinding"@,
        K8sResourceType::ClusterRoleBinding => "ClusterRoleBinding"@,
        K8sResourceType::ServiceAccount => "ServiceAccount"@,
    }
}

/// Which kind, if any, a Kind string denotes; `None` outside the registry.
pub open spec fn from_kind_spec(s: Seq<char>) -> Option<K8sResourceType> {
    if s == "Pod"@ {
        Some(K8sResourceType::Pod)
    } else if s == "Deployment"@ {
        Some(K8sResourceType::Deployment)
    } else if s == "ReplicaSet"@ {
        Some(K8sResourceType::ReplicaSet)
    } else if s == "StatefulSet"@ {
        Some(K8sResourceType::StatefulSet)
    } else if s == "DaemonSet"@ {
        Some(K8sResourceType::DaemonSet)
    } else if s == "Job"@ {
        Some(K8sResourceType::Job)
    } else if s == "CronJob"@ {
        Some(K8sResourceType::CronJob)
    } else if s == "Service"@ {
        Some(K8sResourceType::Service)
    } else if s == "Ingress"@ {
        Some(K8sResourceType::Ingress)
    } else if s == "PersistentVolume"@ {
        Some(K8sResourceType::PersistentVolume)
    } else if s == "PersistentVolumeClaim"@ {
        Some(K8sResourceType::PersistentVolumeClaim)
    } else if s == "StorageClass"@ {
        Some(K8sResourceType::StorageClass)
    } else if s == "ConfigMap"@ {
        Some(K8sResourceType::ConfigMap)
    } else if s == "Secret"@ {
        Some(K8sResourceType::Secret)
    } else if s == "Namespace"@ {
        Some(K8sResourceType::Namespace)
    } else if s == "Role"@ {
        Some(K8sResourceType::Role)
    } else if s == "ClusterRole"@ {
        Some(K8sResourceType::ClusterRole)
    } else if s == "RoleBinding"@ {
        Some(K8sResourceType::RoleBinding)
    } else if s == "ClusterRoleBinding"@ {
        Some(K8sResourceType::ClusterRoleBinding)
    } else if s == "ServiceAccount"@ {
        Some(K8sResourceType::ServiceAccount)
    } else {
        None
    }
}

/// The plural name used in API paths: the lowercased kind plus `s`, with
/// the irregular `ingresses` and `cronjobs`.
pub open spec fn plural_spec(k: K8sResourceType) -> Seq<char> {
    match k {
        K8sResourceType::Pod => "pods"@,
        K8sResourceType::Deployment => "deployments"@,
        K8sResourceType::ReplicaSet => "replicasets"@,
        K8sResourceType::StatefulSet => "statefulsets"@,
        K8sResourceType::DaemonSet => "daemonsets"@,
        K8sResourceType::Job => "jobs"@,
        K8sResourceType::CronJob => "cronjobs"@,
        K8sResourceType::Service => "services"@,
        K8sResourceType::Ingress => "ingresses"@,
        K8sResourceType::PersistentVolume => "persistentvolumes"@,
        K8sResourceType::PersistentVolumeClaim => "persistentvolumeclaims"@,
        K8sResourceType::StorageClass => "storageclasses"@,
        K8sResourceType::ConfigMap => "configmaps"@,
        K8sResourceType::Secret => "secrets"@,
        K8sResourceType::Namespace => "namespaces"@,
        K8sResourceType::Role => "roles"@,
        K8sResourceType::ClusterRole => "clusterroles"@,
        K8sResourceType::RoleBinding => "rolebindings"@,
        K8sResourceType::ClusterRoleBinding => "clusterrolebindings"@,
        K8sResourceType::ServiceAccount => "serviceaccounts"@,
    }
}

/// The API group of a resource kind; empty for the core group.
pub open spec fn group_spec(k: K8sResourceType) -> Seq<char> {
    match k {
        K8sResourceType::Deployment => "apps"@,
        K8sResourceType::ReplicaSet => "apps"@,
        K8sResourceType::StatefulSet => "apps"@,
        K8sResourceType::DaemonSet => "apps"@,
        K8sResourceType::Job => "batch"@,
        K8sResourceType::CronJob => "batch"@,
        K8sResourceType::Ingress => "networking.k8s.io"@,
        K8sResourceType::StorageClass => "storage.k8s.io"@,
        K8sResourceType::Role => "rbac.authorization.k8s.io"@,
        K8sResourceType::ClusterRole => "rbac.authorization.k8s.io"@,
        K8sResourceType::RoleBinding => "rbac.authorization.k8s.io"@,
        K8sResourceType::ClusterRoleBinding => "rbac.authorization.k8s.io"@,
        _ => ""@,
    }
}

/// Whether objects of the kind live inside a namespace. PersistentVolume,
/// StorageClass, Namespace, ClusterRole and ClusterRoleBinding are
/// cluster-scoped; all other kinds are namespaced.
pub open spec fn namespaced_spec(k: K8sResourceType) -> bool {
    match k {
        K8sResourceType::PersistentVolume => false,
        K8sResourceType::StorageClass => false,
        K8sResourceType::Namespace => false,
        K8sResourceType::ClusterRole => false,
        K8sResourceType::ClusterRoleBinding => false,
        _ => true,
    }
}

/// Character-sequence equality on string slices, built on the specified
/// `String` comparison.
pub fn str_eq(a: &str, b: &str) -> (r: bool)
    ensures
        r == (a@ == b@),
{
    let oa: String = a.to_owned();
    let ob: String = b.to_owned();
    oa == ob
}

impl K8sResourceType {
    /// Parses a Kind string, e.g. from `ownerReferences[].kind`.
    /// Returns `Some` exactly for the twenty recognized kind names.
    pub fn from_kind(kind: &str) -> (r: Option<K8sResourceType>)
        ensures
            r == from_kind_spec(kind@),
    {
        if str_eq(kind, "Pod") {
            Some(K8sResourceType::Pod)
        } else if str_eq(kind, "Deployment") {
            Some(K8sResourceType::Deployment)
        } else if str_eq(kind, "ReplicaSet") {
            Some(K8sResourceType::ReplicaSet)
        } else if str_eq(kind, "StatefulSet") {
            Some(K8sResourceType::StatefulSet)
        } else if str_eq(kind, "DaemonSet") {
            Some(K8sResourceType::DaemonSet)
        } else if str_eq(kind, "Job") {
            Some(K8sResourceType::Job)
        } else if str_eq(kind, "CronJob") {
            Some(K8sResourceType::CronJob)
        } else if str_eq(kind, "Service") {
            Some(K8sResourceType::Service)
        } else if str_eq(kind, "Ingress") {
            Some(K8sResourceType::Ingress)
        } else if str_eq(kind, "PersistentVolume") {
            Some(K8sResourceType::PersistentVolume)
        } else if str_eq(kind, "PersistentVolumeClaim") {
            Some(K8sResourceType::PersistentVolumeClaim)
        } else if str_eq(kind, "StorageClass") {
            Some(K8sResourceType::StorageClass)
        } else if str_eq(kind, "ConfigMap") {
            Some(K8sResourceType::ConfigMap)
        } else if str_eq(kind, "Secret") {
            Some(K8sResourceType::Secret)
        } else if str_eq(kind, "Namespace") {
            Some(K8sResourceType::Namespace)
        } else if str_eq(kind, "Role") {
            Some(K8sResourceType::Role)
        } else if str_eq(kind, "ClusterRole") {
            Some(K8sResourceType::ClusterRole)
        } else if str_eq(kind, "RoleBinding") {
            Some(K8sResourceType::RoleBinding)
        } else if str_eq(kind, "ClusterRoleBinding") {
            Some(K8sResourceType::ClusterRoleBinding)
        } else if str_eq(kind, "ServiceAccount") {
            Some(K8sResourceType::ServiceAccount)
        } else {
            None
        }
    }

    /// The Kind string of this kind; the inverse of `from_kind` on
    /// recognized names.
    pub fn kind_name(&self) -> (s: String)
        ensures
            s@ == kind_name_spec(*self),
    {
        match self {
            K8sResourceType::Pod => "Pod".to_owned(),
            K8sResourceType::Deployment => "Deployment".to_owned(),
            K8sResourceType::ReplicaSet => "ReplicaSet".to_owned(),
            K8sResourceType::StatefulSet => "StatefulSet".to_owned(),
            K8sResourceType::DaemonSet => "DaemonSet".to_owned(),
            K8sResourceType::Job => "Job".to_owned(),
            K8sResourceType::CronJob => "CronJob".to_owned(),
            K8sResourceType::Service => "Service".to_owned(),
            K8sResourceType::Ingress => "Ingress".to_owned(),
            K8sResourceType::PersistentVolume => "PersistentVolume".to_owned(),
            K8sResourceType::PersistentVolumeClaim => "PersistentVolumeClaim".to_owned(),
            K8sResourceType::StorageClass => "StorageClass".to_owned(),
            K8sResourceType::ConfigMap => "ConfigMap".to_owned(),
            K8sResourceType::Secret => "Secret".to_owned(),
            K8sResourceType::Namespace => "Namespace".to_owned(),
            K8sResourceType::Role => "Role".to_owned(),
            K8sResourceType::ClusterRole => "ClusterRole".to_owned(),
            K8sResourceType::RoleBinding => "RoleBinding".to_owned(),
            K8sResourceType::ClusterRoleBinding => "ClusterRoleBinding".to_owned(),
            K8sResourceType::ServiceAccount => "ServiceAccount".to_owned(),
        }
    }

    /// The plural name of this kind, as used in API paths.
    pub fn plural(&self) -> (s: String)
        ensures
            s@ == plural_spec(*self),
    {
        match self {
            K8sResourceType::Pod => "pods".to_owned(),
            K8sResourceType::Deployment => "deployments".to_owned(),
            K8sResourceType::ReplicaSet => "replicasets".to_owned(),
            K8sResourceType::StatefulSet => "statefulsets".to_owned(),
            K8sResourceType::DaemonSet => "daemonsets".to_owned(),
            K8sResourceType::Job => "jobs".to_owned(),
            K8sResourceType::CronJob => "cronjobs".to_owned(),
            K8sResourceType::Service => "services".to_owned(),
            K8sResourceType::Ingress => "ingresses".to_owned(),
            K8sResourceType::PersistentVolume => "persistentvolumes".to_owned(),
            K8sResourceType::PersistentVolumeClaim => "persistentvolumeclaims".to_owned(),
            K8sResourceType::StorageClass => "storageclasses".to_owned(),
            K8sResourceType::ConfigMap => "configmaps".to_owned(),
            K8sResourceType::Secret => "secrets".to_owned(),
            K8sResourceType::Namespace => "namespaces".to_owned(),
            K8sResourceType::Role => "roles".to_owned(),
            K8sResourceType::ClusterRole => "clusterroles".to_owned(),
            K8sResourceType::RoleBinding => "rolebindings".to_owned(),
            K8sResourceType::ClusterRoleBinding => "clusterrolebindings".to_owned(),
            K8sResourceType::ServiceAccount => "serviceaccounts".to_owned(),
        }
    }

    /// Whether this kind is namespaced.
    pub fn namespaced(&self) -> (b: bool)
        ensures
            b == namespaced_spec(*self),
    {
        match self {
            K8sResourceType::PersistentVolume => false,
            K8sResourceType::StorageClass => false,
            K8sResourceType::Namespace => false,
            K8sResourceType::ClusterRole => false,
            K8sResourceType::ClusterRoleBinding => false,
            _ => true,
        }
    }

    /// The group/version/kind tuple, plural name and scope of this kind.
    /// The registry is the single source of truth for these; the resolver
    /// never hard-codes them.
    pub fn get_api_resource(&self) -> (r: ApiResourceInfo)
        ensures
            r.group@ == group_spec(*self),
            r.version@ == "v1"@,
            r.kind@ == kind_name_spec(*self),
            r.plural@ == plural_spec(*self),
            r.namespaced == namespaced_spec(*self),
    {
        let group: String = match self {
            K8sResourceType::Deployment => "apps".to_owned(),
            K8sResourceType::ReplicaSet => "apps".to_owned(),
            K8sResourceType::StatefulSet => "apps".to_owned(),
            K8sResourceType::DaemonSet => "apps".to_owned(),
            K8sResourceType::Job => "batch".to_owned(),
            K8sResourceType::CronJob => "batch".to_owned(),
            K8sResourceType::Ingress => "networking.k8s.io".to_owned(),
            K8sResourceType::StorageClass => "storage.k8s.io".to_owned(),
            K8sResourceType::Role => "rbac.authorization.k8s.io".to_owned(),
            K8sResourceType::ClusterRole => "rbac.authorization.k8s.io".to_owned(),
            K8sResourceType::RoleBinding => "rbac.authorization.k8s.io".to_owned(),
            K8sResourceType::ClusterRoleBinding => "rbac.authorization.k8s.io".to_owned(),
            _ => "".to_owned(),
        };
        ApiResourceInfo {
            group,
            version: "v1".to_owned(),
            kind: self.kind_name(),
            plural: self.plural(),
            namespaced: self.namespaced(),
        }
    }
}

/// Parsing a kind's own Kind string gives the kind back: the registry's
/// tokens round-trip through `from_kind`.
pub proof fn lemma_kind_name_round_trip(k: K8sResourceType)
    ensures
        from_kind_spec(kind_name_spec(k)) == Some(k),
{
    reveal_strlit("Pod");
    reveal_strlit("Deployment");
    reveal_strlit("ReplicaSet");
    reveal_strlit("StatefulSet");
    reveal_strlit("DaemonSet");
    reveal_strlit("Job");
    reveal_strlit("CronJob");
    reveal_strlit("Service");
    reveal_strlit("Ingress");
    reveal_strlit("PersistentVolume");
    reveal_strlit("PersistentVolumeClaim");
    reveal_strlit("StorageClass");
    reveal_strlit("ConfigMap");
    reveal_strlit("Secret");
    reveal_strlit("Namespace");
    reveal_strlit("Role");
    reveal_strlit("ClusterRole");
    reveal_strlit("RoleBinding");
    reveal_strlit("ClusterRoleBinding");
    reveal_strlit("ServiceAccount");
    assert("Pod"@.len() == 3);
    assert("Deployment"@.len() == 10);
    assert("ReplicaSet"@.len() == 10);
    assert("StatefulSet"@.len() == 11);
    assert("DaemonSet"@.len() == 9);
    assert("Job"@.len() == 3);
    assert("CronJob"@.len() == 7);
    assert("Service"@.len() == 7);
    assert("Ingress"@.len() == 7);
    assert("PersistentVolume"@.len() == 16);
    assert("PersistentVolumeClaim"@.len() == 21);
    assert("StorageClass"@.len() == 12);
    assert("ConfigMap"@.len() == 9);
    assert("Secret"@.len() == 6);
    assert("Namespace"@.len() == 9);
    assert("Role"@.len() == 4);
    assert("ClusterRole"@.len() == 11);
    assert("RoleBinding"@.len() == 11);
    assert("ClusterRoleBinding"@.len() == 18);
    assert("ServiceAccount"@.len() == 14);
    assert("ReplicaSet"@ != "Deployment"@) by {
        assert("ReplicaSet"@[0] != "Deployment"@[0]);
    }
    assert("Job"@ != "Pod"@) by {
        assert("Job"@[0] != "Pod"@[0]);
    }
    assert("Service"@ != "CronJob"@) by {
        assert("Service"@[0] != "CronJob"@[0]);
    }
    assert("Ingress"@ != "CronJob"@) by {
        assert("Ingress"@[0] != "CronJob"@[0]);
    }
    assert("Ingress"@ != "Service"@) by {
        assert("Ingress"@[0] != "Service"@[0]);
    }
    assert("ConfigMap"@ != "DaemonSet"@) by {
        assert("ConfigMap"@[0] != "DaemonSet"@[0]);
    }
    assert("Namespace"@ != "DaemonSet"@) by {
        assert("Namespace"@[0] != "DaemonSet"@[0]);
    }
    assert("Namespace"@ != "ConfigMap"@) by {
        assert("Namespace"@[0] != "ConfigMap"@[0]);
    }
    assert("ClusterRole"@ != "StatefulSet"@) by {
        assert("ClusterRole"@[0] != "StatefulSet"@[0]);
    }
    assert("RoleBinding"@ != "StatefulSet"@) by {
        assert("RoleBinding"@[0] != "StatefulSet"@[0]);
    }
    assert("RoleBinding"@ != "ClusterRole"@) by {
        assert("RoleBinding"@[0] != "ClusterRole"@[0]);
    }
    match k {
        K8sResourceType::Pod => assert(from_kind_spec("Pod"@) == Some(k)),
        K8sResourceType::Deployment => assert(from_kind_spec("Deployment"@) == Some(k)),
        K8sResourceType::ReplicaSet => assert(from_kind_spec("ReplicaSet"@) == Some(k)),
        K8sResourceType::StatefulSet => assert(from_kind_spec("StatefulSet"@) == Some(k)),
        K8sResourceType::DaemonSet => assert(from_kind_spec("DaemonSet"@) == Some(k)),
        K8sResourceType::Job => assert(from_kind_spec("Job"@) == Some(k)),
        K8sResourceType::CronJob => assert(from_kind_spec("CronJob"@) == Some(k)),
        K8sResourceType::Service => assert(from_kind_spec("Service"@) == Some(k)),
        K8sResourceType::Ingress => assert(from_kind_spec("Ingress"@) == Some(k)),
        K8sResourceType::PersistentVolume => assert(from_kind_spec("PersistentVolume"@)
            == Some(k)),
        K8sResourceType::PersistentVolumeClaim => assert(from_kind_spec(
            "PersistentVolumeClaim"@) == Some(k)),
        K8sResourceType::StorageClass => assert(from_kind_spec("StorageClass"@) == Some(k)),
        K8sResourceType::ConfigMap => assert(from_kind_spec("ConfigMap"@) == Some(k)),
        K8sResourceType::Secret => assert(from_kind_spec("Secret"@) == Some(k)),
        K8sResourceType::Namespace => assert(from_kind_spec("Namespace"@) == Some(k)),
        K8sResourceType::Role => assert(from_kind_spec("Role"@) == Some(k)),
        K8sResourceType::ClusterRole => assert(from_kind_spec("ClusterRole"@) == Some(k)),
        K8sResourceType::RoleBinding => assert(from_kind_spec("RoleBinding"@) == Some(k)),
        K8sResourceType::ClusterRoleBinding => assert(from_kind_spec("ClusterRoleBinding"@)
            == Some(k)),
        K8sResourceType::ServiceAccount => assert(from_kind_spec("ServiceAccount"@)
            == Some(k)),
    }
}

} // verus!
