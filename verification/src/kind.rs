//! The closed set of resource kinds, with what each kind is called, where it
//! lives in a path and whether its instances belong to a namespace.

use vstd::prelude::*;

use crate::text::range_is;

verus! {

/// One of the kinds of cluster resource that can be addressed.
#[derive(Clone, Copy, Debug, PartialEq, Eq, Structural)]
pub enum ResourceKind {
    Namespace,
    Pod,
    Service,
    Deployment,
    ConfigMap,
    Secret,
    PersistentVolumeClaim,
    PersistentVolume,
    Role,
    RoleBinding,
    ClusterRole,
    ClusterRoleBinding,
}

impl ResourceKind {
    /// Whether instances of the kind exist once per cluster, outside any
    /// namespace.
    pub open spec fn spec_is_cluster_scoped(self) -> bool {
        self == ResourceKind::PersistentVolume || self == ResourceKind::ClusterRole || self
            == ResourceKind::ClusterRoleBinding
    }

    /// Whether an address of the kind names a namespace beside the resource's
    /// own name. A namespace is addressed by its own name alone.
    pub open spec fn spec_carries_namespace(self) -> bool {
        !self.spec_is_cluster_scoped() && self != ResourceKind::Namespace
    }

    /// The kind's name as it appears in a change summary.
    pub open spec fn spec_name(self) -> Seq<char> {
        match self {
            ResourceKind::Namespace => "Namespace"@,
            ResourceKind::Pod => "Pod"@,
            ResourceKind::Service => "Service"@,
            ResourceKind::Deployment => "Deployment"@,
            ResourceKind::ConfigMap => "ConfigMap"@,
            ResourceKind::Secret => "Secret"@,
            ResourceKind::PersistentVolumeClaim => "PersistentVolumeClaim"@,
            ResourceKind::PersistentVolume => "PersistentVolume"@,
            ResourceKind::Role => "Role"@,
            ResourceKind::RoleBinding => "RoleBinding"@,
            ResourceKind::ClusterRole => "ClusterRole"@,
            ResourceKind::ClusterRoleBinding => "ClusterRoleBinding"@,
        }
    }

    /// The path segment that only this kind owns.
    pub open spec fn spec_segment(self) -> Seq<char> {
        match self {
            ResourceKind::Namespace => "ns"@,
            ResourceKind::Pod => "pod"@,
            ResourceKind::Service => "service"@,
            ResourceKind::Deployment => "deployment"@,
            ResourceKind::ConfigMap => "configmap"@,
            ResourceKind::Secret => "secret"@,
            ResourceKind::PersistentVolumeClaim => "persistentvolumeclaim"@,
            ResourceKind::PersistentVolume => "persistentvolume"@,
            ResourceKind::Role => "role"@,
            ResourceKind::RoleBinding => "rolebinding"@,
            ResourceKind::ClusterRole => "clusterrole"@,
            ResourceKind::ClusterRoleBinding => "clusterrolebinding"@,
        }
    }

    /// Whether creating, patching and deleting instances of the kind is wired
    /// to the cluster. Secrets can be addressed and inspected but not changed.
    pub open spec fn spec_supports_mutation(self) -> bool {
        self != ResourceKind::Secret
    }

    pub fn is_cluster_scoped(&self) -> (r: bool)
        ensures
            r == self.spec_is_cluster_scoped(),
    {
        match self {
            ResourceKind::PersistentVolume
            | ResourceKind::ClusterRole
            | ResourceKind::ClusterRoleBinding => true,
            _ => false,
        }
    }

    pub fn carries_namespace(&self) -> (r: bool)
        ensures
            r == self.spec_carries_namespace(),
    {
        match self {
            ResourceKind::Namespace
            | ResourceKind::PersistentVolume
            | ResourceKind::ClusterRole
            | ResourceKind::ClusterRoleBinding => false,
            _ => true,
        }
    }

    pub fn name(&self) -> (r: &'static str)
        ensures
            r@ == self.spec_name(),
    {
        match self {
            ResourceKind::Namespace => "Namespace",
            ResourceKind::Pod => "Pod",
            ResourceKind::Service => "Service",
            ResourceKind::Deployment => "Deployment",
            ResourceKind::ConfigMap => "ConfigMap",
            ResourceKind::Secret => "Secret",
            ResourceKind::PersistentVolumeClaim => "PersistentVolumeClaim",
            ResourceKind::PersistentVolume => "PersistentVolume",
            ResourceKind::Role => "Role",
            ResourceKind::RoleBinding => "RoleBinding",
            ResourceKind::ClusterRole => "ClusterRole",
            ResourceKind::ClusterRoleBinding => "ClusterRoleBinding",
        }
    }

    pub fn segment(&self) -> (r: &'static str)
        ensures
            r@ == self.spec_segment(),
    {
        match self {
            ResourceKind::Namespace => "ns",
            ResourceKind::Pod => "pod",
            ResourceKind::Service => "service",
            ResourceKind::Deployment => "deployment",
            ResourceKind::ConfigMap => "configmap",
            ResourceKind::Secret => "secret",
            ResourceKind::PersistentVolumeClaim => "persistentvolumeclaim",
            ResourceKind::PersistentVolume => "persistentvolume",
            ResourceKind::Role => "role",
            ResourceKind::RoleBinding => "rolebinding",
            ResourceKind::ClusterRole => "clusterrole",
            ResourceKind::ClusterRoleBinding => "clusterrolebinding",
        }
    }

    pub fn supports_mutation(&self) -> (r: bool)
        ensures
            r == self.spec_supports_mutation(),
    {
        match self {
            ResourceKind::Secret => false,
            _ => true,
        }
    }
}

/// The namespaced kind whose path segment is `segment`, if there is one.
pub open spec fn namespaced_kind_of(segment: Seq<char>) -> Option<ResourceKind> {
    if segment == "pod"@ {
        Some(ResourceKind::Pod)
    } else if segment == "service"@ {
        Some(ResourceKind::Service)
    } else if segment == "deployment"@ {
        Some(ResourceKind::Deployment)
    } else if segment == "configmap"@ {
        Some(ResourceKind::ConfigMap)
    } else if segment == "secret"@ {
        Some(ResourceKind::Secret)
    } else if segment == "persistentvolumeclaim"@ {
        Some(ResourceKind::PersistentVolumeClaim)
    } else if segment == "role"@ {
        Some(ResourceKind::Role)
    } else if segment == "rolebinding"@ {
        Some(ResourceKind::RoleBinding)
    } else {
        None
    }
}

/// The cluster-scoped kind whose path segment is `segment`, if there is one.
pub open spec fn cluster_kind_of(segment: Seq<char>) -> Option<ResourceKind> {
    if segment == "persistentvolume"@ {
        Some(ResourceKind::PersistentVolume)
    } else if segment == "clusterrole"@ {
        Some(ResourceKind::ClusterRole)
    } else if segment == "clusterrolebinding"@ {
        Some(ResourceKind::ClusterRoleBinding)
    } else {
        None
    }
}

/// The namespaced kind whose path segment is spelled by the characters of
/// `chars` from `from` up to `to`.
pub fn namespaced_kind_at(chars: &Vec<char>, from: usize, to: usize) -> (kind: Option<
    ResourceKind,
>)
    requires
        from <= to <= chars@.len(),
    ensures
        kind == namespaced_kind_of(chars@.subrange(from as int, to as int)),
{
    if range_is(chars, from, to, "pod") {
        Some(ResourceKind::Pod)
    } else if range_is(chars, from, to, "service") {
        Some(ResourceKind::Service)
    } else if range_is(chars, from, to, "deployment") {
        Some(ResourceKind::Deployment)
    } else if range_is(chars, from, to, "configmap") {
        Some(ResourceKind::ConfigMap)
    } else if range_is(chars, from, to, "secret") {
        Some(ResourceKind::Secret)
    } else if range_is(chars, from, to, "persistentvolumeclaim") {
        Some(ResourceKind::PersistentVolumeClaim)
    } else if range_is(chars, from, to, "role") {
        Some(ResourceKind::Role)
    } else if range_is(chars, from, to, "rolebinding") {
        Some(ResourceKind::RoleBinding)
    } else {
        None
    }
}

/// The cluster-scoped kind whose path segment is spelled by the characters
/// of `chars` from `from` up to `to`.
pub fn cluster_kind_at(chars: &Vec<char>, from: usize, to: usize) -> (kind: Option<ResourceKind>)
    requires
        from <= to <= chars@.len(),
    ensures
        kind == cluster_kind_of(chars@.subrange(from as int, to as int)),
{
    if range_is(chars, from, to, "persistentvolume") {
        Some(ResourceKind::PersistentVolume)
    } else if range_is(chars, from, to, "clusterrole") {
        Some(ResourceKind::ClusterRole)
    } else if range_is(chars, from, to, "clusterrolebinding") {
        Some(ResourceKind::ClusterRoleBinding)
    } else {
        None
    }
}

/// Every kind that carries a namespace is found again by its path segment,
/// and a kind found by a segment carries a namespace and owns that segment.
pub proof fn lemma_namespaced_kind_of_segment(kind: ResourceKind, segment: Seq<char>)
    ensures
        kind.spec_carries_namespace() ==> namespaced_kind_of(kind.spec_segment()) == Some(kind),
        namespaced_kind_of(segment) == Some(kind) ==> kind.spec_carries_namespace()
            && kind.spec_segment() == segment,
{
    reveal_strlit("pod");
    reveal_strlit("service");
    reveal_strlit("deployment");
    reveal_strlit("configmap");
    reveal_strlit("secret");
    reveal_strlit("persistentvolumeclaim");
    reveal_strlit("role");
    reveal_strlit("rolebinding");
    assert("pod"@.len() == 3);
    assert("service"@.len() == 7);
    assert("deployment"@.len() == 10);
    assert("configmap"@.len() == 9);
    assert("secret"@.len() == 6);
    assert("persistentvolumeclaim"@.len() == 21);
    assert("role"@.len() == 4);
    assert("rolebinding"@.len() == 11);
}

/// Every cluster-scoped kind is found again by its path segment, and a kind
/// found by a segment is cluster-scoped and owns that segment.
pub proof fn lemma_cluster_kind_of_segment(kind: ResourceKind, segment: Seq<char>)
    ensures
        kind.spec_is_cluster_scoped() ==> cluster_kind_of(kind.spec_segment()) == Some(kind),
        cluster_kind_of(segment) == Some(kind) ==> kind.spec_is_cluster_scoped()
            && kind.spec_segment() == segment,
{
    reveal_strlit("persistentvolume");
    reveal_strlit("clusterrole");
    reveal_strlit("clusterrolebinding");
    assert("persistentvolume"@.len() == 16);
    assert("clusterrole"@.len() == 11);
    assert("clusterrolebinding"@.len() == 18);
}

/// No kind's path segment holds a path separator.
pub proof fn lemma_segment_separator_free(kind: ResourceKind)
    ensures
        crate::path::separator_free(kind.spec_segment()),
{
    reveal_strlit("ns");
    reveal_strlit("pod");
    reveal_strlit("service");
    reveal_strlit("deployment");
    reveal_strlit("configmap");
    reveal_strlit("secret");
    reveal_strlit("persistentvolumeclaim");
    reveal_strlit("persistentvolume");
    reveal_strlit("role");
    reveal_strlit("rolebinding");
    reveal_strlit("clusterrole");
    reveal_strlit("clusterrolebinding");
}

} // verus!
