//! Resource addresses and the paths that stand for them.
//!
//! Every address has exactly one path, and decoding that path gives the
//! address back. A path that matches no pattern of the grammar is simply not
//! the path of a resource.

use vstd::prelude::*;
use vstd::string::StrSliceExecFns;
use vstd::string::StringExecFns;

use crate::backend::lemma_extension_separator_free;
use crate::backend::lemma_stem_and_extension;
use crate::backend::lemma_stem_of_extended;
use crate::backend::SERDE;
use crate::backend::SerdeBackend;
use crate::backend::stem_end;
use crate::error::ConnectorError;
use crate::kind::cluster_kind_at;
use crate::kind::cluster_kind_of;
use crate::kind::lemma_cluster_kind_of_segment;
use crate::kind::lemma_namespaced_kind_of_segment;
use crate::kind::lemma_segment_separator_free;
use crate::kind::namespaced_kind_at;
use crate::kind::namespaced_kind_of;
use crate::kind::ResourceKind;
use crate::path::all_separator_free;
use crate::path::bounds_within;
use crate::path::join;
use crate::path::lemma_join_push;
use crate::path::lemma_join_split;
use crate::path::lemma_split_join;
use crate::path::segments_at;
use crate::path::separator_free;
use crate::path::split;
use crate::path::split_bounds;
use crate::text::range_is;
use crate::text::to_chars;

verus! {

/// The address of one resource within a cluster: its kind, the namespace it
/// lives in where the kind has one, and its name.
#[derive(Debug, Clone, PartialEq, Eq)]
pub enum K8sResourceAddress {
    Namespace(String),
    Pod(String, String),
    Service(String, String),
    Deployment(String, String),
    ConfigMap(String, String),
    Secret(String, String),
    PersistentVolumeClaim(String, String),
    PersistentVolume(String),
    Role(String, String),
    RoleBinding(String, String),
    ClusterRole(String),
    ClusterRoleBinding(String),
}

/// The address of one resource in one of several clusters.
#[derive(Debug, Clone, PartialEq, Eq)]
pub struct K8sClusterAddress {
    pub cluster: String,
    pub res_addr: K8sResourceAddress,
}

/// What a resource address says: a kind, a namespace for the kinds that
/// carry one, and a name.
pub struct AddressView {
    pub kind: ResourceKind,
    pub namespace: Option<Seq<char>>,
    pub name: Seq<char>,
}

/// What a cluster address says: a cluster and a resource address.
pub struct ClusterAddressView {
    pub cluster: Seq<char>,
    pub resource: AddressView,
}

impl AddressView {
    /// An address names a namespace exactly when its kind carries one.
    pub open spec fn wf(self) -> bool {
        self.namespace is Some <==> self.kind.spec_carries_namespace()
    }

    /// Whether neither the namespace nor the name holds a path separator.
    pub open spec fn separator_free(self) -> bool {
        &&& separator_free(self.name)
        &&& self.namespace matches Some(ns) ==> separator_free(ns)
    }

    /// The name by which the resource is known in its cluster: the name
    /// alone, or the namespace, a slash and the name.
    pub open spec fn scoped_name(self) -> Seq<char> {
        match self.namespace {
            Some(ns) => ns + seq!['/'] + self.name,
            None => self.name,
        }
    }
}

impl View for K8sResourceAddress {
    type V = AddressView;

    open spec fn view(&self) -> AddressView {
        match self {
            K8sResourceAddress::Namespace(name) => AddressView {
                kind: ResourceKind::Namespace,
                namespace: None,
                name: name@,
            },
            K8sResourceAddress::Pod(ns, name) => AddressView {
                kind: ResourceKind::Pod,
                namespace: Some(ns@),
                name: name@,
            },
            K8sResourceAddress::Service(ns, name) => AddressView {
                kind: ResourceKind::Service,
                namespace: Some(ns@),
                name: name@,
            },
            K8sResourceAddress::Deployment(ns, name) => AddressView {
                kind: ResourceKind::Deployment,
                namespace: Some(ns@),
                name: name@,
            },
            K8sResourceAddress::ConfigMap(ns, name) => AddressView {
                kind: ResourceKind::ConfigMap,
                namespace: Some(ns@),
                name: name@,
            },
            K8sResourceAddress::Secret(ns, name) => AddressView {
                kind: ResourceKind::Secret,
                namespace: Some(ns@),
                name: name@,
            },
            K8sResourceAddress::PersistentVolumeClaim(ns, name) => AddressView {
                kind: ResourceKind::PersistentVolumeClaim,
                namespace: Some(ns@),
                name: name@,
            },
            K8sResourceAddress::PersistentVolume(name) => AddressView {
                kind: ResourceKind::PersistentVolume,
                namespace: None,
                name: name@,
            },
            K8sResourceAddress::Role(ns, name) => AddressView {
                kind: ResourceKind::Role,
                namespace: Some(ns@),
                name: name@,
            },
            K8sResourceAddress::RoleBinding(ns, name) => AddressView {
                kind: ResourceKind::RoleBinding,
                namespace: Some(ns@),
                name: name@,
            },
            K8sResourceAddress::ClusterRole(name) => AddressView {
                kind: ResourceKind::ClusterRole,
                namespace: None,
                name: name@,
            },
            K8sResourceAddress::ClusterRoleBinding(name) => AddressView {
                kind: ResourceKind::ClusterRoleBinding,
                namespace: None,
                name: name@,
            },
        }
    }
}

impl View for K8sClusterAddress {
    type V = ClusterAddressView;

    open spec fn view(&self) -> ClusterAddressView {
        ClusterAddressView { cluster: self.cluster@, resource: self.res_addr@ }
    }
}

/// The view of an address that may be absent.
pub open spec fn resource_option_view(a: Option<K8sResourceAddress>) -> Option<AddressView> {
    match a {
        Some(a) => Some(a@),
        None => None,
    }
}

/// The view of a cluster address that may be absent.
pub open spec fn cluster_option_view(a: Option<K8sClusterAddress>) -> Option<ClusterAddressView> {
    match a {
        Some(a) => Some(a@),
        None => None,
    }
}

/// The first segment of every resource path.
pub open spec fn root_segment() -> Seq<char> {
    "k8s"@
}

/// The segment that introduces a namespace, and the stem of the file that
/// stands for the namespace itself.
pub open spec fn namespace_segment() -> Seq<char> {
    "ns"@
}

/// The segments that follow the root (and the cluster, where there is one)
/// in the path of `a`, for files with the extension `ext`.
pub open spec fn resource_segments(a: AddressView, ext: Seq<char>) -> Seq<Seq<char>> {
    if a.kind == ResourceKind::Namespace {
        seq![namespace_segment(), a.name, namespace_segment() + ext]
    } else {
        match a.namespace {
            Some(ns) => seq![namespace_segment(), ns, a.kind.spec_segment(), a.name + ext],
            None => seq![a.kind.spec_segment(), a.name + ext],
        }
    }
}

/// The address that the segments after the root (and the cluster) stand
/// for, if they match a pattern of the grammar.
pub open spec fn parse_segments(segs: Seq<Seq<char>>, backend: SerdeBackend) -> Option<
    AddressView,
> {
    if segs.len() == 3 && segs[0] == namespace_segment() && backend.spec_stem(segs[2]) == Some(
        namespace_segment(),
    ) {
        Some(AddressView { kind: ResourceKind::Namespace, namespace: None, name: segs[1] })
    } else if segs.len() == 4 && segs[0] == namespace_segment() {
        match (namespaced_kind_of(segs[2]), backend.spec_stem(segs[3])) {
            (Some(kind), Some(name)) => Some(
                AddressView { kind, namespace: Some(segs[1]), name },
            ),
            _ => None,
        }
    } else if segs.len() == 2 {
        match (cluster_kind_of(segs[0]), backend.spec_stem(segs[1])) {
            (Some(kind), Some(name)) => Some(AddressView { kind, namespace: None, name }),
            _ => None,
        }
    } else {
        None
    }
}

/// The path of the resource address `a` under `backend`.
pub open spec fn resource_path(a: AddressView, backend: SerdeBackend) -> Seq<char> {
    join(seq![root_segment()] + resource_segments(a, backend.spec_extension()))
}

/// The path of the cluster address `a` under `backend`.
pub open spec fn cluster_path(a: ClusterAddressView, backend: SerdeBackend) -> Seq<char> {
    join(
        seq![root_segment(), a.cluster] + resource_segments(
            a.resource,
            backend.spec_extension(),
        ),
    )
}

/// The resource address that `path` stands for under `backend`, if it is the
/// path of a resource.
pub open spec fn resource_at(path: Seq<char>, backend: SerdeBackend) -> Option<AddressView> {
    let segs = split(path);
    if segs.len() >= 1 && segs[0] == root_segment() {
        parse_segments(segs.skip(1), backend)
    } else {
        None
    }
}

/// The cluster address that `path` stands for under `backend`, if it is the
/// path of a resource in a cluster.
pub open spec fn cluster_resource_at(path: Seq<char>, backend: SerdeBackend) -> Option<
    ClusterAddressView,
> {
    let segs = split(path);
    if segs.len() >= 2 && segs[0] == root_segment() {
        match parse_segments(segs.skip(2), backend) {
            Some(resource) => Some(ClusterAddressView { cluster: segs[1], resource }),
            None => None,
        }
    } else {
        None
    }
}

/// The segments of an address's path stand for that address.
pub proof fn lemma_parse_resource_segments(a: AddressView, backend: SerdeBackend)
    requires
        a.wf(),
    ensures
        parse_segments(resource_segments(a, backend.spec_extension()), backend) == Some(a),
{
    let ext = backend.spec_extension();
    let segs = resource_segments(a, ext);
    lemma_stem_of_extended(backend, a.name);
    lemma_stem_of_extended(backend, namespace_segment());
    lemma_namespaced_kind_of_segment(a.kind, a.kind.spec_segment());
    lemma_cluster_kind_of_segment(a.kind, a.kind.spec_segment());
    if a.kind == ResourceKind::Namespace {
        assert(segs.len() == 3);
    } else if a.namespace is Some {
        assert(segs.len() == 4);
        assert(segs[2] == a.kind.spec_segment());
        assert(segs[3] == a.name + ext);
    } else {
        assert(segs.len() == 2);
        assert(a.kind.spec_is_cluster_scoped());
    }
}

/// Whatever address segments are parsed into names a namespace exactly when
/// its kind carries one.
pub proof fn lemma_parse_segments_wf(segs: Seq<Seq<char>>, backend: SerdeBackend)
    ensures
        parse_segments(segs, backend) matches Some(a) ==> a.wf(),
{
    if segs.len() == 4 {
        match namespaced_kind_of(segs[2]) {
            Some(kind) => lemma_namespaced_kind_of_segment(kind, segs[2]),
            None => {},
        }
    }
    if segs.len() == 2 {
        match cluster_kind_of(segs[0]) {
            Some(kind) => lemma_cluster_kind_of_segment(kind, segs[0]),
            None => {},
        }
    }
}

/// No segment of an address's path holds a separator, as long as the
/// address's own fields hold none.
pub proof fn lemma_resource_segments_separator_free(a: AddressView, backend: SerdeBackend)
    requires
        a.wf(),
        a.separator_free(),
    ensures
        all_separator_free(resource_segments(a, backend.spec_extension())),
        separator_free(root_segment()),
{
    reveal_strlit("k8s");
    reveal_strlit("ns");
    lemma_extension_separator_free(backend);
    lemma_segment_separator_free(a.kind);
    let ext = backend.spec_extension();
    assert(separator_free(a.name + ext));
    assert(separator_free(namespace_segment() + ext));
}

/// Segments that stand for an address are the segments of that address's
/// path, for one of the extensions that the format accepts.
pub proof fn lemma_parsed_segments(segs: Seq<Seq<char>>, backend: SerdeBackend) -> (ext: Seq<
    char,
>)
    requires
        parse_segments(segs, backend) is Some,
    ensures
        backend.spec_accepts(ext),
        parse_segments(segs, backend)->0.wf(),
        segs == resource_segments(parse_segments(segs, backend)->0, ext),
{
    lemma_parse_segments_wf(segs, backend);
    let a = parse_segments(segs, backend)->0;
    if segs.len() == 3 {
        let ext = lemma_stem_and_extension(backend, segs[2]);
        assert(segs =~= resource_segments(a, ext));
        ext
    } else if segs.len() == 4 {
        lemma_namespaced_kind_of_segment(a.kind, segs[2]);
        let ext = lemma_stem_and_extension(backend, segs[3]);
        assert(segs =~= resource_segments(a, ext));
        ext
    } else {
        lemma_cluster_kind_of_segment(a.kind, segs[0]);
        let ext = lemma_stem_and_extension(backend, segs[1]);
        assert(segs =~= resource_segments(a, ext));
        ext
    }
}

/// Only the paths of the grammar are taken for resources: a path that
/// stands for a resource address is the root and the segments of that
/// address, joined, with one of the extensions that the format accepts.
pub proof fn lemma_resource_path_shape(path: Seq<char>, backend: SerdeBackend) -> (ext: Seq<char>)
    requires
        resource_at(path, backend) is Some,
    ensures
        backend.spec_accepts(ext),
        resource_at(path, backend)->0.wf(),
        path == join(
            seq![root_segment()] + resource_segments(resource_at(path, backend)->0, ext),
        ),
{
    let segs = split(path);
    lemma_join_split(path);
    let ext = lemma_parsed_segments(segs.skip(1), backend);
    assert(segs =~= seq![root_segment()] + segs.skip(1));
    ext
}

/// Only the paths of the grammar are taken for resources in a cluster: a
/// path that stands for a cluster address is the root, the cluster and the
/// segments of the resource address, joined, with one of the extensions that
/// the format accepts.
pub proof fn lemma_cluster_path_shape(path: Seq<char>, backend: SerdeBackend) -> (ext: Seq<char>)
    requires
        cluster_resource_at(path, backend) is Some,
    ensures
        backend.spec_accepts(ext),
        cluster_resource_at(path, backend)->0.resource.wf(),
        path == join(
            seq![root_segment(), cluster_resource_at(path, backend)->0.cluster]
                + resource_segments(cluster_resource_at(path, backend)->0.resource, ext),
        ),
{
    let segs = split(path);
    lemma_join_split(path);
    let ext = lemma_parsed_segments(segs.skip(2), backend);
    assert(segs =~= seq![root_segment(), segs[1]] + segs.skip(2));
    ext
}

/// Decoding the path of a resource address gives the address back, for every
/// address whose namespace and name hold no path separator.
pub proof fn lemma_resource_round_trip(a: AddressView, backend: SerdeBackend)
    requires
        a.wf(),
        a.separator_free(),
    ensures
        resource_at(resource_path(a, backend), backend) == Some(a),
{
    let rest = resource_segments(a, backend.spec_extension());
    let segs = seq![root_segment()] + rest;
    lemma_resource_segments_separator_free(a, backend);
    assert(all_separator_free(segs)) by {
        assert forall|i: int| 0 <= i < segs.len() implies separator_free(#[trigger] segs[i]) by {
            if i > 0 {
                assert(segs[i] == rest[i - 1]);
            }
        }
    }
    lemma_split_join(segs);
    assert(segs.skip(1) =~= rest);
    lemma_parse_resource_segments(a, backend);
}

/// Decoding the path of a cluster address gives the address back, for every
/// address whose cluster, namespace and name hold no path separator.
pub proof fn lemma_cluster_round_trip(a: ClusterAddressView, backend: SerdeBackend)
    requires
        a.resource.wf(),
        a.resource.separator_free(),
        separator_free(a.cluster),
    ensures
        cluster_resource_at(cluster_path(a, backend), backend) == Some(a),
{
    let rest = resource_segments(a.resource, backend.spec_extension());
    let segs = seq![root_segment(), a.cluster] + rest;
    lemma_resource_segments_separator_free(a.resource, backend);
    assert(all_separator_free(segs)) by {
        assert forall|i: int| 0 <= i < segs.len() implies separator_free(#[trigger] segs[i]) by {
            if i > 1 {
                assert(segs[i] == rest[i - 2]);
            }
        }
    }
    lemma_split_join(segs);
    assert(segs.skip(2) =~= rest);
    lemma_parse_resource_segments(a.resource, backend);
}

impl K8sResourceAddress {
    /// The kind of resource that the address names.
    pub fn kind(&self) -> (kind: ResourceKind)
        ensures
            kind == self@.kind,
    {
        match self {
            K8sResourceAddress::Namespace(_) => ResourceKind::Namespace,
            K8sResourceAddress::Pod(_, _) => ResourceKind::Pod,
            K8sResourceAddress::Service(_, _) => ResourceKind::Service,
            K8sResourceAddress::Deployment(_, _) => ResourceKind::Deployment,
            K8sResourceAddress::ConfigMap(_, _) => ResourceKind::ConfigMap,
            K8sResourceAddress::Secret(_, _) => ResourceKind::Secret,
            K8sResourceAddress::PersistentVolumeClaim(_, _) => ResourceKind::PersistentVolumeClaim,
            K8sResourceAddress::PersistentVolume(_) => ResourceKind::PersistentVolume,
            K8sResourceAddress::Role(_, _) => ResourceKind::Role,
            K8sResourceAddress::RoleBinding(_, _) => ResourceKind::RoleBinding,
            K8sResourceAddress::ClusterRole(_) => ResourceKind::ClusterRole,
            K8sResourceAddress::ClusterRoleBinding(_) => ResourceKind::ClusterRoleBinding,
        }
    }

    /// The namespace that the resource lives in, for the kinds that carry
    /// one.
    pub fn namespace(&self) -> (namespace: Option<&String>)
        ensures
            namespace is Some == self@.namespace is Some,
            namespace matches Some(ns) ==> self@.namespace == Some(ns@),
            self@.wf(),
    {
        match self {
            K8sResourceAddress::Pod(ns, _)
            | K8sResourceAddress::Service(ns, _)
            | K8sResourceAddress::Deployment(ns, _)
            | K8sResourceAddress::ConfigMap(ns, _)
            | K8sResourceAddress::Secret(ns, _)
            | K8sResourceAddress::PersistentVolumeClaim(ns, _)
            | K8sResourceAddress::Role(ns, _)
            | K8sResourceAddress::RoleBinding(ns, _) => Some(ns),
            K8sResourceAddress::Namespace(_)
            | K8sResourceAddress::PersistentVolume(_)
            | K8sResourceAddress::ClusterRole(_)
            | K8sResourceAddress::ClusterRoleBinding(_) => None,
        }
    }

    /// The resource's own name.
    pub fn name(&self) -> (name: &String)
        ensures
            name@ == self@.name,
    {
        match self {
            K8sResourceAddress::Pod(_, name)
            | K8sResourceAddress::Service(_, name)
            | K8sResourceAddress::Deployment(_, name)
            | K8sResourceAddress::ConfigMap(_, name)
            | K8sResourceAddress::Secret(_, name)
            | K8sResourceAddress::PersistentVolumeClaim(_, name)
            | K8sResourceAddress::Role(_, name)
            | K8sResourceAddress::RoleBinding(_, name) => name,
            K8sResourceAddress::Namespace(name)
            | K8sResourceAddress::PersistentVolume(name)
            | K8sResourceAddress::ClusterRole(name)
            | K8sResourceAddress::ClusterRoleBinding(name) => name,
        }
    }

    /// The name by which the resource is known in its cluster: `name`, or
    /// `namespace/name` for the kinds that carry a namespace.
    pub fn scoped_name(&self) -> (scoped: String)
        ensures
            scoped@ == self@.scoped_name(),
    {
        match self.namespace() {
            Some(ns) => {
                let mut scoped = ns.clone();
                proof {
                    reveal_strlit("/");
                    assert("/"@ =~= seq!['/']);
                }
                scoped.append("/");
                scoped.append(self.name().as_str());
                scoped
            },
            None => self.name().clone(),
        }
    }

    /// The address of the resource of `kind` called `name`, in `namespace`
    /// where the kind carries one. For the other kinds `namespace` is not
    /// looked at.
    pub fn new(kind: ResourceKind, namespace: String, name: String) -> (addr: Self)
        ensures
            addr@.kind == kind,
            addr@.name == name@,
            addr@.namespace == if kind.spec_carries_namespace() {
                Some(namespace@)
            } else {
                None
            },
            addr@.wf(),
    {
        match kind {
            ResourceKind::Namespace => K8sResourceAddress::Namespace(name),
            ResourceKind::Pod => K8sResourceAddress::Pod(namespace, name),
            ResourceKind::Service => K8sResourceAddress::Service(namespace, name),
            ResourceKind::Deployment => K8sResourceAddress::Deployment(namespace, name),
            ResourceKind::ConfigMap => K8sResourceAddress::ConfigMap(namespace, name),
            ResourceKind::Secret => K8sResourceAddress::Secret(namespace, name),
            ResourceKind::PersistentVolumeClaim => K8sResourceAddress::PersistentVolumeClaim(
                namespace,
                name,
            ),
            ResourceKind::PersistentVolume => K8sResourceAddress::PersistentVolume(name),
            ResourceKind::Role => K8sResourceAddress::Role(namespace, name),
            ResourceKind::RoleBinding => K8sResourceAddress::RoleBinding(namespace, name),
            ResourceKind::ClusterRole => K8sResourceAddress::ClusterRole(name),
            ResourceKind::ClusterRoleBinding => K8sResourceAddress::ClusterRoleBinding(name),
        }
    }
}

/// Appends a separator and `segment` to a path.
fn push_segment(out: &mut String, segment: &str, Ghost(segs): Ghost<Seq<Seq<char>>>)
    requires
        segs.len() >= 1,
        old(out)@ == join(segs),
    ensures
        final(out)@ == join(segs.push(segment@)),
{
    proof {
        reveal_strlit("/");
        assert("/"@ =~= seq!['/']);
        lemma_join_push(segs, segment@);
    }
    out.append("/");
    out.append(segment);
}

/// Appends a separator and the file name `stem` with the extension `ext` to
/// a path.
fn push_file(out: &mut String, stem: &str, ext: &str, Ghost(segs): Ghost<Seq<Seq<char>>>)
    requires
        segs.len() >= 1,
        old(out)@ == join(segs),
    ensures
        final(out)@ == join(segs.push(stem@ + ext@)),
{
    proof {
        reveal_strlit("/");
        assert("/"@ =~= seq!['/']);
        lemma_join_push(segs, stem@ + ext@);
        assert(join(segs) + seq!['/'] + stem@ + ext@ =~= join(segs) + seq!['/'] + (stem@ + ext@));
    }
    out.append("/");
    out.append(stem);
    out.append(ext);
}

/// Appends the segments of `addr` to the path made of `prefix`.
fn push_resource(
    out: &mut String,
    addr: &K8sResourceAddress,
    backend: SerdeBackend,
    Ghost(prefix): Ghost<Seq<Seq<char>>>,
)
    requires
        prefix.len() >= 1,
        old(out)@ == join(prefix),
    ensures
        final(out)@ == join(prefix + resource_segments(addr@, backend.spec_extension())),
{
    let ghost rest = resource_segments(addr@, backend.spec_extension());
    let kind = addr.kind();
    match addr.namespace() {
        Some(ns) => {
            push_segment(out, "ns", Ghost(prefix));
            push_segment(out, ns.as_str(), Ghost(prefix.push("ns"@)));
            push_segment(out, kind.segment(), Ghost(prefix.push("ns"@).push(ns@)));
            push_file(
                out,
                addr.name().as_str(),
                backend.extension(),
                Ghost(prefix.push("ns"@).push(ns@).push(kind.spec_segment())),
            );
            proof {
                assert(prefix.push("ns"@).push(ns@).push(kind.spec_segment()).push(
                    addr@.name + backend.spec_extension(),
                ) =~= prefix + rest);
            }
        },
        None => {
            if kind == ResourceKind::Namespace {
                push_segment(out, "ns", Ghost(prefix));
                push_segment(out, addr.name().as_str(), Ghost(prefix.push("ns"@)));
                push_file(
                    out,
                    "ns",
                    backend.extension(),
                    Ghost(prefix.push("ns"@).push(addr@.name)),
                );
                proof {
                    assert(prefix.push("ns"@).push(addr@.name).push(
                        "ns"@ + backend.spec_extension(),
                    ) =~= prefix + rest);
                }
            } else {
                push_segment(out, kind.segment(), Ghost(prefix));
                push_file(
                    out,
                    addr.name().as_str(),
                    backend.extension(),
                    Ghost(prefix.push(kind.spec_segment())),
                );
                proof {
                    assert(prefix.push(kind.spec_segment()).push(
                        addr@.name + backend.spec_extension(),
                    ) =~= prefix + rest);
                }
            }
        },
    }
}

/// The text of `path` from character `from` up to character `to`.
fn text_between(path: &str, from: usize, to: usize) -> (text: String)
    requires
        from <= to <= path@.len(),
    ensures
        text@ == path@.subrange(from as int, to as int),
{
    String::from_str(path.substring_char(from, to))
}

/// Reads the address that the segments from number `first` on stand for.
fn parse_from(
    path: &str,
    chars: &Vec<char>,
    bounds: &Vec<(usize, usize)>,
    first: usize,
    backend: SerdeBackend,
) -> (addr: Option<K8sResourceAddress>)
    requires
        chars@ == path@,
        bounds_within(bounds@, chars@.len()),
        first <= bounds@.len(),
    ensures
        resource_option_view(addr) == parse_segments(
            segments_at(chars@, bounds@).skip(first as int),
            backend,
        ),
{
    let ghost segs = segments_at(chars@, bounds@).skip(first as int);
    let count: usize = bounds.len() - first;
    if count == 3 {
        let (from0, to0) = bounds[first];
        let (from1, to1) = bounds[first + 1];
        let (from2, to2) = bounds[first + 2];
        proof {
            assert(segs[0] == chars@.subrange(from0 as int, to0 as int));
            assert(segs[1] == chars@.subrange(from1 as int, to1 as int));
            assert(segs[2] == chars@.subrange(from2 as int, to2 as int));
        }
        if range_is(chars, from0, to0, "ns") {
            match stem_end(chars, from2, to2, backend) {
                Some(cut) => {
                    if range_is(chars, from2, cut, "ns") {
                        return Some(
                            K8sResourceAddress::Namespace(text_between(path, from1, to1)),
                        );
                    }
                },
                None => {},
            }
        }
        None
    } else if count == 4 {
        let (from0, to0) = bounds[first];
        let (from1, to1) = bounds[first + 1];
        let (from2, to2) = bounds[first + 2];
        let (from3, to3) = bounds[first + 3];
        proof {
            assert(segs[0] == chars@.subrange(from0 as int, to0 as int));
            assert(segs[1] == chars@.subrange(from1 as int, to1 as int));
            assert(segs[2] == chars@.subrange(from2 as int, to2 as int));
            assert(segs[3] == chars@.subrange(from3 as int, to3 as int));
        }
        if range_is(chars, from0, to0, "ns") {
            match (namespaced_kind_at(chars, from2, to2), stem_end(chars, from3, to3, backend)) {
                (Some(kind), Some(cut)) => {
                    proof {
                        lemma_namespaced_kind_of_segment(kind, segs[2]);
                    }
                    return Some(
                        K8sResourceAddress::new(
                            kind,
                            text_between(path, from1, to1),
                            text_between(path, from3, cut),
                        ),
                    );
                },
                _ => {},
            }
        }
        None
    } else if count == 2 {
        let (from0, to0) = bounds[first];
        let (from1, to1) = bounds[first + 1];
        proof {
            assert(segs[0] == chars@.subrange(from0 as int, to0 as int));
            assert(segs[1] == chars@.subrange(from1 as int, to1 as int));
        }
        match (cluster_kind_at(chars, from0, to0), stem_end(chars, from1, to1, backend)) {
            (Some(kind), Some(cut)) => {
                proof {
                    lemma_cluster_kind_of_segment(kind, segs[0]);
                }
                Some(K8sResourceAddress::new(kind, String::new(), text_between(path, from1, cut)))
            },
            _ => None,
        }
    } else {
        None
    }
}

impl K8sResourceAddress {
    /// The path that stands for the address when files are written in the
    /// format `backend`.
    pub fn encode(&self, backend: SerdeBackend) -> (path: String)
        ensures
            path@ == resource_path(self@, backend),
    {
        let mut path = String::from_str("k8s");
        let ghost root = seq![root_segment()];
        push_resource(&mut path, self, backend, Ghost(root));
        path
    }

    /// The address that `path` stands for when files are written in the
    /// format `backend`, or `None` where `path` is not the path of a
    /// resource.
    pub fn decode(path: &str, backend: SerdeBackend) -> (addr: Option<Self>)
        ensures
            resource_option_view(addr) == resource_at(path@, backend),
    {
        let chars = to_chars(path);
        let bounds = split_bounds(&chars);
        proof {
            crate::path::lemma_split_shape(chars@);
        }
        let (from, to) = bounds[0];
        if range_is(&chars, from, to, "k8s") {
            parse_from(path, &chars, &bounds, 1, backend)
        } else {
            None
        }
    }

    /// The path that stands for the address in the configured format.
    pub fn to_path_buf(&self) -> (path: String)
        ensures
            path@ == resource_path(self@, SERDE),
    {
        self.encode(SERDE)
    }

    /// The address that `path` stands for in the configured format. A path
    /// that matches no pattern of the grammar is an invalid address.
    pub fn from_path(path: &str) -> (result: Result<Self, ConnectorError>)
        ensures
            match result {
                Ok(addr) => resource_at(path@, SERDE) == Some(addr@),
                Err(e) => resource_at(path@, SERDE) is None && e.is_invalid_address_of(path@),
            },
    {
        match Self::decode(path, SERDE) {
            Some(addr) => Ok(addr),
            None => Err(ConnectorError::InvalidAddress { path: String::from_str(path) }),
        }
    }
}

impl K8sClusterAddress {
    /// The path that stands for the address when files are written in the
    /// format `backend`.
    pub fn encode(&self, backend: SerdeBackend) -> (path: String)
        ensures
            path@ == cluster_path(self@, backend),
    {
        let mut path = String::from_str("k8s");
        let ghost root = seq![root_segment()];
        let ghost prefix = seq![root_segment(), self.cluster@];
        push_segment(&mut path, self.cluster.as_str(), Ghost(root));
        proof {
            assert(root.push(self.cluster@) =~= prefix);
        }
        push_resource(&mut path, &self.res_addr, backend, Ghost(prefix));
        path
    }

    /// The address that `path` stands for when files are written in the
    /// format `backend`, or `None` where `path` is not the path of a
    /// resource in a cluster.
    pub fn decode(path: &str, backend: SerdeBackend) -> (addr: Option<Self>)
        ensures
            cluster_option_view(addr) == cluster_resource_at(path@, backend),
    {
        let chars = to_chars(path);
        let bounds = split_bounds(&chars);
        proof {
            crate::path::lemma_split_shape(chars@);
        }
        if bounds.len() < 2 {
            return None;
        }
        let (from, to) = bounds[0];
        let (cluster_from, cluster_to) = bounds[1];
        if range_is(&chars, from, to, "k8s") {
            match parse_from(path, &chars, &bounds, 2, backend) {
                Some(res_addr) => Some(
                    K8sClusterAddress {
                        cluster: text_between(path, cluster_from, cluster_to),
                        res_addr,
                    },
                ),
                None => None,
            }
        } else {
            None
        }
    }

    /// The path that stands for the address in the configured format.
    pub fn to_path_buf(&self) -> (path: String)
        ensures
            path@ == cluster_path(self@, SERDE),
    {
        self.encode(SERDE)
    }

    /// The address that `path` stands for in the configured format. A path
    /// that matches no pattern of the grammar is an invalid address.
    pub fn from_path(path: &str) -> (result: Result<Self, ConnectorError>)
        ensures
            match result {
                Ok(addr) => cluster_resource_at(path@, SERDE) == Some(addr@),
                Err(e) => cluster_resource_at(path@, SERDE) is None && e.is_invalid_address_of(
                    path@,
                ),
            },
    {
        match Self::decode(path, SERDE) {
            Some(addr) => Ok(addr),
            None => Err(ConnectorError::InvalidAddress { path: String::from_str(path) }),
        }
    }
}

} // verus!
