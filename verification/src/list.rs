//! Turning what a cluster lists into the paths of its resources.

use vstd::prelude::*;
use vstd::string::StringExecFns;

use crate::addr::AddressView;
use crate::addr::cluster_path;
use crate::addr::ClusterAddressView;
use crate::addr::K8sClusterAddress;
use crate::addr::K8sResourceAddress;
use crate::backend::SERDE;
use crate::kind::ResourceKind;

verus! {

/// The resources of one kind that a cluster has listed, within one
/// namespace where the kind has one. A resource whose name could not be made
/// out is listed as `None`.
#[derive(Debug, PartialEq, Eq)]
pub struct Listing {
    pub kind: ResourceKind,
    pub namespace: String,
    pub names: Vec<Option<String>>,
}

/// What a listing says.
pub struct ListingView {
    pub kind: ResourceKind,
    pub namespace: Seq<char>,
    pub names: Seq<Option<Seq<char>>>,
}

impl View for Listing {
    type V = ListingView;

    open spec fn view(&self) -> ListingView {
        ListingView {
            kind: self.kind,
            namespace: self.namespace@,
            names: Seq::new(
                self.names@.len(),
                |i: int|
                    match self.names@[i] {
                        Some(name) => Some(name@),
                        None => None,
                    },
            ),
        }
    }
}

/// The address of the resource of `kind` called `name`, in `namespace` where
/// the kind carries one.
pub open spec fn address_of(kind: ResourceKind, namespace: Seq<char>, name: Seq<char>)
    -> AddressView {
    AddressView {
        kind,
        namespace: if kind.spec_carries_namespace() {
            Some(namespace)
        } else {
            None
        },
        name,
    }
}

/// The paths of the first `count` resources of a listing, in order. A
/// resource without a name has no path.
pub open spec fn listed_paths(cluster: Seq<char>, listing: ListingView, count: int) -> Seq<
    Seq<char>,
>
    decreases count,
{
    if count <= 0 {
        Seq::empty()
    } else {
        let before = listed_paths(cluster, listing, count - 1);
        match listing.names[count - 1] {
            Some(name) => before.push(
                cluster_path(
                    ClusterAddressView {
                        cluster,
                        resource: address_of(listing.kind, listing.namespace, name),
                    },
                    SERDE,
                ),
            ),
            None => before,
        }
    }
}

/// The paths of the resources of the first `count` listings, in order.
pub open spec fn enumerated(cluster: Seq<char>, listings: Seq<ListingView>, count: int) -> Seq<
    Seq<char>,
>
    decreases count,
{
    if count <= 0 {
        Seq::empty()
    } else {
        enumerated(cluster, listings, count - 1) + listed_paths(
            cluster,
            listings[count - 1],
            listings[count - 1].names.len() as int,
        )
    }
}

/// The texts of a vector of strings.
pub open spec fn texts(strings: Seq<String>) -> Seq<Seq<char>> {
    Seq::new(strings.len(), |i: int| strings[i]@)
}

/// The views of a vector of listings.
pub open spec fn listing_views(listings: Seq<Listing>) -> Seq<ListingView> {
    Seq::new(listings.len(), |i: int| listings[i]@)
}

/// The kinds that exist once per cluster, in the order in which they are
/// listed.
pub fn cluster_scoped_kinds() -> (kinds: Vec<ResourceKind>)
    ensures
        kinds@ == seq![
            ResourceKind::ClusterRole,
            ResourceKind::ClusterRoleBinding,
            ResourceKind::PersistentVolume,
        ],
{
    let mut kinds: Vec<ResourceKind> = Vec::new();
    kinds.push(ResourceKind::ClusterRole);
    kinds.push(ResourceKind::ClusterRoleBinding);
    kinds.push(ResourceKind::PersistentVolume);
    kinds
}

/// The kinds that live in a namespace, in the order in which they are
/// listed within each.
pub fn namespaced_kinds() -> (kinds: Vec<ResourceKind>)
    ensures
        kinds@ == seq![
            ResourceKind::Pod,
            ResourceKind::Service,
            ResourceKind::Deployment,
            ResourceKind::ConfigMap,
            ResourceKind::Secret,
            ResourceKind::PersistentVolumeClaim,
            ResourceKind::Role,
            ResourceKind::RoleBinding,
        ],
        forall|i: int| 0 <= i < kinds@.len() ==> (#[trigger] kinds@[i]).spec_carries_namespace(),
{
    let mut kinds: Vec<ResourceKind> = Vec::new();
    kinds.push(ResourceKind::Pod);
    kinds.push(ResourceKind::Service);
    kinds.push(ResourceKind::Deployment);
    kinds.push(ResourceKind::ConfigMap);
    kinds.push(ResourceKind::Secret);
    kinds.push(ResourceKind::PersistentVolumeClaim);
    kinds.push(ResourceKind::Role);
    kinds.push(ResourceKind::RoleBinding);
    kinds
}

/// Appends to `paths` the path of every resource of `listing` that has a
/// name, in the order of the listing.
pub fn push_listed(cluster: &str, listing: &Listing, paths: &mut Vec<String>)
    ensures
        texts(final(paths)@) == texts(old(paths)@) + listed_paths(
            cluster@,
            listing@,
            listing@.names.len() as int,
        ),
{
    let ghost before = texts(paths@);
    let mut i: usize = 0;
    proof {
        assert(before + listed_paths(cluster@, listing@, 0) =~= before);
    }
    while i < listing.names.len()
        invariant
            i <= listing.names@.len(),
            listing@.names.len() == listing.names@.len(),
            texts(paths@) == before + listed_paths(cluster@, listing@, i as int),
        decreases listing.names.len() - i,
    {
        let ghost so_far = listed_paths(cluster@, listing@, i as int);
        match &listing.names[i] {
            Some(name) => {
                let addr = K8sClusterAddress {
                    cluster: String::from_str(cluster),
                    res_addr: K8sResourceAddress::new(
                        listing.kind,
                        listing.namespace.clone(),
                        name.clone(),
                    ),
                };
                let ghost old_paths = texts(paths@);
                let path = addr.to_path_buf();
                paths.push(path);
                proof {
                    assert(addr@.resource == address_of(listing@.kind, listing@.namespace, name@));
                    assert(listing@.names[i as int] == Some(name@));
                    assert(texts(paths@) =~= old_paths.push(path@));
                    assert(old_paths.push(path@) =~= before + so_far.push(path@));
                }
            },
            None => {
                proof {
                    assert(listing@.names[i as int] is None);
                }
            },
        }
        i += 1;
    }
}

/// The paths of all the resources that were listed in the cluster
/// `cluster`, in the order of the listings. A resource without a name is
/// passed over; the others are all there.
pub fn do_list(cluster: &str, listings: &Vec<Listing>) -> (paths: Vec<String>)
    ensures
        texts(paths@) == enumerated(cluster@, listing_views(listings@), listings@.len() as int),
{
    let mut paths: Vec<String> = Vec::new();
    let mut i: usize = 0;
    proof {
        assert(texts(paths@) =~= Seq::<Seq<char>>::empty());
    }
    while i < listings.len()
        invariant
            i <= listings@.len(),
            texts(paths@) == enumerated(cluster@, listing_views(listings@), i as int),
        decreases listings.len() - i,
    {
        proof {
            assert(listing_views(listings@)[i as int] == listings@[i as int]@);
        }
        push_listed(cluster, &listings[i], &mut paths);
        i += 1;
    }
    paths
}

} // verus!
