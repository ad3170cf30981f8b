//! The ways in which a request to the connector can fail.

use vstd::prelude::*;

use crate::kind::ResourceKind;

verus! {

/// Why a request failed. Every failure is handed to the caller; none is
/// recovered from here.
#[derive(Debug)]
pub enum ConnectorError {
    /// The path is not the path of a resource, where one was required.
    InvalidAddress { path: String },
    /// A buffer does not hold a resource of the kind that its address names.
    Deserialization { kind: ResourceKind, address: String, message: String },
    /// The kind can be addressed, but creating, patching and deleting it is
    /// not wired to the cluster.
    UnsupportedKind { kind: ResourceKind },
    /// The cluster, or the way to it, reported a failure.
    BackingService { message: String },
}

impl ConnectorError {
    /// Whether the error says that `path` is not the path of a resource.
    pub open spec fn is_invalid_address_of(self, path: Seq<char>) -> bool {
        self matches ConnectorError::InvalidAddress { path: p } && p@ == path
    }

    /// Whether the error says, in the words `message`, that a buffer for the
    /// resource at `path` does not hold a resource of `kind`.
    pub open spec fn is_unreadable_with(
        self,
        kind: ResourceKind,
        path: Seq<char>,
        message: Seq<char>,
    ) -> bool {
        self matches ConnectorError::Deserialization { kind: k, address, message: m } && k == kind
            && address@ == path && m@ == message
    }

    /// Whether the error says that changes to resources of `kind` are not
    /// wired to the cluster.
    pub open spec fn is_unsupported(self, kind: ResourceKind) -> bool {
        self matches ConnectorError::UnsupportedKind { kind: k } && k == kind
    }
}

} // verus!
