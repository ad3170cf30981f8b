//! Resources held in the typed shape of their kind.

use vstd::prelude::*;

use crate::document::Document;
use crate::document::Node;
use crate::kind::ResourceKind;
use crate::text::same_text;
use crate::yaml::failure_of;
use crate::yaml::parse;
use crate::yaml::shape_cluster_role;
use crate::yaml::shape_cluster_role_binding;
use crate::yaml::shape_config_map;
use crate::yaml::shape_deployment;
use crate::yaml::shape_namespace;
use crate::yaml::shape_persistent_volume;
use crate::yaml::shape_persistent_volume_claim;
use crate::yaml::shape_pod;
use crate::yaml::shape_role;
use crate::yaml::shape_role_binding;
use crate::yaml::shape_secret;
use crate::yaml::shape_service;
use crate::yaml::shaped_yaml;
use crate::yaml::yaml_document;
use crate::yaml::FailureView;
use crate::yaml::ParseFailure;

verus! {

/// A resource of one kind, held as its definition: the YAML text of what the
/// kind's typed shape makes of it. Two texts that say the same of a resource,
/// in whatever order, have the same definition.
#[derive(Debug, Clone, PartialEq, Eq)]
pub enum K8sResource {
    Namespace(String),
    Pod(String),
    Service(String),
    Deployment(String),
    ConfigMap(String),
    Secret(String),
    PersistentVolumeClaim(String),
    PersistentVolume(String),
    Role(String),
    RoleBinding(String),
    ClusterRole(String),
    ClusterRoleBinding(String),
}

/// What reading `text` as a resource of `kind` gives: the kind and the
/// definition, or what the reader says against the text.
pub open spec fn resource_of(kind: ResourceKind, text: Seq<char>) -> Result<
    (ResourceKind, Seq<char>),
    FailureView,
> {
    match shaped_yaml(kind, text) {
        Ok(definition) => Ok((kind, definition)),
        Err(failure) => Err(failure),
    }
}

/// Whether `read` is what reading a resource gave, as `expected` has it.
pub open spec fn resource_reads_as(
    read: Result<K8sResource, ParseFailure>,
    expected: Result<(ResourceKind, Seq<char>), FailureView>,
) -> bool {
    match (read, expected) {
        (Ok(resource), Ok(held)) => resource@ == held,
        (Err(failure), Err(said)) => failure@ == said,
        _ => false,
    }
}

/// The generic document of a definition, or the reader's words against it.
pub open spec fn document_of_definition(definition: Seq<char>) -> Result<Node, FailureView> {
    match yaml_document(definition) {
        Ok(doc) => Ok(doc),
        Err(message) => Err(failure_of(message)),
    }
}

impl View for K8sResource {
    type V = (ResourceKind, Seq<char>);

    open spec fn view(&self) -> (ResourceKind, Seq<char>) {
        (self.spec_kind(), self.spec_definition())
    }
}

impl K8sResource {
    /// The kind whose shape the resource has.
    pub open spec fn spec_kind(self) -> ResourceKind {
        match self {
            K8sResource::Namespace(_) => ResourceKind::Namespace,
            K8sResource::Pod(_) => ResourceKind::Pod,
            K8sResource::Service(_) => ResourceKind::Service,
            K8sResource::Deployment(_) => ResourceKind::Deployment,
            K8sResource::ConfigMap(_) => ResourceKind::ConfigMap,
            K8sResource::Secret(_) => ResourceKind::Secret,
            K8sResource::PersistentVolumeClaim(_) => ResourceKind::PersistentVolumeClaim,
            K8sResource::PersistentVolume(_) => ResourceKind::PersistentVolume,
            K8sResource::Role(_) => ResourceKind::Role,
            K8sResource::RoleBinding(_) => ResourceKind::RoleBinding,
            K8sResource::ClusterRole(_) => ResourceKind::ClusterRole,
            K8sResource::ClusterRoleBinding(_) => ResourceKind::ClusterRoleBinding,
        }
    }

    /// The definition of the resource.
    pub open spec fn spec_definition(self) -> Seq<char> {
        match self {
            K8sResource::Namespace(definition)
            | K8sResource::Pod(definition)
            | K8sResource::Service(definition)
            | K8sResource::Deployment(definition)
            | K8sResource::ConfigMap(definition)
            | K8sResource::Secret(definition)
            | K8sResource::PersistentVolumeClaim(definition)
            | K8sResource::PersistentVolume(definition)
            | K8sResource::Role(definition)
            | K8sResource::RoleBinding(definition)
            | K8sResource::ClusterRole(definition)
            | K8sResource::ClusterRoleBinding(definition) => definition@,
        }
    }

    /// The kind whose shape the resource has.
    pub fn kind(&self) -> (kind: ResourceKind)
        ensures
            kind == self.spec_kind(),
    {
        match self {
            K8sResource::Namespace(_) => ResourceKind::Namespace,
            K8sResource::Pod(_) => ResourceKind::Pod,
            K8sResource::Service(_) => ResourceKind::Service,
            K8sResource::Deployment(_) => ResourceKind::Deployment,
            K8sResource::ConfigMap(_) => ResourceKind::ConfigMap,
            K8sResource::Secret(_) => ResourceKind::Secret,
            K8sResource::PersistentVolumeClaim(_) => ResourceKind::PersistentVolumeClaim,
            K8sResource::PersistentVolume(_) => ResourceKind::PersistentVolume,
            K8sResource::Role(_) => ResourceKind::Role,
            K8sResource::RoleBinding(_) => ResourceKind::RoleBinding,
            K8sResource::ClusterRole(_) => ResourceKind::ClusterRole,
            K8sResource::ClusterRoleBinding(_) => ResourceKind::ClusterRoleBinding,
        }
    }

    /// The definition of the resource.
    pub fn definition(&self) -> (definition: &String)
        ensures
            definition@ == self.spec_definition(),
    {
        match self {
            K8sResource::Namespace(definition)
            | K8sResource::Pod(definition)
            | K8sResource::Service(definition)
            | K8sResource::Deployment(definition)
            | K8sResource::ConfigMap(definition)
            | K8sResource::Secret(definition)
            | K8sResource::PersistentVolumeClaim(definition)
            | K8sResource::PersistentVolume(definition)
            | K8sResource::Role(definition)
            | K8sResource::RoleBinding(definition)
            | K8sResource::ClusterRole(definition)
            | K8sResource::ClusterRoleBinding(definition) => definition,
        }
    }

    /// The resource of `kind` with the definition `definition`.
    pub fn new(kind: ResourceKind, definition: String) -> (resource: Self)
        ensures
            resource@ == (kind, definition@),
    {
        match kind {
            ResourceKind::Namespace => K8sResource::Namespace(definition),
            ResourceKind::Pod => K8sResource::Pod(definition),
            ResourceKind::Service => K8sResource::Service(definition),
            ResourceKind::Deployment => K8sResource::Deployment(definition),
            ResourceKind::ConfigMap => K8sResource::ConfigMap(definition),
            ResourceKind::Secret => K8sResource::Secret(definition),
            ResourceKind::PersistentVolumeClaim => K8sResource::PersistentVolumeClaim(definition),
            ResourceKind::PersistentVolume => K8sResource::PersistentVolume(definition),
            ResourceKind::Role => K8sResource::Role(definition),
            ResourceKind::RoleBinding => K8sResource::RoleBinding(definition),
            ResourceKind::ClusterRole => K8sResource::ClusterRole(definition),
            ResourceKind::ClusterRoleBinding => K8sResource::ClusterRoleBinding(definition),
        }
    }

    /// Reads `text` as a resource of `kind`. Every kind is read in its own
    /// typed shape. A text that has the shape gives the resource of that kind
    /// with the definition that the shape makes of the text; any other text
    /// gives what the reader says against it.
    pub fn from_str(kind: ResourceKind, text: &str) -> (read: Result<Self, ParseFailure>)
        ensures
            resource_reads_as(read, resource_of(kind, text@)),
    {
        let shaped = match kind {
            ResourceKind::Namespace => shape_namespace(text),
            ResourceKind::Pod => shape_pod(text),
            ResourceKind::Service => shape_service(text),
            ResourceKind::Deployment => shape_deployment(text),
            ResourceKind::ConfigMap => shape_config_map(text),
            ResourceKind::Secret => shape_secret(text),
            ResourceKind::PersistentVolumeClaim => shape_persistent_volume_claim(text),
            ResourceKind::PersistentVolume => shape_persistent_volume(text),
            ResourceKind::Role => shape_role(text),
            ResourceKind::RoleBinding => shape_role_binding(text),
            ResourceKind::ClusterRole => shape_cluster_role(text),
            ResourceKind::ClusterRoleBinding => shape_cluster_role_binding(text),
        };
        match shaped {
            Ok(definition) => Ok(K8sResource::new(kind, definition)),
            Err(failure) => Err(failure),
        }
    }

    /// The resource as a generic document: the document that its definition
    /// stands for, or the reader's words against the definition.
    pub fn to_document(&self) -> (doc: Result<Document, ParseFailure>)
        ensures
            match document_of_definition(self.spec_definition()) {
                Ok(expected) => doc matches Ok(read) && read@ == expected,
                Err(said) => doc matches Err(failure) && failure@ == said,
            },
    {
        match parse(self.definition().as_str()) {
            Ok(doc) => Ok(doc),
            Err(message) => Err(ParseFailure { message, location: None }),
        }
    }

    /// Whether the two resources are equal: of the same kind, with the same
    /// definition.
    pub fn same_as(&self, other: &K8sResource) -> (equal: bool)
        ensures
            equal == (self@ == other@),
    {
        self.kind() == other.kind() && same_text(
            self.definition().as_str(),
            other.definition().as_str(),
        )
    }
}

} // verus!
