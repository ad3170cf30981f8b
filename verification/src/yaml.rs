//! Reading and writing documents as YAML, and holding a text to the shape
//! that a kind of resource has.
//!
//! Everything here is done by `serde_yaml`, on the types of `k8s_openapi`.
//! None of it is verified: each function says in its comment what is taken
//! on trust.

use vstd::prelude::*;

use crate::document::Document;
use crate::document::Node;
use crate::kind::ResourceKind;

verus! {

#[verifier::external_type_specification]
#[verifier::external_body]
pub struct ExValue(serde_yaml::Value);

/// Why a text could not be read.
#[derive(Debug, PartialEq, Eq)]
pub struct ParseFailure {
    /// What the reader said.
    pub message: String,
    /// The line and the column at which it gave up, where it said so.
    pub location: Option<(usize, usize)>,
}

/// What a failure to read a text says.
pub struct FailureView {
    pub message: Seq<char>,
    pub location: Option<(usize, usize)>,
}

impl View for ParseFailure {
    type V = FailureView;

    open spec fn view(&self) -> FailureView {
        FailureView { message: self.message@, location: self.location }
    }
}

/// The failure that has only words to it, and no place in the text.
pub open spec fn failure_of(message: Seq<char>) -> FailureView {
    FailureView { message, location: None }
}

/// The definition, as YAML text, of the resource of `kind` that the YAML
/// text `text` holds: what is left of the text once it was read in the typed
/// shape of the kind and written again. Where the text does not have that
/// shape, what the reader says against it.
pub uninterp spec fn shaped_yaml(kind: ResourceKind, text: Seq<char>) -> Result<
    Seq<char>,
    FailureView,
>;

/// Whether `read` is what the reader said, as `named` has it.
pub open spec fn reads_as(read: Result<String, ParseFailure>, named: Result<Seq<char>, FailureView>)
    -> bool {
    match (read, named) {
        (Ok(text), Ok(expected)) => text@ == expected,
        (Err(failure), Err(expected)) => failure@ == expected,
        _ => false,
    }
}

/// The document that the YAML text `text` stands for, or what the reader
/// says against it.
pub uninterp spec fn yaml_document(text: Seq<char>) -> Result<Node, Seq<char>>;

/// The YAML text that stands for the document `doc`, or what the writer says
/// against it.
pub uninterp spec fn yaml_text(doc: Node) -> Result<Seq<char>, Seq<char>>;

/// Turns what `serde_yaml` has read into a document: text stays text, a
/// mapping becomes its entries in their order, anything else is carried as
/// it is.
///
/// Trusted: nothing is claimed of the result.
#[verifier::external_body]
fn document_of(value: serde_yaml::Value) -> Document {
    match value {
        serde_yaml::Value::String(text) => Document::String(text),
        serde_yaml::Value::Mapping(entries) => Document::Mapping(
            entries.into_iter().map(|(k, v)| (document_of(k), document_of(v))).collect(),
        ),
        other => Document::Other(other),
    }
}

/// Turns a document into what `serde_yaml` writes: the reverse of
/// `document_of`.
///
/// Trusted: nothing is claimed of the result.
#[verifier::external_body]
fn value_of(doc: Document) -> serde_yaml::Value {
    match doc {
        Document::String(text) => serde_yaml::Value::String(text),
        Document::Mapping(entries) => serde_yaml::Value::Mapping(
            entries.into_iter().map(|(k, v)| (value_of(k), value_of(v))).collect(),
        ),
        Document::Other(value) => value,
    }
}

/// Reads `text` with `serde_yaml::from_str`.
///
/// Trusted: what is read depends on the text alone, so it is given the name
/// `yaml_document`; nothing more is claimed of it. The reader reports what
/// it cannot read as an error and does not panic.
#[verifier::external_body]
pub(crate) fn parse(text: &str) -> (read: Result<Document, String>)
    ensures
        match read {
            Ok(doc) => yaml_document(text@) == Ok::<Node, Seq<char>>(doc@),
            Err(message) => yaml_document(text@) == Err::<Node, Seq<char>>(message@),
        },
{
    match serde_yaml::from_str::<serde_yaml::Value>(text) {
        Ok(value) => Ok(document_of(value)),
        Err(error) => Err(error.to_string()),
    }
}

/// Writes `doc` with `serde_yaml::to_string`.
///
/// Trusted: what is written depends on the document alone, so it is given
/// the name `yaml_text`; nothing more is claimed of it.
#[verifier::external_body]
pub(crate) fn render(doc: Document) -> (written: Result<String, String>)
    ensures
        match written {
            Ok(text) => yaml_text(doc@) == Ok::<Seq<char>, Seq<char>>(text@),
            Err(message) => yaml_text(doc@) == Err::<Seq<char>, Seq<char>>(message@),
        },
{
    match serde_yaml::to_string(&value_of(doc)) {
        Ok(text) => Ok(text),
        Err(error) => Err(error.to_string()),
    }
}

/// Reads `text` as a value of the type `T` with `serde_yaml::from_str` and
/// writes that value again with `serde_yaml::to_string`.
///
/// Trusted: nothing is claimed of the result here; each kind's reader below
/// gives it its name. The reader reports what does not have the shape of `T`
/// as an error, with the place where it gave up, and does not panic.
#[verifier::external_body]
fn canonical<T: serde::de::DeserializeOwned + serde::Serialize>(text: &str) -> (read: Result<
    String,
    ParseFailure,
>) {
    let message = |error: &serde_yaml::Error| error.to_string();
    match serde_yaml::from_str::<T>(text) {
        Ok(value) => match serde_yaml::to_string(&value) {
            Ok(written) => Ok(written),
            Err(error) => Err(ParseFailure { message: message(&error), location: None }),
        },
        Err(error) => Err(
            ParseFailure {
                message: message(&error),
                location: error.location().map(|at| (at.line(), at.column())),
            },
        ),
    }
}

/// Reads `text` in the shape `k8s_openapi::api::core::v1::Namespace`.
///
/// Trusted, as for each of the eleven readers that follow: what comes back
/// depends on the kind and the text alone, so it is given the name
/// `shaped_yaml`; nothing more is claimed of it.
#[verifier::external_body]
pub(crate) fn shape_namespace(text: &str) -> (read: Result<String, ParseFailure>)
    ensures
        reads_as(read, shaped_yaml(ResourceKind::Namespace, text@)),
{
    canonical::<k8s_openapi::api::core::v1::Namespace>(text)
}

/// Reads `text` in the shape `k8s_openapi::api::core::v1::Pod`.
#[verifier::external_body]
pub(crate) fn shape_pod(text: &str) -> (read: Result<String, ParseFailure>)
    ensures
        reads_as(read, shaped_yaml(ResourceKind::Pod, text@)),
{
    canonical::<k8s_openapi::api::core::v1::Pod>(text)
}

/// Reads `text` in the shape `k8s_openapi::api::core::v1::Service`.
#[verifier::external_body]
pub(crate) fn shape_service(text: &str) -> (read: Result<String, ParseFailure>)
    ensures
        reads_as(read, shaped_yaml(ResourceKind::Service, text@)),
{
    canonical::<k8s_openapi::api::core::v1::Service>(text)
}

/// Reads `text` in the shape `k8s_openapi::api::apps::v1::Deployment`.
#[verifier::external_body]
pub(crate) fn shape_deployment(text: &str) -> (read: Result<String, ParseFailure>)
    ensures
        reads_as(read, shaped_yaml(ResourceKind::Deployment, text@)),
{
    canonical::<k8s_openapi::api::apps::v1::Deployment>(text)
}

/// Reads `text` in the shape `k8s_openapi::api::core::v1::ConfigMap`.
#[verifier::external_body]
pub(crate) fn shape_config_map(text: &str) -> (read: Result<String, ParseFailure>)
    ensures
        reads_as(read, shaped_yaml(ResourceKind::ConfigMap, text@)),
{
    canonical::<k8s_openapi::api::core::v1::ConfigMap>(text)
}

/// Reads `text` in the shape `k8s_openapi::api::core::v1::Secret`.
#[verifier::external_body]
pub(crate) fn shape_secret(text: &str) -> (read: Result<String, ParseFailure>)
    ensures
        reads_as(read, shaped_yaml(ResourceKind::Secret, text@)),
{
    canonical::<k8s_openapi::api::core::v1::Secret>(text)
}

/// Reads `text` in the shape
/// `k8s_openapi::api::core::v1::PersistentVolumeClaim`.
#[verifier::external_body]
pub(crate) fn shape_persistent_volume_claim(text: &str) -> (read: Result<String, ParseFailure>)
    ensures
        reads_as(read, shaped_yaml(ResourceKind::PersistentVolumeClaim, text@)),
{
    canonical::<k8s_openapi::api::core::v1::PersistentVolumeClaim>(text)
}

/// Reads `text` in the shape `k8s_openapi::api::core::v1::PersistentVolume`.
#[verifier::external_body]
pub(crate) fn shape_persistent_volume(text: &str) -> (read: Result<String, ParseFailure>)
    ensures
        reads_as(read, shaped_yaml(ResourceKind::PersistentVolume, text@)),
{
    canonical::<k8s_openapi::api::core::v1::PersistentVolume>(text)
}

/// Reads `text` in the shape `k8s_openapi::api::rbac::v1::Role`.
#[verifier::external_body]
pub(crate) fn shape_role(text: &str) -> (read: Result<String, ParseFailure>)
    ensures
        reads_as(read, shaped_yaml(ResourceKind::Role, text@)),
{
    canonical::<k8s_openapi::api::rbac::v1::Role>(text)
}

/// Reads `text` in the shape `k8s_openapi::api::rbac::v1::RoleBinding`.
#[verifier::external_body]
pub(crate) fn shape_role_binding(text: &str) -> (read: Result<String, ParseFailure>)
    ensures
        reads_as(read, shaped_yaml(ResourceKind::RoleBinding, text@)),
{
    canonical::<k8s_openapi::api::rbac::v1::RoleBinding>(text)
}

/// Reads `text` in the shape `k8s_openapi::api::rbac::v1::ClusterRole`.
#[verifier::external_body]
pub(crate) fn shape_cluster_role(text: &str) -> (read: Result<String, ParseFailure>)
    ensures
        reads_as(read, shaped_yaml(ResourceKind::ClusterRole, text@)),
{
    canonical::<k8s_openapi::api::rbac::v1::ClusterRole>(text)
}

/// Reads `text` in the shape `k8s_openapi::api::rbac::v1::ClusterRoleBinding`.
#[verifier::external_body]
pub(crate) fn shape_cluster_role_binding(text: &str) -> (read: Result<String, ParseFailure>)
    ensures
        reads_as(read, shaped_yaml(ResourceKind::ClusterRoleBinding, text@)),
{
    canonical::<k8s_openapi::api::rbac::v1::ClusterRoleBinding>(text)
}

} // verus!
