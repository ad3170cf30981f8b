//! What the connector answers to its host: whether a path is a resource,
//! what is planned for it, what carrying out an operation asks of the
//! cluster, and whether two definitions are equal or well-formed.
//!
//! Nothing here talks to a cluster. Whoever does hands in what was fetched
//! and carries out what comes back.

use vstd::prelude::*;
use vstd::string::StringExecFns;
use vstd::utf8::decode_utf8;

use crate::addr::cluster_resource_at;
use crate::addr::K8sClusterAddress;
use crate::backend::SERDE;
use crate::document::Document;
use crate::error::ConnectorError;
use crate::kind::ResourceKind;
use crate::neat::neat;
use crate::neat::neatify_resource;
use crate::op::K8sConnectorOp;
use crate::op::mutation;
use crate::op::Mutation;
use crate::op::mutation_of;
use crate::op::OpView;
use crate::op::plan;
use crate::op::plan_view;
use crate::op::planned;
use crate::op::PlanResponseElement;
use crate::resource::document_of_definition;
use crate::resource::resource_reads_as;
use crate::resource::K8sResource;
use crate::text::same_text;
use crate::text::utf8_text;
use crate::util::buffer_resource;
use crate::util::from_str_option;
use crate::util::get_ser_resource_output;
use crate::util::resource_output;
use crate::util::GetResourceResponse;
use crate::yaml::ParseFailure;
use crate::yaml::failure_of;
use crate::yaml::reads_as;
use crate::yaml::render;
use crate::yaml::shaped_yaml;
use crate::yaml::FailureView;
use crate::yaml::yaml_text;

verus! {

/// Whether `name` is the name that this connector goes by.
pub fn is_connector_name(name: &str) -> (ours: bool)
    ensures
        ours == (name@ == "k8s"@),
{
    same_text(name, "k8s")
}

/// What a path is to the connector.
#[derive(Clone, Copy, Debug, PartialEq, Eq, Structural)]
pub enum FilterResponse {
    /// The path of a resource.
    Resource,
    /// Nothing that the connector manages.
    Unmanaged,
}

/// Says whether `path` is the path of a resource. Every path gets an
/// answer: one that matches no pattern of the grammar is simply none of the
/// connector's.
pub fn filter(path: &str) -> (response: FilterResponse)
    ensures
        response == FilterResponse::Resource <==> cluster_resource_at(path@, SERDE) is Some,
{
    match K8sClusterAddress::decode(path, SERDE) {
        Some(_) => FilterResponse::Resource,
        None => FilterResponse::Unmanaged,
    }
}

/// The error for a buffer that does not hold a resource of `kind`.
fn unreadable(kind: ResourceKind, path: &str, failure: ParseFailure) -> (error: ConnectorError)
    ensures
        error.is_unreadable_with(kind, path@, failure.message@),
{
    ConnectorError::Deserialization {
        kind,
        address: String::from_str(path),
        message: failure.message,
    }
}

/// The text that an optional buffer holds.
pub open spec fn buffer_text(buffer: Option<Vec<u8>>) -> Option<Seq<char>> {
    match buffer {
        Some(bytes) => Some(decode_utf8(bytes@)),
        None => None,
    }
}

/// What is said against an optional buffer for a resource of `kind`, if
/// anything: nothing against no buffer, and nothing against one that can be
/// read.
pub open spec fn buffer_failure(kind: ResourceKind, buffer: Option<Vec<u8>>) -> Option<
    FailureView,
> {
    match buffer {
        Some(bytes) => match buffer_resource(kind, bytes@) {
            Ok(_) => None,
            Err(said) => Some(said),
        },
        None => None,
    }
}

/// What is said against the two states of a resource of `kind`, if
/// anything: against the current one first, then against the desired one.
pub open spec fn states_failure(
    kind: ResourceKind,
    current: Option<Vec<u8>>,
    desired: Option<Vec<u8>>,
) -> Option<FailureView> {
    match buffer_failure(kind, current) {
        Some(said) => Some(said),
        None => buffer_failure(kind, desired),
    }
}

/// Plans what is to be done to the resource at `path`, given its current
/// and its desired definition, where there are any. `diff` is how the two
/// differ, as it is to be shown with a patch.
///
/// A path that is no resource is an invalid address. Both definitions are
/// held to the shape of the resource's kind first; one that is not UTF-8
/// text, or that the reader turns down, fails the whole plan with the
/// reader's words. Otherwise the plan is the one of the table.
pub fn do_plan(path: &str, current: Option<Vec<u8>>, desired: Option<Vec<u8>>, diff: &str) -> (result:
    Result<Vec<PlanResponseElement>, ConnectorError>)
    ensures
        match cluster_resource_at(path@, SERDE) {
            None => result matches Err(e) && e.is_invalid_address_of(path@),
            Some(addr) => match states_failure(addr.resource.kind, current, desired) {
                None => result matches Ok(elements) && plan_view(elements@) == planned(
                    addr.resource,
                    buffer_text(current),
                    buffer_text(desired),
                    diff@,
                ),
                Some(said) => result matches Err(e) && e.is_unreadable_with(
                    addr.resource.kind,
                    path@,
                    said.message,
                ),
            },
        },
{
    let addr = match K8sClusterAddress::from_path(path) {
        Ok(addr) => addr,
        Err(e) => {
            return Err(e);
        },
    };
    let kind = addr.res_addr.kind();
    match from_str_option(kind, &current) {
        Ok(_) => {},
        Err(failure) => {
            return Err(unreadable(kind, path, failure));
        },
    }
    match from_str_option(kind, &desired) {
        Ok(_) => {},
        Err(failure) => {
            return Err(unreadable(kind, path, failure));
        },
    }
    let current_text = match &current {
        Some(bytes) => utf8_text(bytes.as_slice()),
        None => None,
    };
    let desired_text = match &desired {
        Some(bytes) => utf8_text(bytes.as_slice()),
        None => None,
    };
    Ok(plan(&addr.res_addr, current_text, desired_text, diff))
}

/// The YAML text of a document without what the cluster wrote into it.
pub fn neat_text(doc: Document) -> (text: Result<String, String>)
    ensures
        match text {
            Ok(written) => yaml_text(neat(doc@)) == Ok::<Seq<char>, Seq<char>>(written@),
            Err(message) => yaml_text(neat(doc@)) == Err::<Seq<char>, Seq<char>>(message@),
        },
{
    let mut doc = doc;
    neatify_resource(&mut doc);
    render(doc)
}

/// The two texts whose difference is shown with a patch of the resource at
/// `path`: its current and its desired definition, each in the shape of its
/// kind and without what the cluster wrote into it. There are none unless
/// both definitions are there.
pub fn plan_diff_inputs(path: &str, current: &Option<Vec<u8>>, desired: &Option<Vec<u8>>) -> (result:
    Result<Option<(String, String)>, ConnectorError>)
    ensures
        match cluster_resource_at(path@, SERDE) {
            None => result matches Err(e) && e.is_invalid_address_of(path@),
            Some(addr) => match (*current, *desired) {
                (Some(now), Some(wanted)) => match shaped_neat_text(addr.resource.kind, now@) {
                    Ok(before) => match shaped_neat_text(addr.resource.kind, wanted@) {
                        Ok(after) => result matches Ok(Some(texts)) && texts.0@ == before
                            && texts.1@ == after,
                        Err(said) => result matches Err(e) && e.is_unreadable_with(
                            addr.resource.kind,
                            path@,
                            said.message,
                        ),
                    },
                    Err(said) => result matches Err(e) && e.is_unreadable_with(
                        addr.resource.kind,
                        path@,
                        said.message,
                    ),
                },
                _ => result matches Ok(None),
            },
        },
{
    let addr = match K8sClusterAddress::from_path(path) {
        Ok(addr) => addr,
        Err(e) => {
            return Err(e);
        },
    };
    let kind = addr.res_addr.kind();
    if current.is_none() || desired.is_none() {
        return Ok(None);
    }
    let before = match shaped_text(kind, current) {
        Ok(text) => text,
        Err(failure) => {
            return Err(unreadable(kind, path, failure));
        },
    };
    let after = match shaped_text(kind, desired) {
        Ok(text) => text,
        Err(failure) => {
            return Err(unreadable(kind, path, failure));
        },
    };
    Ok(Some((before, after)))
}

/// The text of the resource of `kind` that the bytes `bytes` hold, without
/// what the cluster wrote into it: the bytes are read as a resource, the
/// resource's definition as a document, and the document is normalised and
/// written again. Whatever step fails, its words are handed on.
pub open spec fn shaped_neat_text(kind: ResourceKind, bytes: Seq<u8>) -> Result<
    Seq<char>,
    FailureView,
> {
    match buffer_resource(kind, bytes) {
        Ok(held) => match document_of_definition(held.1) {
            Ok(doc) => match yaml_text(neat(doc)) {
                Ok(text) => Ok(text),
                Err(message) => Err(failure_of(message)),
            },
            Err(said) => Err(said),
        },
        Err(said) => Err(said),
    }
}

/// Reads a buffer as a resource of `kind` and writes it out again without
/// what the cluster wrote into it.
fn shaped_text(kind: ResourceKind, buffer: &Option<Vec<u8>>) -> (text: Result<String, ParseFailure>)
    requires
        buffer is Some,
    ensures
        reads_as(text, shaped_neat_text(kind, buffer->0@)),
{
    match from_str_option(kind, buffer) {
        Ok(Some(resource)) => match resource.to_document() {
            Ok(doc) => match neat_text(doc) {
                Ok(text) => Ok(text),
                Err(message) => Err(ParseFailure { message, location: None }),
            },
            Err(failure) => Err(failure),
        },
        Ok(None) => Err(
            ParseFailure { message: String::from_str("there is no buffer"), location: None },
        ),
        Err(failure) => Err(failure),
    }
}

/// What is said against the definition that `op` carries for a resource of
/// `kind`, if anything. A deletion carries none.
pub open spec fn body_failure(kind: ResourceKind, op: OpView) -> Option<FailureView> {
    match op {
        OpView::Create(body) | OpView::Patch(body) => match shaped_yaml(kind, body) {
            Ok(_) => None,
            Err(said) => Some(said),
        },
        OpView::Delete => None,
    }
}

/// Says what carrying out `op` on the resource at `path` asks of the
/// cluster.
///
/// A path that is no resource is an invalid address. A kind whose changes
/// are not wired to the cluster is unsupported, whatever the operation. The
/// definition that a creation or a patch carries is held to the shape of the
/// kind first. Where there is a change, it is exactly the one that the
/// operation stands for.
pub fn do_op_exec(path: &str, op: K8sConnectorOp) -> (result: Result<Mutation, ConnectorError>)
    ensures
        match cluster_resource_at(path@, SERDE) {
            None => result matches Err(e) && e.is_invalid_address_of(path@),
            Some(addr) => if !addr.resource.kind.spec_supports_mutation() {
                result matches Err(e) && e.is_unsupported(addr.resource.kind)
            } else {
                match body_failure(addr.resource.kind, op@) {
                    None => result matches Ok(change) && change@ == mutation_of(
                        addr.resource,
                        op@,
                    ),
                    Some(said) => result matches Err(e) && e.is_unreadable_with(
                        addr.resource.kind,
                        path@,
                        said.message,
                    ),
                }
            },
        },
{
    let addr = match K8sClusterAddress::from_path(path) {
        Ok(addr) => addr,
        Err(e) => {
            return Err(e);
        },
    };
    let kind = addr.res_addr.kind();
    if !kind.supports_mutation() {
        return Err(ConnectorError::UnsupportedKind { kind });
    }
    let checked = match &op {
        K8sConnectorOp::Create(body) => K8sResource::from_str(kind, body.as_str()),
        K8sConnectorOp::Patch(body) => K8sResource::from_str(kind, body.as_str()),
        K8sConnectorOp::Delete => {
            return Ok(mutation(&addr.res_addr, op));
        },
    };
    match checked {
        Ok(_) => Ok(mutation(&addr.res_addr, op)),
        Err(failure) => Err(unreadable(kind, path, failure)),
    }
}

/// Writes out what was fetched for the resource at `path`: the definition
/// in `fetched`, held to the shape of the resource's kind, without what the
/// cluster wrote into it.
pub fn do_get(path: &str, fetched: &str) -> (result: Result<
    Option<GetResourceResponse>,
    ConnectorError,
>)
    ensures
        match cluster_resource_at(path@, SERDE) {
            None => result matches Err(e) && e.is_invalid_address_of(path@),
            Some(addr) => match shaped_yaml(addr.resource.kind, fetched@) {
                Ok(definition) => match resource_output(definition) {
                    Ok(bytes) => result matches Ok(Some(response))
                        && response.resource_definition@ == bytes,
                    Err(message) => result matches Err(e) && e.is_unreadable_with(
                        addr.resource.kind,
                        path@,
                        message,
                    ),
                },
                Err(said) => result matches Err(e) && e.is_unreadable_with(
                    addr.resource.kind,
                    path@,
                    said.message,
                ),
            },
        },
{
    let addr = match K8sClusterAddress::from_path(path) {
        Ok(addr) => addr,
        Err(e) => {
            return Err(e);
        },
    };
    let kind = addr.res_addr.kind();
    let resource = match K8sResource::from_str(kind, fetched) {
        Ok(resource) => resource,
        Err(failure) => {
            return Err(unreadable(kind, path, failure));
        },
    };
    match get_ser_resource_output(&resource) {
        Ok(response) => Ok(response),
        Err(message) => Err(unreadable(kind, path, ParseFailure { message, location: None })),
    }
}

/// Whether the two buffers hold the same resource of `kind`: each is read
/// as a resource, the first one first, and the two are equal when their
/// definitions are. What is said against a buffer that cannot be read is
/// handed on.
pub open spec fn compared(kind: ResourceKind, a: Seq<u8>, b: Seq<u8>) -> Result<bool, FailureView> {
    match buffer_resource(kind, a) {
        Ok(left) => match buffer_resource(kind, b) {
            Ok(right) => Ok(left == right),
            Err(said) => Err(said),
        },
        Err(said) => Err(said),
    }
}

/// Says whether the two definitions `a` and `b` of the resource at `path`
/// are equal once both are read in the shape of its kind.
///
/// A path that is no resource is an invalid address. A definition that is
/// not UTF-8 text, or that the reader turns down, fails the comparison.
pub fn eq(path: &str, a: &[u8], b: &[u8]) -> (result: Result<bool, ConnectorError>)
    ensures
        match cluster_resource_at(path@, SERDE) {
            None => result matches Err(e) && e.is_invalid_address_of(path@),
            Some(addr) => match compared(addr.resource.kind, a@, b@) {
                Ok(equal) => result matches Ok(found) && found == equal,
                Err(said) => result matches Err(e) && e.is_unreadable_with(
                    addr.resource.kind,
                    path@,
                    said.message,
                ),
            },
        },
{
    let addr = match K8sClusterAddress::from_path(path) {
        Ok(addr) => addr,
        Err(e) => {
            return Err(e);
        },
    };
    let kind = addr.res_addr.kind();
    let left = match read_shaped(kind, a) {
        Ok(resource) => resource,
        Err(failure) => {
            return Err(unreadable(kind, path, failure));
        },
    };
    let right = match read_shaped(kind, b) {
        Ok(resource) => resource,
        Err(failure) => {
            return Err(unreadable(kind, path, failure));
        },
    };
    Ok(left.same_as(&right))
}

/// Reads `bytes` as a resource of `kind`.
fn read_shaped(kind: ResourceKind, bytes: &[u8]) -> (read: Result<K8sResource, ParseFailure>)
    ensures
        resource_reads_as(read, buffer_resource(kind, bytes@)),
{
    match utf8_text(bytes) {
        Some(text) => K8sResource::from_str(kind, text),
        None => Err(
            ParseFailure {
                message: String::from_str("the buffer is not UTF-8 text"),
                location: None,
            },
        ),
    }
}

} // verus!
