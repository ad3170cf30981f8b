//! Reading optional buffers as resources, and writing a fetched resource
//! out as the definition that is shown for it.

use vstd::prelude::*;
use vstd::string::StrSliceExecFns;
use vstd::string::StringExecFns;
use vstd::utf8::decode_utf8;
use vstd::utf8::encode_utf8;
use vstd::utf8::valid_utf8;

use crate::document::Document;
use crate::document::Entries;
use crate::document::entries_view;
use crate::document::lemma_mapping_view;
use crate::document::Node;
use crate::kind::ResourceKind;
use crate::mapping::Rewrite;
use crate::mapping::rewritten;
use crate::mapping::take_child;
use crate::mapping::without;
use crate::neat::boring_fields;
use crate::neat::neat;
use crate::neat::neatify_resource;
use crate::neat::put_child;
use crate::neat::Sweep;
use crate::neat::sweep;
use crate::resource::resource_of;
use crate::resource::K8sResource;
use crate::text::utf8_text;
use crate::yaml::failure_of;
use crate::yaml::parse;
use crate::yaml::FailureView;
use crate::yaml::ParseFailure;
use crate::yaml::render;
use crate::yaml::yaml_document;
use crate::yaml::yaml_text;

verus! {

/// The change made to the metadata of a fetched resource.
pub open spec fn boring_rewrite() -> Rewrite {
    |metadata: Entries| without(metadata, boring_fields())
}

/// The document of a fetched resource with the boring fields gone from its
/// metadata.
pub open spec fn stripped(doc: Node) -> Node {
    match doc {
        Node::Mapping(resource) => Node::Mapping(
            rewritten(resource, "metadata"@, boring_rewrite(), false),
        ),
        _ => doc,
    }
}

/// Drops from the metadata of a resource the fields that say when and by
/// whom it was last touched: `creationTimestamp`, `managedFields`,
/// `resourceVersion` and `uid`.
pub fn strip_boring_fields(meta: &mut Vec<(Document, Document)>)
    ensures
        entries_view(final(meta)@) == without(entries_view(old(meta)@), boring_fields()),
{
    sweep(meta, Sweep::BoringFields);
}

/// What is said of a buffer that is not UTF-8 text.
pub open spec fn not_text() -> FailureView {
    failure_of("the buffer is not UTF-8 text"@)
}

/// What reading the bytes `bytes` as a resource of `kind` gives: a buffer
/// that is not UTF-8 text cannot be read, and text is read as the kind's
/// reader reads it.
pub open spec fn buffer_resource(kind: ResourceKind, bytes: Seq<u8>) -> Result<
    (ResourceKind, Seq<char>),
    FailureView,
> {
    if valid_utf8(bytes) {
        resource_of(kind, decode_utf8(bytes))
    } else {
        Err(not_text())
    }
}

/// Reads an optional buffer as a resource of `kind`. No buffer gives no
/// resource; a buffer gives what reading its bytes gives.
pub fn from_str_option(kind: ResourceKind, s: &Option<Vec<u8>>) -> (read: Result<
    Option<K8sResource>,
    ParseFailure,
>)
    ensures
        match *s {
            None => read == Ok::<Option<K8sResource>, ParseFailure>(None),
            Some(bytes) => match buffer_resource(kind, bytes@) {
                Ok(held) => read matches Ok(Some(resource)) && resource@ == held,
                Err(said) => read matches Err(failure) && failure@ == said,
            },
        },
{
    match s {
        Some(bytes) => match utf8_text(bytes.as_slice()) {
            Some(text) => match K8sResource::from_str(kind, text) {
                Ok(resource) => Ok(Some(resource)),
                Err(failure) => Err(failure),
            },
            None => Err(
                ParseFailure {
                    message: String::from_str("the buffer is not UTF-8 text"),
                    location: None,
                },
            ),
        },
        None => Ok(None),
    }
}

/// The definition of a resource as it is handed out.
#[derive(Debug, PartialEq, Eq)]
pub struct GetResourceResponse {
    pub resource_definition: Vec<u8>,
}

/// What is handed out for the document `doc` of a fetched resource: the
/// YAML text, as UTF-8, of the document without its boring fields and
/// without anything else that the cluster wrote into it.
pub open spec fn output_of(doc: Node) -> Result<Seq<u8>, Seq<char>> {
    match yaml_text(neat(stripped(doc))) {
        Ok(text) => Ok(encode_utf8(text)),
        Err(message) => Err(message),
    }
}

/// Writes out the document of a fetched resource.
pub fn serialized_output(doc: Document) -> (output: Result<Option<GetResourceResponse>, String>)
    ensures
        match output {
            Ok(Some(response)) => output_of(doc@) == Ok::<Seq<u8>, Seq<char>>(
                response.resource_definition@,
            ),
            Ok(None) => false,
            Err(message) => output_of(doc@) == Err::<Seq<u8>, Seq<char>>(message@),
        },
{
    let mut doc = doc;
    match doc {
        Document::Mapping(mut resource) => {
            let ghost before = entries_view(resource@);
            proof {
                lemma_mapping_view(resource);
            }
            match take_child(&mut resource, "metadata") {
                Some((at, key, mut metadata)) => {
                    strip_boring_fields(&mut metadata);
                    put_child(&mut resource, at, key, metadata, "metadata", false, Ghost(before));
                },
                None => {},
            }
            proof {
                lemma_mapping_view(resource);
            }
            doc = Document::Mapping(resource);
        },
        other => {
            doc = other;
        },
    }
    neatify_resource(&mut doc);
    match render(doc) {
        Ok(text) => Ok(Some(GetResourceResponse { resource_definition: text.as_str().as_bytes_vec() })),
        Err(message) => Err(message),
    }
}

/// What normalising the YAML text `text` gives: the text of the document
/// that it stands for, without what the cluster wrote into it, or what the
/// reader or the writer says against it.
pub open spec fn neat_yaml(text: Seq<char>) -> Result<Seq<char>, Seq<char>> {
    match yaml_document(text) {
        Ok(doc) => yaml_text(neat(doc)),
        Err(message) => Err(message),
    }
}

/// Normalises a resource given as YAML text: reads it, removes what the
/// cluster wrote into it, and writes it again.
pub fn neatify_text(text: &str) -> (written: Result<String, String>)
    ensures
        match written {
            Ok(neat_text) => neat_yaml(text@) == Ok::<Seq<char>, Seq<char>>(neat_text@),
            Err(message) => neat_yaml(text@) == Err::<Seq<char>, Seq<char>>(message@),
        },
{
    match parse(text) {
        Ok(doc) => {
            let mut doc = doc;
            neatify_resource(&mut doc);
            render(doc)
        },
        Err(message) => Err(message),
    }
}

/// What is handed out for a fetched resource with the definition
/// `definition`: what is handed out for the document that the definition
/// stands for, or the reader's words against the definition.
pub open spec fn resource_output(definition: Seq<char>) -> Result<Seq<u8>, Seq<char>> {
    match yaml_document(definition) {
        Ok(doc) => output_of(doc),
        Err(message) => Err(message),
    }
}

/// Writes out a fetched resource: its definition as YAML, without its
/// boring fields and without anything else that the cluster wrote into it.
pub fn get_ser_resource_output(resource: &K8sResource) -> (output: Result<
    Option<GetResourceResponse>,
    String,
>)
    ensures
        match resource_output(resource.spec_definition()) {
            Ok(bytes) => output matches Ok(Some(response)) && response.resource_definition@
                == bytes,
            Err(message) => output matches Err(said) && said@ == message,
        },
{
    match resource.to_document() {
        Ok(doc) => serialized_output(doc),
        Err(failure) => Err(failure.message),
    }
}

} // verus!
