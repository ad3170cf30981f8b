//! Reports on whether a definition is well-formed.

use vstd::prelude::*;
use vstd::string::StringExecFns;
use vstd::utf8::decode_utf8;
use vstd::utf8::valid_utf8;

use crate::addr::cluster_resource_at;
use crate::addr::K8sClusterAddress;
use crate::backend::SERDE;
use crate::error::ConnectorError;
use crate::kind::ResourceKind;
use crate::resource::K8sResource;
use crate::text::utf8_text;
use crate::util::not_text;
use crate::yaml::shaped_yaml;
use crate::yaml::FailureView;
use crate::yaml::ParseFailure;

verus! {

/// The severity of a finding that makes a definition unusable.
pub const SEVERITY_ERROR: u8 = 1;

/// A place in a text, by line and column, both counted from one.
#[derive(Clone, Copy, Debug, PartialEq, Eq, Structural)]
pub struct DiagnosticPosition {
    pub line: u32,
    pub col: u32,
}

/// A stretch of a text, from one place to another.
#[derive(Clone, Copy, Debug, PartialEq, Eq, Structural)]
pub struct DiagnosticSpan {
    pub start: DiagnosticPosition,
    pub end: DiagnosticPosition,
}

/// One finding about a text.
#[derive(Debug, PartialEq, Eq)]
pub struct Diagnostic {
    pub severity: u8,
    pub span: DiagnosticSpan,
    pub message: String,
}

/// All that was found about a text. Nothing found means that the text is
/// well-formed.
#[derive(Debug, PartialEq, Eq)]
pub struct DiagnosticResponse {
    pub diagnostics: Vec<Diagnostic>,
}

/// A line or column number as far as a report can hold it.
pub open spec fn clamped(n: usize) -> u32 {
    if n <= u32::MAX {
        n as u32
    } else {
        u32::MAX
    }
}

/// The place that a report gives for a reader's location: the location
/// itself, or the beginning of the text where the reader named none.
pub open spec fn place_of(location: Option<(usize, usize)>) -> DiagnosticPosition {
    match location {
        Some((line, column)) => DiagnosticPosition { line: clamped(line), col: clamped(column) },
        None => DiagnosticPosition { line: 1, col: 1 },
    }
}

/// Whether `response` is the report on `failure`: empty where the reader
/// found nothing, and otherwise one error with the reader's words, at the
/// place where the reader gave up.
pub open spec fn reports(response: DiagnosticResponse, failure: Option<FailureView>) -> bool {
    match failure {
        None => response.diagnostics@.len() == 0,
        Some(failure) => {
            &&& response.diagnostics@.len() == 1
            &&& response.diagnostics@[0].severity == SEVERITY_ERROR
            &&& response.diagnostics@[0].message@ == failure.message
            &&& response.diagnostics@[0].span.start == place_of(failure.location)
            &&& response.diagnostics@[0].span.end == place_of(failure.location)
        },
    }
}

/// What the reader says against the text `text` as a resource of `kind`, if
/// anything.
pub open spec fn text_failure(kind: ResourceKind, text: Seq<char>) -> Option<FailureView> {
    match shaped_yaml(kind, text) {
        Ok(_) => None,
        Err(said) => Some(said),
    }
}

fn clamp(n: usize) -> (clamped_n: u32)
    ensures
        clamped_n == clamped(n),
{
    if n <= u32::MAX as usize {
        n as u32
    } else {
        u32::MAX
    }
}

/// Writes the report on what a reader said of a text.
pub fn diagnosis(failure: Option<ParseFailure>) -> (response: DiagnosticResponse)
    ensures
        reports(
            response,
            match failure {
                Some(failure) => Some(failure@),
                None => None,
            },
        ),
{
    let mut diagnostics: Vec<Diagnostic> = Vec::new();
    match failure {
        Some(failure) => {
            let place = match failure.location {
                Some((line, column)) => DiagnosticPosition { line: clamp(line), col: clamp(column) },
                None => DiagnosticPosition { line: 1, col: 1 },
            };
            diagnostics.push(
                Diagnostic {
                    severity: SEVERITY_ERROR,
                    span: DiagnosticSpan { start: place, end: place },
                    message: failure.message,
                },
            );
        },
        None => {},
    }
    DiagnosticResponse { diagnostics }
}

/// Reports on whether `a` is a well-formed definition of the resource at
/// `path`.
///
/// A path that is no resource is an invalid address, and a buffer that is
/// not UTF-8 text cannot be reported on. Any other buffer gets a report: an
/// empty one, or one error that the reader found.
pub fn diag(path: &str, a: &[u8]) -> (result: Result<DiagnosticResponse, ConnectorError>)
    ensures
        match cluster_resource_at(path@, SERDE) {
            None => result matches Err(e) && e.is_invalid_address_of(path@),
            Some(addr) => if valid_utf8(a@) {
                result matches Ok(response) && reports(
                    response,
                    text_failure(addr.resource.kind, decode_utf8(a@)),
                )
            } else {
                result matches Err(e) && e.is_unreadable_with(
                    addr.resource.kind,
                    path@,
                    not_text().message,
                )
            },
        },
{
    let addr = match K8sClusterAddress::from_path(path) {
        Ok(addr) => addr,
        Err(e) => {
            return Err(e);
        },
    };
    let kind = addr.res_addr.kind();
    match utf8_text(a) {
        Some(text) => match K8sResource::from_str(kind, text) {
            Ok(_) => Ok(diagnosis(None)),
            Err(failure) => Ok(diagnosis(Some(failure))),
        },
        None => Err(
            ConnectorError::Deserialization {
                kind,
                address: String::from_str(path),
                message: String::from_str("the buffer is not UTF-8 text"),
            },
        ),
    }
}

} // verus!
