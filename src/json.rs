//! The JSON backend, on `serde_json`, with distinct compact and pretty
//! encoders and one decoder.

use vstd::prelude::*;
use crate::serializable::Serializable;
use crate::serializer::{self, ErrorKind};

verus! {

/// The compact JSON text of a document, where `serde_json` can write one.
pub uninterp spec fn json_text(v: serde_json::Value) -> Option<Seq<char>>;

/// The indented JSON text of a document, where `serde_json` can write one.
pub uninterp spec fn json_pretty_text(v: serde_json::Value) -> Option<Seq<char>>;

/// The document that a text parses to, where `serde_json` accepts it.
pub uninterp spec fn json_document(s: Seq<char>) -> Option<serde_json::Value>;

/// Relies on `serde_json::to_string`: the compact text depends on the document alone.
#[verifier::external_body]
fn encode_compact(v: &serde_json::Value) -> (r: Result<String, serde_json::Error>)
    ensures
        match r {
            Ok(s) => json_text(*v) == Some(s@),
            Err(_) => json_text(*v) is None,
        },
{
    serde_json::to_string(v)
}

/// Relies on `serde_json::to_string_pretty`: the indented text depends on the document alone.
#[verifier::external_body]
fn encode_pretty(v: &serde_json::Value) -> (r: Result<String, serde_json::Error>)
    ensures
        match r {
            Ok(s) => json_pretty_text(*v) == Some(s@),
            Err(_) => json_pretty_text(*v) is None,
        },
{
    serde_json::to_string_pretty(v)
}

/// Relies on `serde_json::from_str`: the parsed document depends on the text alone.
#[verifier::external_body]
fn decode(s: &str) -> (r: Result<serde_json::Value, serde_json::Error>)
    ensures
        match r {
            Ok(v) => json_document(s@) == Some(v),
            Err(_) => json_document(s@) is None,
        },
{
    serde_json::from_str(s)
}

/// The errors of the JSON backend.
#[derive(Debug)]
pub enum JsonError {
    /// Writing to the given writer failed.
    Write { err: std::io::Error },
    /// Reading from the given reader failed.
    Read { err: std::io::Error },
    /// Flushing the given writer failed.
    Flush { err: std::io::Error },
    /// `serde_json` could not encode the document.
    Serialize { err: serde_json::Error },
    /// `serde_json` rejected the text.
    Deserialize { err: serde_json::Error },
}

impl JsonError {
    /// The one-line description of the failure, without its cause.
    pub open spec fn description(self) -> Seq<char> {
        match self {
            JsonError::Write { .. } => "Failed to write to given writer"@,
            JsonError::Read { .. } => "Failed to read from given reader"@,
            JsonError::Flush { .. } => "Failed to flush the given writer"@,
            JsonError::Serialize { .. } => "Failed to serialize to JSON"@,
            JsonError::Deserialize { .. } => "Failed to deserialize from JSON"@,
        }
    }

    /// Describes the failure in one line.
    pub fn message(&self) -> (r: &'static str)
        ensures
            r@ == self.description(),
    {
        match self {
            JsonError::Write { .. } => "Failed to write to given writer",
            JsonError::Read { .. } => "Failed to read from given reader",
            JsonError::Flush { .. } => "Failed to flush the given writer",
            JsonError::Serialize { .. } => "Failed to serialize to JSON",
            JsonError::Deserialize { .. } => "Failed to deserialize from JSON",
        }
    }
}

/// The JSON backend; its values are `serde_json` documents.
#[derive(Clone, Copy, Debug)]
pub struct Serializer;

impl serializer::Serializer for Serializer {
    type Target = serde_json::Value;
    type Error = JsonError;

    open spec fn encoding(v: serde_json::Value) -> Option<Seq<char>> {
        json_text(v)
    }

    open spec fn pretty_encoding(v: serde_json::Value) -> Option<Seq<char>> {
        json_pretty_text(v)
    }

    open spec fn decodes(s: Seq<char>, v: serde_json::Value) -> bool {
        json_document(s) == Some(v)
    }

    open spec fn rejects(s: Seq<char>) -> bool {
        json_document(s) is None
    }

    open spec fn kind(e: JsonError) -> ErrorKind {
        match e {
            JsonError::Write { .. } => ErrorKind::Write,
            JsonError::Read { .. } => ErrorKind::Read,
            JsonError::Flush { .. } => ErrorKind::Flush,
            JsonError::Serialize { .. } => ErrorKind::Serialize,
            JsonError::Deserialize { .. } => ErrorKind::Deserialize,
        }
    }

    open spec fn io_cause(e: JsonError) -> Option<std::io::Error> {
        match e {
            JsonError::Write { err } => Some(err),
            JsonError::Read { err } => Some(err),
            JsonError::Flush { err } => Some(err),
            _ => None,
        }
    }

    open spec fn wrap_io(kind: ErrorKind, err: std::io::Error) -> JsonError {
        match kind {
            ErrorKind::Write => JsonError::Write { err },
            ErrorKind::Read => JsonError::Read { err },
            _ => JsonError::Flush { err },
        }
    }

    proof fn lemma_wrap_io(kind: ErrorKind, err: std::io::Error) {
    }

    fn to_string(value: &serde_json::Value) -> (r: Result<String, JsonError>) {
        match encode_compact(value) {
            Ok(s) => Ok(s),
            Err(err) => Err(JsonError::Serialize { err }),
        }
    }

    fn to_string_pretty(value: &serde_json::Value) -> (r: Result<String, JsonError>) {
        match encode_pretty(value) {
            Ok(s) => Ok(s),
            Err(err) => Err(JsonError::Serialize { err }),
        }
    }

    fn from_str(raw: &str) -> (r: Result<serde_json::Value, JsonError>) {
        match decode(raw) {
            Ok(v) => Ok(v),
            Err(err) => Err(JsonError::Deserialize { err }),
        }
    }

    fn io_error(kind: ErrorKind, err: std::io::Error) -> (e: JsonError) {
        match kind {
            ErrorKind::Write => JsonError::Write { err },
            ErrorKind::Read => JsonError::Read { err },
            _ => JsonError::Flush { err },
        }
    }
}

impl Serializable<Serializer> for serde_json::Value {
    fn what() -> &'static str {
        "serde_json::Value"
    }
}

} // verus!
