//! The YAML backend, on `serde_yaml`. YAML has no pretty mode of its own:
//! pretty output is the plain output.

use vstd::prelude::*;
use crate::serializable::Serializable;
use crate::serializer::{self, ErrorKind};

verus! {

/// The YAML text of a document, where `serde_yaml` can write one.
pub uninterp spec fn yaml_text(v: serde_yaml::Value) -> Option<Seq<char>>;

/// The document that a text parses to, where `serde_yaml` accepts it.
pub uninterp spec fn yaml_document(s: Seq<char>) -> Option<serde_yaml::Value>;

/// Relies on `serde_yaml::to_string`: the text depends on the document alone.
#[verifier::external_body]
fn encode(v: &serde_yaml::Value) -> (r: Result<String, serde_yaml::Error>)
    ensures
        match r {
            Ok(s) => yaml_text(*v) == Some(s@),
            Err(_) => yaml_text(*v) is None,
        },
{
    serde_yaml::to_string(v)
}

/// Relies on `serde_yaml::from_str`: the parsed document depends on the text alone.
#[verifier::external_body]
fn decode(s: &str) -> (r: Result<serde_yaml::Value, serde_yaml::Error>)
    ensures
        match r {
            Ok(v) => yaml_document(s@) == Some(v),
            Err(_) => yaml_document(s@) is None,
        },
{
    serde_yaml::from_str(s)
}

/// The errors of the YAML backend.
#[derive(Debug)]
pub enum YamlError {
    /// Writing to the given writer failed.
    Write { err: std::io::Error },
    /// Reading from the given reader failed.
    Read { err: std::io::Error },
    /// Flushing the given writer failed.
    Flush { err: std::io::Error },
    /// `serde_yaml` could not encode the document.
    Serialize { err: serde_yaml::Error },
    /// `serde_yaml` rejected the text.
    Deserialize { err: serde_yaml::Error },
}

impl YamlError {
    /// The one-line description of the failure, without its cause.
    pub open spec fn description(self) -> Seq<char> {
        match self {
            YamlError::Write { .. } => "Failed to write to given writer"@,
            YamlError::Read { .. } => "Failed to read from given reader"@,
            YamlError::Flush { .. } => "Failed to flush the given writer"@,
            YamlError::Serialize { .. } => "Failed to serialize to YAML"@,
            YamlError::Deserialize { .. } => "Failed to deserialize from YAML"@,
        }
    }

    /// Describes the failure in one line.
    pub fn message(&self) -> (r: &'static str)
        ensures
            r@ == self.description(),
    {
        match self {
            YamlError::Write { .. } => "Failed to write to given writer",
            YamlError::Read { .. } => "Failed to read from given reader",
            YamlError::Flush { .. } => "Failed to flush the given writer",
            YamlError::Serialize { .. } => "Failed to serialize to YAML",
            YamlError::Deserialize { .. } => "Failed to deserialize from YAML",
        }
    }
}

/// The YAML backend; its values are `serde_yaml` documents.
#[derive(Clone, Copy, Debug)]
pub struct Serializer;

impl serializer::Serializer for Serializer {
    type Target = serde_yaml::Value;
    type Error = YamlError;

    open spec fn encoding(v: serde_yaml::Value) -> Option<Seq<char>> {
        yaml_text(v)
    }

    open spec fn pretty_encoding(v: serde_yaml::Value) -> Option<Seq<char>> {
        yaml_text(v)
    }

    open spec fn decodes(s: Seq<char>, v: serde_yaml::Value) -> bool {
        yaml_document(s) == Some(v)
    }

    open spec fn rejects(s: Seq<char>) -> bool {
        yaml_document(s) is None
    }

    open spec fn kind(e: YamlError) -> ErrorKind {
        match e {
            YamlError::Write { .. } => ErrorKind::Write,
            YamlError::Read { .. } => ErrorKind::Read,
            YamlError::Flush { .. } => ErrorKind::Flush,
            YamlError::Serialize { .. } => ErrorKind::Serialize,
            YamlError::Deserialize { .. } => ErrorKind::Deserialize,
        }
    }

    open spec fn io_cause(e: YamlError) -> Option<std::io::Error> {
        match e {
            YamlError::Write { err } => Some(err),
            YamlError::Read { err } => Some(err),
            YamlError::Flush { err } => Some(err),
            _ => None,
        }
    }

    open spec fn wrap_io(kind: ErrorKind, err: std::io::Error) -> YamlError {
        match kind {
            ErrorKind::Write => YamlError::Write { err },
            ErrorKind::Read => YamlError::Read { err },
            _ => YamlError::Flush { err },
        }
    }

    proof fn lemma_wrap_io(kind: ErrorKind, err: std::io::Error) {
    }

    fn to_string(value: &serde_yaml::Value) -> (r: Result<String, YamlError>) {
        match encode(value) {
            Ok(s) => Ok(s),
            Err(err) => Err(YamlError::Serialize { err }),
        }
    }

    fn to_string_pretty(value: &serde_yaml::Value) -> (r: Result<String, YamlError>) {
        Self::to_string(value)
    }

    fn from_str(raw: &str) -> (r: Result<serde_yaml::Value, YamlError>) {
        match decode(raw) {
            Ok(v) => Ok(v),
            Err(err) => Err(YamlError::Deserialize { err }),
        }
    }

    fn io_error(kind: ErrorKind, err: std::io::Error) -> (e: YamlError) {
        match kind {
            ErrorKind::Write => YamlError::Write { err },
            ErrorKind::Read => YamlError::Read { err },
            _ => YamlError::Flush { err },
        }
    }
}

impl Serializable<Serializer> for serde_yaml::Value {
    fn what() -> &'static str {
        "serde_yaml::Value"
    }
}

/// YAML has no pretty mode: a document's pretty text is its plain text, so
/// the two decode to the same documents.
pub proof fn lemma_pretty_decodes_as_plain(v: serde_yaml::Value)
    ensures
        <Serializer as serializer::Serializer>::pretty_encoding(v)
            == <Serializer as serializer::Serializer>::encoding(v),
        match (
            <Serializer as serializer::Serializer>::pretty_encoding(v),
            <Serializer as serializer::Serializer>::encoding(v),
        ) {
            (Some(p), Some(q)) => {
                &&& forall|w: serde_yaml::Value|
                    <Serializer as serializer::Serializer>::decodes(p, w)
                        == <Serializer as serializer::Serializer>::decodes(q, w)
                &&& <Serializer as serializer::Serializer>::rejects(p)
                    == <Serializer as serializer::Serializer>::rejects(q)
            },
            (None, None) => true,
            _ => false,
        },
{
}

} // verus!
