//! The TOML backend, on the `toml` crate. Its encoder only writes to a
//! string, so an encode to a stream always writes a finished text.

use vstd::prelude::*;
use crate::serializable::Serializable;
use crate::serializer::{self, ErrorKind};

verus! {

/// The TOML text of a value, where `toml` can write it as a document.
pub uninterp spec fn toml_text(v: toml::Value) -> Option<Seq<char>>;

/// The pretty TOML text of a value, where `toml` can write it as a document.
pub uninterp spec fn toml_pretty_text(v: toml::Value) -> Option<Seq<char>>;

/// The value that a document parses to, where `toml` accepts it.
pub uninterp spec fn toml_document(s: Seq<char>) -> Option<toml::Value>;

/// Relies on `toml::to_string`: the text depends on the value alone.
#[verifier::external_body]
fn encode(v: &toml::Value) -> (r: Result<String, toml::ser::Error>)
    ensures
        match r {
            Ok(s) => toml_text(*v) == Some(s@),
            Err(_) => toml_text(*v) is None,
        },
{
    toml::to_string(v)
}

/// Relies on `toml::to_string_pretty`: the text depends on the value alone.
#[verifier::external_body]
fn encode_pretty(v: &toml::Value) -> (r: Result<String, toml::ser::Error>)
    ensures
        match r {
            Ok(s) => toml_pretty_text(*v) == Some(s@),
            Err(_) => toml_pretty_text(*v) is None,
        },
{
    toml::to_string_pretty(v)
}

/// Relies on `toml::from_str`: the parsed value depends on the text alone.
#[verifier::external_body]
fn decode(s: &str) -> (r: Result<toml::Value, toml::de::Error>)
    ensures
        match r {
            Ok(v) => toml_document(s@) == Some(v),
            Err(_) => toml_document(s@) is None,
        },
{
    toml::from_str(s)
}

/// The errors of the TOML backend.
#[derive(Debug)]
pub enum TomlError {
    /// Writing to the given writer failed.
    Write { err: std::io::Error },
    /// Reading from the given reader failed.
    Read { err: std::io::Error },
    /// Flushing the given writer failed.
    Flush { err: std::io::Error },
    /// `toml` could not encode the value as a document.
    Serialize { err: toml::ser::Error },
    /// `toml` rejected the text.
    Deserialize { err: toml::de::Error },
}

impl TomlError {
    /// The one-line description of the failure, without its cause.
    pub open spec fn description(self) -> Seq<char> {
        match self {
            TomlError::Write { .. } => "Failed to write to given writer"@,
            TomlError::Read { .. } => "Failed to read from given reader"@,
            TomlError::Flush { .. } => "Failed to flush the given writer"@,
            TomlError::Serialize { .. } => "Failed to serialize to TOML"@,
            TomlError::Deserialize { .. } => "Failed to deserialize from TOML"@,
        }
    }

    /// Describes the failure in one line.
    pub fn message(&self) -> (r: &'static str)
        ensures
            r@ == self.description(),
    {
        match self {
            TomlError::Write { .. } => "Failed to write to given writer",
            TomlError::Read { .. } => "Failed to read from given reader",
            TomlError::Flush { .. } => "Failed to flush the given writer",
            TomlError::Serialize { .. } => "Failed to serialize to TOML",
            TomlError::Deserialize { .. } => "Failed to deserialize from TOML",
        }
    }
}

/// The TOML backend; its values are `toml` values, of which tables encode.
#[derive(Clone, Copy, Debug)]
pub struct Serializer;

impl serializer::Serializer for Serializer {
    type Target = toml::Value;
    type Error = TomlError;

    open spec fn encoding(v: toml::Value) -> Option<Seq<char>> {
        toml_text(v)
    }

    open spec fn pretty_encoding(v: toml::Value) -> Option<Seq<char>> {
        toml_pretty_text(v)
    }

    open spec fn decodes(s: Seq<char>, v: toml::Value) -> bool {
        toml_document(s) == Some(v)
    }

    open spec fn rejects(s: Seq<char>) -> bool {
        toml_document(s) is None
    }

    open spec fn kind(e: TomlError) -> ErrorKind {
        match e {
            TomlError::Write { .. } => ErrorKind::Write,
            TomlError::Read { .. } => ErrorKind::Read,
            TomlError::Flush { .. } => ErrorKind::Flush,
            TomlError::Serialize { .. } => ErrorKind::Serialize,
            TomlError::Deserialize { .. } => ErrorKind::Deserialize,
        }
    }

    open spec fn io_cause(e: TomlError) -> Option<std::io::Error> {
        match e {
            TomlError::Write { err } => Some(err),
            TomlError::Read { err } => Some(err),
            TomlError::Flush { err } => Some(err),
            _ => None,
        }
    }

    open spec fn wrap_io(kind: ErrorKind, err: std::io::Error) -> TomlError {
        match kind {
            ErrorKind::Write => TomlError::Write { err },
            ErrorKind::Read => TomlError::Read { err },
            _ => TomlError::Flush { err },
        }
    }

    proof fn lemma_wrap_io(kind: ErrorKind, err: std::io::Error) {
    }

    fn to_string(value: &toml::Value) -> (r: Result<String, TomlError>) {
        match encode(value) {
            Ok(s) => Ok(s),
            Err(err) => Err(TomlError::Serialize { err }),
        }
    }

    fn to_string_pretty(value: &toml::Value) -> (r: Result<String, TomlError>) {
        match encode_pretty(value) {
            Ok(s) => Ok(s),
            Err(err) => Err(TomlError::Serialize { err }),
        }
    }

    fn from_str(raw: &str) -> (r: Result<toml::Value, TomlError>) {
        match decode(raw) {
            Ok(v) => Ok(v),
            Err(err) => Err(TomlError::Deserialize { err }),
        }
    }

    fn io_error(kind: ErrorKind, err: std::io::Error) -> (e: TomlError) {
        match kind {
            ErrorKind::Write => TomlError::Write { err },
            ErrorKind::Read => TomlError::Read { err },
            _ => TomlError::Flush { err },
        }
    }
}

impl Serializable<Serializer> for toml::Value {
    fn what() -> &'static str {
        "toml::Value"
    }
}

} // verus!
