//! A stand-in backend for tests and examples: every value encodes to a fixed
//! text, and every text decodes to the target type's default value.
//!
//! It is deliberately not round-trip consistent: what it encodes does not
//! decode back to the value that was encoded.

use vstd::prelude::*;
use crate::serializable::Serializable;
use crate::serializer::{self, ErrorKind};
use std::marker::PhantomData;

verus! {

/// Whether `v` is a value that `T::default()` may return.
pub open spec fn is_default<T: Default>(v: T) -> bool {
    call_ensures(T::default, (), v)
}

/// The errors of the stand-in backend: only its streams can fail.
#[derive(Debug)]
pub enum DummyError {
    /// Writing to the given writer failed.
    Write { err: std::io::Error },
    /// Reading from the given reader failed.
    Read { err: std::io::Error },
    /// Flushing the given writer failed.
    Flush { err: std::io::Error },
}

impl DummyError {
    /// The one-line description of the failure, without its cause.
    pub open spec fn description(self) -> Seq<char> {
        match self {
            DummyError::Write { .. } => "Failed to write to given writer"@,
            DummyError::Read { .. } => "Failed to read from given reader"@,
            DummyError::Flush { .. } => "Failed to flush the given writer"@,
        }
    }

    /// Describes the failure in one line.
    pub fn message(&self) -> (r: &'static str)
        ensures
            r@ == self.description(),
    {
        match self {
            DummyError::Write { .. } => "Failed to write to given writer",
            DummyError::Read { .. } => "Failed to read from given reader",
            DummyError::Flush { .. } => "Failed to flush the given writer",
        }
    }
}

/// The stand-in backend for values of type `T`.
pub struct Serializer<T>(pub PhantomData<T>);

/// The text of every value in plain mode.
pub const PLAIN_TEXT: &'static str = "<dummy_text>";

/// The text of every value in pretty mode.
pub const PRETTY_TEXT: &'static str = "Dummy Text";

impl<T: Default> serializer::Serializer for Serializer<T> {
    type Target = T;
    type Error = DummyError;

    open spec fn encoding(v: T) -> Option<Seq<char>> {
        Some(PLAIN_TEXT@)
    }

    open spec fn pretty_encoding(v: T) -> Option<Seq<char>> {
        Some(PRETTY_TEXT@)
    }

    open spec fn decodes(s: Seq<char>, v: T) -> bool {
        is_default(v)
    }

    open spec fn rejects(s: Seq<char>) -> bool {
        false
    }

    open spec fn kind(e: DummyError) -> ErrorKind {
        match e {
            DummyError::Write { .. } => ErrorKind::Write,
            DummyError::Read { .. } => ErrorKind::Read,
            DummyError::Flush { .. } => ErrorKind::Flush,
        }
    }

    open spec fn io_cause(e: DummyError) -> Option<std::io::Error> {
        match e {
            DummyError::Write { err } => Some(err),
            DummyError::Read { err } => Some(err),
            DummyError::Flush { err } => Some(err),
        }
    }

    open spec fn wrap_io(kind: ErrorKind, err: std::io::Error) -> DummyError {
        match kind {
            ErrorKind::Write => DummyError::Write { err },
            ErrorKind::Read => DummyError::Read { err },
            _ => DummyError::Flush { err },
        }
    }

    proof fn lemma_wrap_io(kind: ErrorKind, err: std::io::Error) {
    }

    fn to_string(value: &T) -> (r: Result<String, DummyError>) {
        Ok(PLAIN_TEXT.to_string())
    }

    fn to_string_pretty(value: &T) -> (r: Result<String, DummyError>) {
        Ok(PRETTY_TEXT.to_string())
    }

    fn from_str(raw: &str) -> (r: Result<T, DummyError>) {
        let make = T::default;
        Ok(make())
    }

    fn io_error(kind: ErrorKind, err: std::io::Error) -> (e: DummyError) {
        match kind {
            ErrorKind::Write => DummyError::Write { err },
            ErrorKind::Read => DummyError::Read { err },
            _ => DummyError::Flush { err },
        }
    }
}

impl Serializable<Serializer<u64>> for u64 {
    fn what() -> &'static str {
        "u64"
    }
}

/// Every value encodes to the same fixed text in each mode, and every text,
/// malformed or not, decodes to the default value and is never rejected.
pub proof fn lemma_fixed_text_default_value<T: Default>(v: T, s: Seq<char>, w: T)
    ensures
        <Serializer<T> as serializer::Serializer>::encoding(v) == Some(PLAIN_TEXT@),
        <Serializer<T> as serializer::Serializer>::pretty_encoding(v) == Some(PRETTY_TEXT@),
        <Serializer<T> as serializer::Serializer>::decodes(s, w) == is_default(w),
        !<Serializer<T> as serializer::Serializer>::rejects(s),
{
}

/// The pretty text and the plain text decode to the same values.
pub proof fn lemma_pretty_decodes_as_plain<T: Default>(v: T, w: T)
    ensures
        ({
            let p = <Serializer<T> as serializer::Serializer>::pretty_encoding(v)->0;
            let q = <Serializer<T> as serializer::Serializer>::encoding(v)->0;
            &&& <Serializer<T> as serializer::Serializer>::decodes(p, w)
                == <Serializer<T> as serializer::Serializer>::decodes(q, w)
            &&& <Serializer<T> as serializer::Serializer>::rejects(p)
                == <Serializer<T> as serializer::Serializer>::rejects(q)
        }),
{
}

} // verus!
