//! The facade over any backend: string conversions on the value itself, and
//! encodes and decodes against streams and files, whose failures carry where
//! they happened.
//!
//! A stream-level failure that happens while a file is being written or read
//! never reaches the caller as such: it is re-tagged as a file-level failure
//! that carries the file's path.

use vstd::prelude::*;
use crate::serializer::{ErrorKind, Serializer, encoding_in};

verus! {

/// A failure of the facade, around the backend's error `E`.
#[derive(Debug)]
pub enum SerializableError<E> {
    /// The output file could not be created.
    FileCreate { path: String, err: std::io::Error },
    /// The input file could not be opened.
    FileOpen { path: String, err: std::io::Error },
    /// The value could not be encoded to a string.
    SerializeString { what: &'static str, err: E },
    /// The value could not be encoded to the given writer.
    SerializeWriter { what: &'static str, err: E },
    /// The value could not be encoded to the file at `path`.
    SerializeFile { what: &'static str, path: String, err: E },
    /// No value could be decoded from the given string.
    DeserializeString { what: &'static str, err: E },
    /// No value could be decoded from the given reader.
    DeserializeReader { what: &'static str, err: E },
    /// No value could be decoded from the file at `path`.
    DeserializeFile { what: &'static str, path: String, err: E },
}

impl<E> SerializableError<E> {
    /// Whether the failure happened on a caller-supplied stream.
    pub open spec fn is_stream_level(self) -> bool {
        self is SerializeWriter || self is DeserializeReader
    }

    /// Whether the failure happened on a file, and so carries its path.
    pub open spec fn is_file_level(self) -> bool {
        self is FileCreate || self is FileOpen || self is SerializeFile || self is DeserializeFile
    }

    /// The path that a file-level failure carries.
    pub open spec fn file_path(self) -> Option<String> {
        match self {
            SerializableError::FileCreate { path, .. } => Some(path),
            SerializableError::FileOpen { path, .. } => Some(path),
            SerializableError::SerializeFile { path, .. } => Some(path),
            SerializableError::DeserializeFile { path, .. } => Some(path),
            _ => None,
        }
    }

    /// This failure as it reads when it happened while the file at `path`
    /// was written or read: a stream-level failure becomes the matching
    /// file-level one, and any other stays as it is.
    pub open spec fn in_file(self, path: String) -> Self {
        match self {
            SerializableError::SerializeWriter { what, err } => SerializableError::SerializeFile {
                what,
                path,
                err,
            },
            SerializableError::DeserializeReader { what, err } => SerializableError::DeserializeFile {
                what,
                path,
                err,
            },
            other => other,
        }
    }

    /// The one-line description of the failure, without its cause.
    pub open spec fn description(self) -> Seq<char> {
        match self {
            SerializableError::FileCreate { path, .. } => "Failed to create output file '"@ + path@
                + "'"@,
            SerializableError::FileOpen { path, .. } => "Failed to open input file '"@ + path@
                + "'"@,
            SerializableError::SerializeString { what, .. } => "Failed to serialize "@ + what@
                + " to a string"@,
            SerializableError::SerializeWriter { what, .. } => "Failed to serialize "@ + what@
                + " to the given writer"@,
            SerializableError::SerializeFile { what, path, .. } => "Failed to serialize "@ + what@
                + " to file '"@ + path@ + "'"@,
            SerializableError::DeserializeString { what, .. } => "Failed to deserialize "@ + what@
                + " from the given string"@,
            SerializableError::DeserializeReader { what, .. } => "Failed to deserialize "@ + what@
                + " from the given reader"@,
            SerializableError::DeserializeFile { what, path, .. } => "Failed to deserialize "@
                + what@ + " from file '"@ + path@ + "'"@,
        }
    }

    /// Describes the failure in one line: which operation failed, on which
    /// value type, and against which file.
    pub fn message(&self) -> (r: String)
        ensures
            r@ == self.description(),
    {
        match self {
            SerializableError::FileCreate { path, .. } => String::from_str(
                "Failed to create output file '",
            ).concat(path.as_str()).concat("'"),
            SerializableError::FileOpen { path, .. } => String::from_str(
                "Failed to open input file '",
            ).concat(path.as_str()).concat("'"),
            SerializableError::SerializeString { what, .. } => String::from_str(
                "Failed to serialize ",
            ).concat(what).concat(" to a string"),
            SerializableError::SerializeWriter { what, .. } => String::from_str(
                "Failed to serialize ",
            ).concat(what).concat(" to the given writer"),
            SerializableError::SerializeFile { what, path, .. } => String::from_str(
                "Failed to serialize ",
            ).concat(what).concat(" to file '").concat(path.as_str()).concat("'"),
            SerializableError::DeserializeString { what, .. } => String::from_str(
                "Failed to deserialize ",
            ).concat(what).concat(" from the given string"),
            SerializableError::DeserializeReader { what, .. } => String::from_str(
                "Failed to deserialize ",
            ).concat(what).concat(" from the given reader"),
            SerializableError::DeserializeFile { what, path, .. } => String::from_str(
                "Failed to deserialize ",
            ).concat(what).concat(" from file '").concat(path.as_str()).concat("'"),
        }
    }

    /// Re-tags this failure as having happened on the file at `path`.
    pub fn into_file_error(self, path: String) -> (r: Self)
        ensures
            r == self.in_file(path),
    {
        match self {
            SerializableError::SerializeWriter { what, err } => SerializableError::SerializeFile {
                what,
                path,
                err,
            },
            SerializableError::DeserializeReader { what, err } => SerializableError::DeserializeFile {
                what,
                path,
                err,
            },
            other => other,
        }
    }
}

/// Re-tagging a stream-level failure for the file at `path` keeps what was
/// being converted and the backend's error, and attaches `path`.
pub proof fn lemma_in_file_keeps_cause<E>(e: SerializableError<E>, path: String)
    requires
        e.is_stream_level(),
    ensures
        e.in_file(path).is_file_level(),
        !e.in_file(path).is_stream_level(),
        e.in_file(path).file_path() == Some(path),
        match (e, e.in_file(path)) {
            (
                SerializableError::SerializeWriter { what: w1, err: e1 },
                SerializableError::SerializeFile { what: w2, err: e2, .. },
            ) => w1 == w2 && e1 == e2,
            (
                SerializableError::DeserializeReader { what: w1, err: e1 },
                SerializableError::DeserializeFile { what: w2, err: e2, .. },
            ) => w1 == w2 && e1 == e2,
            _ => false,
        },
{
}

/// The facade that a value type opts into for the backend `S`: encodes and
/// decodes whose failures name the type.
pub trait Serializable<S: Serializer<Target = Self>>: Sized {
    /// The name of the type, as failures report it.
    fn what() -> &'static str;

    /// Encodes the value in plain mode.
    fn to_string(&self) -> (r: Result<String, SerializableError<S::Error>>)
        ensures
            encoded_to::<S>(*self, false, r),
    {
        match S::to_string(self) {
            Ok(s) => Ok(s),
            Err(err) => Err(SerializableError::SerializeString { what: Self::what(), err }),
        }
    }

    /// Encodes the value in pretty mode.
    fn to_string_pretty(&self) -> (r: Result<String, SerializableError<S::Error>>)
        ensures
            encoded_to::<S>(*self, true, r),
    {
        match S::to_string_pretty(self) {
            Ok(s) => Ok(s),
            Err(err) => Err(SerializableError::SerializeString { what: Self::what(), err }),
        }
    }

    /// Encodes the value in pretty mode where `pretty` holds, else in plain mode.
    fn to_string_pretty_opt(
        &self,
        pretty: bool,
    ) -> (r: Result<String, SerializableError<S::Error>>)
        ensures
            encoded_to::<S>(*self, pretty, r),
    {
        if pretty {
            self.to_string_pretty()
        } else {
            self.to_string()
        }
    }

    /// Decodes a value from `raw`.
    fn from_str(raw: &str) -> (r: Result<Self, SerializableError<S::Error>>)
        ensures
            match r {
                Ok(v) => S::decodes(raw@, v),
                Err(SerializableError::DeserializeString { err, .. }) => {
                    S::rejects(raw@) && S::kind(err) == ErrorKind::Deserialize
                },
                Err(_) => false,
            },
    {
        match S::from_str(raw) {
            Ok(v) => Ok(v),
            Err(err) => Err(SerializableError::DeserializeString { what: Self::what(), err }),
        }
    }
}

/// Whether `r` is how an encode of `v` to a string in the mode that `pretty`
/// selects may end: with the encoded text, or with the codec's failure.
pub open spec fn encoded_to<S: Serializer>(
    v: S::Target,
    pretty: bool,
    r: Result<String, SerializableError<S::Error>>,
) -> bool {
    match r {
        Ok(s) => encoding_in::<S>(v, pretty) == Some(s@),
        Err(SerializableError::SerializeString { err, .. }) => encoding_in::<S>(v, pretty) is None
            && S::kind(err) == ErrorKind::Serialize,
        Err(_) => false,
    }
}

} // verus!
