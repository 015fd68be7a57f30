//! The capability trait that every backend satisfies, and the stream
//! protocol that the backends share.
//!
//! A backend only encodes to and decodes from text. Streams are driven from
//! outside: an encode to a stream is a [`WriteStep`] that asks for its bytes to
//! be written (and, on asynchronous streams, flushed), and a decode from a
//! stream takes the text that was read in full.

use vstd::prelude::*;

verus! {

/// The outer tag of a backend error, the same for every backend.
#[derive(Clone, Copy, Debug, PartialEq, Eq, Structural)]
pub enum ErrorKind {
    /// Writing to the given writer failed.
    Write,
    /// Reading from the given reader failed.
    Read,
    /// Flushing the given writer failed after its bytes were written.
    Flush,
    /// The codec could not represent the value.
    Serialize,
    /// The codec rejected the input text.
    Deserialize,
}

impl ErrorKind {
    /// Whether this kind stands for a failure of a stream rather than of the codec.
    pub open spec fn is_io(self) -> bool {
        self is Write || self is Read || self is Flush
    }
}

/// A serialization backend bound to one target type.
///
/// The spec functions describe the backend in terms of text: what a value
/// encodes to in plain and in pretty mode, which values a text decodes to, and
/// which texts it rejects. Every error of the backend has one [`ErrorKind`].
pub trait Serializer {
    /// The type of the values that this backend encodes and decodes.
    type Target;
    /// The backend's own error.
    type Error;

    /// The text that `v` encodes to in plain mode, or `None` where the backend
    /// cannot represent `v`.
    spec fn encoding(v: Self::Target) -> Option<Seq<char>>;

    /// The text that `v` encodes to in pretty mode, or `None` where the
    /// backend cannot represent `v`.
    spec fn pretty_encoding(v: Self::Target) -> Option<Seq<char>>;

    /// Whether decoding `s` may yield `v`.
    spec fn decodes(s: Seq<char>, v: Self::Target) -> bool;

    /// Whether the backend rejects `s` as input.
    spec fn rejects(s: Seq<char>) -> bool;

    /// The outer tag of `e`.
    spec fn kind(e: Self::Error) -> ErrorKind;

    /// The I/O failure that `e` wraps, if it wraps one.
    spec fn io_cause(e: Self::Error) -> Option<std::io::Error>;

    /// The error that stands for the stream failure `err` of kind `kind`.
    spec fn wrap_io(kind: ErrorKind, err: std::io::Error) -> Self::Error;

    /// A wrapped stream failure keeps its kind and its cause.
    proof fn lemma_wrap_io(kind: ErrorKind, err: std::io::Error)
        requires
            kind.is_io(),
        ensures
            Self::kind(Self::wrap_io(kind, err)) == kind,
            Self::io_cause(Self::wrap_io(kind, err)) == Some(err),
    ;

    /// Encodes `value` in plain mode.
    fn to_string(value: &Self::Target) -> (r: Result<String, Self::Error>)
        ensures
            match r {
                Ok(s) => Self::encoding(*value) == Some(s@),
                Err(e) => Self::encoding(*value) is None && Self::kind(e) == ErrorKind::Serialize,
            },
    ;

    /// Encodes `value` in pretty mode; a backend without a pretty mode
    /// encodes as in plain mode.
    fn to_string_pretty(value: &Self::Target) -> (r: Result<String, Self::Error>)
        ensures
            match r {
                Ok(s) => Self::pretty_encoding(*value) == Some(s@),
                Err(e) => Self::pretty_encoding(*value) is None && Self::kind(e)
                    == ErrorKind::Serialize,
            },
    ;

    /// Decodes a value from `raw`.
    fn from_str(raw: &str) -> (r: Result<Self::Target, Self::Error>)
        ensures
            match r {
                Ok(v) => Self::decodes(raw@, v),
                Err(e) => Self::rejects(raw@) && Self::kind(e) == ErrorKind::Deserialize,
            },
    ;

    /// The error for the stream failure `err` of kind `kind`.
    fn io_error(kind: ErrorKind, err: std::io::Error) -> (e: Self::Error)
        requires
            kind.is_io(),
        ensures
            e == Self::wrap_io(kind, err),
    ;
}

/// The text that `v` encodes to in the mode that `pretty` selects.
pub open spec fn encoding_in<S: Serializer>(v: S::Target, pretty: bool) -> Option<Seq<char>> {
    if pretty {
        S::pretty_encoding(v)
    } else {
        S::encoding(v)
    }
}

/// Encodes `value` in the mode that `pretty` selects.
pub fn to_string_in<S: Serializer>(value: &S::Target, pretty: bool) -> (r: Result<String, S::Error>)
    ensures
        match r {
            Ok(s) => encoding_in::<S>(*value, pretty) == Some(s@),
            Err(e) => encoding_in::<S>(*value, pretty) is None && S::kind(e) == ErrorKind::Serialize,
        },
{
    if pretty {
        S::to_string_pretty(value)
    } else {
        S::to_string(value)
    }
}

/// Where an encode to a stream stands.
pub enum WriteStep<E> {
    /// These bytes must be written to the stream in full.
    Write(String),
    /// The stream must be flushed.
    Flush,
    /// The encode is over, with this outcome.
    Done(Result<(), E>),
}

/// The step that follows `step` once its stream operation ended with `ev`;
/// `flush` says whether written bytes are flushed before the encode is over.
pub open spec fn write_after<S: Serializer>(
    step: WriteStep<S::Error>,
    flush: bool,
    ev: Result<(), std::io::Error>,
) -> WriteStep<S::Error> {
    match step {
        WriteStep::Write(_) => match ev {
            Ok(()) => if flush {
                WriteStep::Flush
            } else {
                WriteStep::Done(Ok(()))
            },
            Err(err) => WriteStep::Done(Err(S::wrap_io(ErrorKind::Write, err))),
        },
        WriteStep::Flush => match ev {
            Ok(()) => WriteStep::Done(Ok(())),
            Err(err) => WriteStep::Done(Err(S::wrap_io(ErrorKind::Flush, err))),
        },
        WriteStep::Done(r) => WriteStep::Done(r),
    }
}

/// Whether `step` is how an encode of `v` to a stream starts: with the
/// encoded text to be written, or over where the codec cannot represent `v`.
pub open spec fn write_began<S: Serializer>(
    v: S::Target,
    pretty: bool,
    step: WriteStep<S::Error>,
) -> bool {
    match step {
        WriteStep::Write(s) => encoding_in::<S>(v, pretty) == Some(s@),
        WriteStep::Done(Err(e)) => encoding_in::<S>(v, pretty) is None && S::kind(e)
            == ErrorKind::Serialize,
        _ => false,
    }
}

/// Starts an encode of `value` to a stream.
pub fn begin_write<S: Serializer>(value: &S::Target, pretty: bool) -> (r: WriteStep<S::Error>)
    ensures
        write_began::<S>(*value, pretty, r),
{
    match to_string_in::<S>(value, pretty) {
        Ok(s) => WriteStep::Write(s),
        Err(e) => WriteStep::Done(Err(e)),
    }
}

/// Moves an encode to a stream on once its pending operation ended with `ev`.
pub fn advance_write<S: Serializer>(
    step: WriteStep<S::Error>,
    flush: bool,
    ev: Result<(), std::io::Error>,
) -> (r: WriteStep<S::Error>)
    ensures
        r == write_after::<S>(step, flush, ev),
{
    match step {
        WriteStep::Write(_) => match ev {
            Ok(()) => if flush {
                WriteStep::Flush
            } else {
                WriteStep::Done(Ok(()))
            },
            Err(err) => WriteStep::Done(Err(S::io_error(ErrorKind::Write, err))),
        },
        WriteStep::Flush => match ev {
            Ok(()) => WriteStep::Done(Ok(())),
            Err(err) => WriteStep::Done(Err(S::io_error(ErrorKind::Flush, err))),
        },
        WriteStep::Done(r) => WriteStep::Done(r),
    }
}

/// Decodes from a stream that was read in full, with outcome `ev`: a read
/// failure is reported as such, and read text goes to the codec.
pub fn finish_read<S: Serializer>(
    ev: Result<String, std::io::Error>,
) -> (r: Result<S::Target, S::Error>)
    ensures
        match ev {
            Err(err) => r == Err::<S::Target, S::Error>(S::wrap_io(ErrorKind::Read, err)),
            Ok(text) => match r {
                Ok(v) => S::decodes(text@, v),
                Err(e) => S::rejects(text@) && S::kind(e) == ErrorKind::Deserialize,
            },
        },
{
    match ev {
        Err(err) => Err(S::io_error(ErrorKind::Read, err)),
        Ok(text) => S::from_str(text.as_str()),
    }
}

/// An encode to an asynchronous stream that wrote its bytes and then failed
/// to flush reports a flush failure with its cause, never a write failure.
pub proof fn lemma_flush_failure_after_write<S: Serializer>(text: String, err: std::io::Error)
    ensures
        ({
            let after = write_after::<S>(
                write_after::<S>(WriteStep::Write(text), true, Ok(())),
                true,
                Err(err),
            );
            &&& after == WriteStep::<S::Error>::Done(Err(S::wrap_io(ErrorKind::Flush, err)))
            &&& S::kind(S::wrap_io(ErrorKind::Flush, err)) == ErrorKind::Flush
            &&& S::kind(S::wrap_io(ErrorKind::Flush, err)) != ErrorKind::Write
            &&& S::io_cause(S::wrap_io(ErrorKind::Flush, err)) == Some(err)
        }),
{
    S::lemma_wrap_io(ErrorKind::Flush, err);
}

} // verus!
