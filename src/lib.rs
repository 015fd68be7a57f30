//! Helper traits that give serialization backends one uniform surface:
//! encode to a string or a stream, decode from a string or a stream, with an
//! optional pretty mode and file-based conveniences on top.
//!
//! Backends: JSON ([`json`]), YAML ([`yaml`]), TOML ([`toml_backend`]), and
//! two plain-text stand-ins for tests, one with a fixed text ([`dummy`]) and
//! one that round-trips ([`text`]).

mod foreign;

pub mod serializer;
pub mod serializable;
pub mod job;

pub mod dummy;
pub mod json;
pub mod text;
pub mod toml_backend;
pub mod yaml;

pub use job::{LoadJob, LoadState, SaveJob, SaveState};
pub use serializable::{Serializable, SerializableError};
pub use serializer::{ErrorKind, Serializer, WriteStep};
