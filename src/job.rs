//! Encodes to and decodes from streams and files, as jobs that a driver
//! moves on.
//!
//! A job never touches a stream or a file itself. Its state says which
//! operation it waits for; the driver performs that operation and hands the
//! outcome back, until the job is done and yields its result. The same job
//! serves blocking and asynchronous drivers: an asynchronous one also asks for
//! written bytes to be flushed.

use vstd::prelude::*;
use crate::serializable::SerializableError;
use crate::serializer::{
    ErrorKind, Serializer, WriteStep, advance_write, begin_write, finish_read, write_after,
    write_began,
};

verus! {

/// Where an encode to a stream or a file stands.
pub enum SaveState<E> {
    /// The output file must be created; the encode then goes on from this step.
    Create(WriteStep<E>),
    /// The encode goes on at stream level.
    Stream(WriteStep<E>),
    /// Creating the output file failed.
    CreateFailed(std::io::Error),
}

/// An encode of one value to a stream, or to the file at `path`.
pub struct SaveJob<S: Serializer> {
    /// The output file, for an encode to a file.
    pub path: Option<String>,
    /// Whether written bytes are flushed before the encode is over.
    pub flush: bool,
    /// The name of the value's type, as failures report it.
    pub what: &'static str,
    /// Where the encode stands.
    pub state: SaveState<S::Error>,
}

impl<S: Serializer> SaveJob<S> {
    /// A job that has a file to create has a path.
    pub open spec fn wf(self) -> bool {
        (self.state is Create || self.state is CreateFailed) ==> self.path is Some
    }

    /// Whether the job is over.
    pub open spec fn done(self) -> bool {
        match self.state {
            SaveState::Stream(step) => step is Done,
            SaveState::CreateFailed(_) => true,
            SaveState::Create(_) => false,
        }
    }

    /// The job once the output file was created, with outcome `ev`.
    pub open spec fn after_create(self, ev: Result<(), std::io::Error>) -> Self {
        match self.state {
            SaveState::Create(step) => SaveJob {
                state: match ev {
                    Ok(()) => SaveState::Stream(step),
                    Err(err) => SaveState::CreateFailed(err),
                },
                ..self
            },
            _ => self,
        }
    }

    /// The job once its pending stream operation ended with `ev`.
    pub open spec fn after_stream(self, ev: Result<(), std::io::Error>) -> Self {
        match self.state {
            SaveState::Stream(step) => SaveJob {
                state: SaveState::Stream(write_after::<S>(step, self.flush, ev)),
                ..self
            },
            _ => self,
        }
    }

    /// The result of a job that is over: a backend failure is reported as a
    /// failure on the writer, or on the file for an encode to a file.
    pub open spec fn outcome(self) -> Result<(), SerializableError<S::Error>> {
        match self.state {
            SaveState::CreateFailed(err) => Err(
                SerializableError::FileCreate { path: self.path->0, err },
            ),
            SaveState::Stream(WriteStep::Done(Err(e))) => {
                let at_writer = SerializableError::SerializeWriter { what: self.what, err: e };
                Err(
                    match self.path {
                        Some(p) => at_writer.in_file(p),
                        None => at_writer,
                    },
                )
            },
            SaveState::Stream(WriteStep::Done(Ok(()))) => Ok(()),
            _ => arbitrary(),
        }
    }

    /// Starts an encode of `value` to a stream.
    pub fn to_writer(value: &S::Target, what: &'static str, pretty: bool, flush: bool) -> (r: Self)
        ensures
            r.wf(),
            r.path is None,
            r.flush == flush,
            r.what == what,
            r.state is Stream,
            write_began::<S>(*value, pretty, r.state->Stream_0),
    {
        SaveJob { path: None, flush, what, state: SaveState::Stream(begin_write::<S>(value, pretty)) }
    }

    /// Starts an encode of `value` to the file at `path`, which is to be
    /// created first.
    pub fn to_path(
        value: &S::Target,
        what: &'static str,
        path: String,
        pretty: bool,
        flush: bool,
    ) -> (r: Self)
        ensures
            r.wf(),
            r.path == Some(path),
            r.flush == flush,
            r.what == what,
            r.state is Create,
            write_began::<S>(*value, pretty, r.state->Create_0),
    {
        SaveJob {
            path: Some(path),
            flush,
            what,
            state: SaveState::Create(begin_write::<S>(value, pretty)),
        }
    }

    /// Whether the job is over.
    pub fn is_done(&self) -> (r: bool)
        ensures
            r == self.done(),
    {
        match &self.state {
            SaveState::Stream(WriteStep::Done(_)) => true,
            SaveState::CreateFailed(_) => true,
            _ => false,
        }
    }

    /// Reports the outcome of creating the output file.
    pub fn created(self, ev: Result<(), std::io::Error>) -> (r: Self)
        requires
            self.wf(),
        ensures
            r == self.after_create(ev),
            r.wf(),
    {
        match self.state {
            SaveState::Create(step) => SaveJob {
                path: self.path,
                flush: self.flush,
                what: self.what,
                state: match ev {
                    Ok(()) => SaveState::Stream(step),
                    Err(err) => SaveState::CreateFailed(err),
                },
            },
            state => SaveJob { path: self.path, flush: self.flush, what: self.what, state },
        }
    }

    /// Reports the outcome of the pending write or flush.
    pub fn advanced(self, ev: Result<(), std::io::Error>) -> (r: Self)
        requires
            self.wf(),
        ensures
            r == self.after_stream(ev),
            r.wf(),
    {
        match self.state {
            SaveState::Stream(step) => SaveJob {
                path: self.path,
                flush: self.flush,
                what: self.what,
                state: SaveState::Stream(advance_write::<S>(step, self.flush, ev)),
            },
            state => SaveJob { path: self.path, flush: self.flush, what: self.what, state },
        }
    }

    /// The result of the job, once it is over.
    pub fn finish(self) -> (r: Option<Result<(), SerializableError<S::Error>>>)
        requires
            self.wf(),
        ensures
            r == if self.done() {
                Some(self.outcome())
            } else {
                None
            },
    {
        match self.state {
            SaveState::CreateFailed(err) => match self.path {
                Some(path) => Some(Err(SerializableError::FileCreate { path, err })),
                None => Some(Err(SerializableError::FileCreate { path: String::new(), err })),
            },
            SaveState::Stream(WriteStep::Done(Ok(()))) => Some(Ok(())),
            SaveState::Stream(WriteStep::Done(Err(e))) => {
                let at_writer = SerializableError::SerializeWriter { what: self.what, err: e };
                match self.path {
                    Some(p) => Some(Err(at_writer.into_file_error(p))),
                    None => Some(Err(at_writer)),
                }
            },
            _ => None,
        }
    }
}

/// Where a decode from a stream or a file stands.
pub enum LoadState<T, E> {
    /// The input file must be opened; the stream is then read.
    Open,
    /// The stream must be read in full.
    Read,
    /// Opening the input file failed.
    OpenFailed(std::io::Error),
    /// The decode is over at stream level, with this outcome.
    Done(Result<T, E>),
}

/// A decode of one value from a stream, or from the file at `path`.
pub struct LoadJob<S: Serializer> {
    /// The input file, for a decode from a file.
    pub path: Option<String>,
    /// The name of the value's type, as failures report it.
    pub what: &'static str,
    /// Where the decode stands.
    pub state: LoadState<S::Target, S::Error>,
}

impl<S: Serializer> LoadJob<S> {
    /// A job that has a file to open has a path.
    pub open spec fn wf(self) -> bool {
        (self.state is Open || self.state is OpenFailed) ==> self.path is Some
    }

    /// Whether the job is over.
    pub open spec fn done(self) -> bool {
        self.state is OpenFailed || self.state is Done
    }

    /// The job once the input file was opened, with outcome `ev`.
    pub open spec fn after_open(self, ev: Result<(), std::io::Error>) -> Self {
        match self.state {
            LoadState::Open => LoadJob {
                state: match ev {
                    Ok(()) => LoadState::Read,
                    Err(err) => LoadState::OpenFailed(err),
                },
                ..self
            },
            _ => self,
        }
    }

    /// Whether `r` may be the job once the stream was read, with outcome
    /// `ev`: a read failure ends it as such, and read text goes to the codec.
    pub open spec fn read_to(self, ev: Result<String, std::io::Error>, r: Self) -> bool {
        match self.state {
            LoadState::Read => {
                &&& r.path == self.path
                &&& r.what == self.what
                &&& match ev {
                    Err(err) => r.state == LoadState::<S::Target, S::Error>::Done(
                        Err(S::wrap_io(ErrorKind::Read, err)),
                    ),
                    Ok(text) => match r.state {
                        LoadState::Done(Ok(v)) => S::decodes(text@, v),
                        LoadState::Done(Err(e)) => S::rejects(text@) && S::kind(e)
                            == ErrorKind::Deserialize,
                        _ => false,
                    },
                }
            },
            _ => r == self,
        }
    }

    /// The result of a job that is over: a backend failure is reported as a
    /// failure on the reader, or on the file for a decode from a file.
    pub open spec fn outcome(self) -> Result<S::Target, SerializableError<S::Error>> {
        match self.state {
            LoadState::OpenFailed(err) => Err(
                SerializableError::FileOpen { path: self.path->0, err },
            ),
            LoadState::Done(Ok(v)) => Ok(v),
            LoadState::Done(Err(e)) => {
                let at_reader = SerializableError::DeserializeReader { what: self.what, err: e };
                Err(
                    match self.path {
                        Some(p) => at_reader.in_file(p),
                        None => at_reader,
                    },
                )
            },
            _ => arbitrary(),
        }
    }

    /// Starts a decode from a stream.
    pub fn from_reader(what: &'static str) -> (r: Self)
        ensures
            r.wf(),
            r.path is None,
            r.what == what,
            r.state is Read,
    {
        LoadJob { path: None, what, state: LoadState::Read }
    }

    /// Starts a decode from the file at `path`, which is to be opened first.
    pub fn from_path(what: &'static str, path: String) -> (r: Self)
        ensures
            r.wf(),
            r.path == Some(path),
            r.what == what,
            r.state is Open,
    {
        LoadJob { path: Some(path), what, state: LoadState::Open }
    }

    /// Whether the job is over.
    pub fn is_done(&self) -> (r: bool)
        ensures
            r == self.done(),
    {
        match &self.state {
            LoadState::OpenFailed(_) => true,
            LoadState::Done(_) => true,
            _ => false,
        }
    }

    /// Reports the outcome of opening the input file.
    pub fn opened(self, ev: Result<(), std::io::Error>) -> (r: Self)
        requires
            self.wf(),
        ensures
            r == self.after_open(ev),
            r.wf(),
    {
        match self.state {
            LoadState::Open => LoadJob {
                path: self.path,
                what: self.what,
                state: match ev {
                    Ok(()) => LoadState::Read,
                    Err(err) => LoadState::OpenFailed(err),
                },
            },
            state => LoadJob { path: self.path, what: self.what, state },
        }
    }

    /// Reports the outcome of reading the stream in full.
    pub fn read(self, ev: Result<String, std::io::Error>) -> (r: Self)
        requires
            self.wf(),
        ensures
            self.read_to(ev, r),
            r.wf(),
    {
        match self.state {
            LoadState::Read => LoadJob {
                path: self.path,
                what: self.what,
                state: LoadState::Done(finish_read::<S>(ev)),
            },
            state => LoadJob { path: self.path, what: self.what, state },
        }
    }

    /// The result of the job, once it is over.
    pub fn finish(self) -> (r: Option<Result<S::Target, SerializableError<S::Error>>>)
        requires
            self.wf(),
        ensures
            r == if self.done() {
                Some(self.outcome())
            } else {
                None
            },
    {
        match self.state {
            LoadState::OpenFailed(err) => match self.path {
                Some(path) => Some(Err(SerializableError::FileOpen { path, err })),
                None => Some(Err(SerializableError::FileOpen { path: String::new(), err })),
            },
            LoadState::Done(Ok(v)) => Some(Ok(v)),
            LoadState::Done(Err(e)) => {
                let at_reader = SerializableError::DeserializeReader { what: self.what, err: e };
                match self.path {
                    Some(p) => Some(Err(at_reader.into_file_error(p))),
                    None => Some(Err(at_reader)),
                }
            },
            _ => None,
        }
    }
}

/// Each step of an encode keeps the job's path, its flush mode and the name
/// of the value's type.
pub proof fn lemma_save_steps_keep_path<S: Serializer>(
    job: SaveJob<S>,
    ev: Result<(), std::io::Error>,
)
    requires
        job.wf(),
    ensures
        job.after_create(ev).wf(),
        job.after_create(ev).path == job.path,
        job.after_create(ev).flush == job.flush,
        job.after_create(ev).what == job.what,
        job.after_stream(ev).wf(),
        job.after_stream(ev).path == job.path,
        job.after_stream(ev).flush == job.flush,
        job.after_stream(ev).what == job.what,
{
}

/// An encode to a file that fails reports a file-level failure that carries
/// the file's path, never a failure on a stream.
pub proof fn lemma_save_to_path_fails_at_file<S: Serializer>(job: SaveJob<S>)
    requires
        job.wf(),
        job.path is Some,
        job.done(),
        job.outcome() is Err,
    ensures
        job.outcome()->Err_0.is_file_level(),
        !job.outcome()->Err_0.is_stream_level(),
        job.outcome()->Err_0.file_path() == job.path,
{
}

/// Each step of a decode keeps the job's path and the name of the value's
/// type.
pub proof fn lemma_load_steps_keep_path<S: Serializer>(
    job: LoadJob<S>,
    opened: Result<(), std::io::Error>,
    read: Result<String, std::io::Error>,
    r: LoadJob<S>,
)
    requires
        job.wf(),
        job.read_to(read, r),
    ensures
        job.after_open(opened).wf(),
        job.after_open(opened).path == job.path,
        job.after_open(opened).what == job.what,
        r.wf(),
        r.path == job.path,
        r.what == job.what,
{
}

/// A decode from a file that fails reports a file-level failure that carries
/// the file's path, never a failure on a stream.
pub proof fn lemma_load_from_path_fails_at_file<S: Serializer>(job: LoadJob<S>)
    requires
        job.wf(),
        job.path is Some,
        job.done(),
        job.outcome() is Err,
    ensures
        job.outcome()->Err_0.is_file_level(),
        !job.outcome()->Err_0.is_stream_level(),
        job.outcome()->Err_0.file_path() == job.path,
{
}

/// An encode that flushes, whose bytes were written and whose flush then
/// failed, fails with the backend's flush failure around the flush's error,
/// never with a write failure.
pub proof fn lemma_flush_failure_reported<S: Serializer>(
    job: SaveJob<S>,
    text: String,
    err: std::io::Error,
)
    requires
        job.wf(),
        job.flush,
        job.state == SaveState::<S::Error>::Stream(WriteStep::Write(text)),
    ensures
        ({
            let end = job.after_stream(Ok(())).after_stream(Err(err));
            &&& end.done()
            &&& match end.outcome() {
                Err(SerializableError::SerializeWriter { err: e, .. }) => {
                    &&& job.path is None
                    &&& e == S::wrap_io(ErrorKind::Flush, err)
                    &&& S::kind(e) == ErrorKind::Flush
                    &&& S::io_cause(e) == Some(err)
                },
                Err(SerializableError::SerializeFile { err: e, .. }) => {
                    &&& job.path is Some
                    &&& e == S::wrap_io(ErrorKind::Flush, err)
                    &&& S::kind(e) == ErrorKind::Flush
                    &&& S::io_cause(e) == Some(err)
                },
                _ => false,
            }
        }),
{
    S::lemma_wrap_io(ErrorKind::Flush, err);
}

} // verus!
