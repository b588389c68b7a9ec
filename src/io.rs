//! The vocabulary exchanged between coroutines and runtimes: requests
//! that suspend a coroutine, and the outputs that resume it.

use vstd::prelude::*;
use vstd::string::StringExecFns;
use vstd::slice::slice_subrange;

verus! {

/// A buffer together with how many bytes of its prefix hold data.
///
/// The buffer may be longer than `bytes_count`: only the first
/// `bytes_count` bytes are meaningful, so that one allocation can be
/// reused across reads.
#[derive(Clone, Debug, PartialEq, Eq)]
pub struct Output {
    pub buffer: Vec<u8>,
    pub bytes_count: usize,
}

/// The mathematical value of an [`Output`].
pub struct OutputView {
    pub buffer: Seq<u8>,
    pub bytes_count: nat,
}

impl OutputView {
    /// The count never goes past the end of the buffer.
    pub open spec fn wf(self) -> bool {
        self.bytes_count <= self.buffer.len()
    }

    /// The meaningful prefix of the buffer.
    pub open spec fn bytes(self) -> Seq<u8> {
        self.buffer.take(self.bytes_count as int)
    }
}

impl View for Output {
    type V = OutputView;

    open spec fn view(&self) -> OutputView {
        OutputView { buffer: self.buffer@, bytes_count: self.bytes_count as nat }
    }
}

impl Output {
    /// The bytes that the stream operation filled in.
    pub fn bytes(&self) -> (r: &[u8])
        requires
            self@.wf(),
        ensures
            r@ == self@.bytes(),
    {
        slice_subrange(self.buffer.as_slice(), 0, self.bytes_count)
    }
}

/// A stream I/O request, emitted by a coroutine when it suspends and
/// handed back to it, fulfilled, when it resumes.
///
/// For `Read` and `Write`, `Err` holds the buffer still waiting for its
/// operation (the suspend form) and `Ok` the completed operation (the
/// resume form).
#[derive(Debug, PartialEq, Eq)]
pub enum Io {
    Error(String),
    Read(Result<Output, Vec<u8>>),
    Write(Result<Output, Vec<u8>>),
}

/// The mathematical value of an [`Io`].
pub enum IoView {
    Error(Seq<char>),
    Read(Result<OutputView, Seq<u8>>),
    Write(Result<OutputView, Seq<u8>>),
}

/// The view of what a read or write request carries: the completed
/// output, or the buffer still waiting for its operation.
pub open spec fn input_view(input: Result<Output, Vec<u8>>) -> Result<OutputView, Seq<u8>> {
    match input {
        Ok(output) => Ok(output@),
        Err(buffer) => Err(buffer@),
    }
}

impl View for Io {
    type V = IoView;

    open spec fn view(&self) -> IoView {
        match self {
            Io::Error(message) => IoView::Error(message@),
            Io::Read(input) => IoView::Read(input_view(*input)),
            Io::Write(input) => IoView::Write(input_view(*input)),
        }
    }
}

impl IoView {
    /// Every completed output in the request is well formed.
    pub open spec fn wf(self) -> bool {
        match self {
            IoView::Read(Ok(output)) => output.wf(),
            IoView::Write(Ok(output)) => output.wf(),
            _ => true,
        }
    }

    /// A short description of the request's kind, for error messages.
    pub open spec fn kind_name(self) -> Seq<char> {
        match self {
            IoView::Error(_) => "an error"@,
            IoView::Read(Ok(_)) => "a read output"@,
            IoView::Read(Err(_)) => "a pending read"@,
            IoView::Write(Ok(_)) => "a write output"@,
            IoView::Write(Err(_)) => "a pending write"@,
        }
    }
}

/// The text of an error request raised with the given message.
pub open spec fn stream_error(message: Seq<char>) -> Seq<char> {
    "stream error: "@ + message
}

/// The error request raised with the given message.
pub open spec fn error_io(message: Seq<char>) -> IoView {
    IoView::Error(stream_error(message))
}

/// The error request for a resume with a request of the wrong kind.
pub open spec fn unexpected_io(expected: Seq<char>, got: IoView) -> IoView {
    error_io(expected + ", got "@ + got.kind_name())
}

/// The view of an optional request.
pub open spec fn arg_view(arg: Option<Io>) -> Option<IoView> {
    match arg {
        Some(io) => Some(io@),
        None => None,
    }
}

/// An optional request whose completed outputs are well formed.
pub open spec fn arg_wf(arg: Option<IoView>) -> bool {
    match arg {
        Some(io) => io.wf(),
        None => true,
    }
}

/// The view of what a single read or write step returns.
pub open spec fn output_outcome(r: Result<Output, Io>) -> Result<OutputView, IoView> {
    match r {
        Ok(output) => Ok(output@),
        Err(io) => Err(io@),
    }
}

/// The view of what a composite read returns.
pub open spec fn bytes_outcome(r: Result<Vec<u8>, Io>) -> Result<Seq<u8>, IoView> {
    match r {
        Ok(bytes) => Ok(bytes@),
        Err(io) => Err(io@),
    }
}

impl Clone for Io {
    fn clone(&self) -> (r: Io)
        ensures
            r@ == self@,
    {
        match self {
            Io::Error(message) => Io::Error(message.clone()),
            Io::Read(Ok(output)) => Io::Read(
                Ok(Output { buffer: output.buffer.clone(), bytes_count: output.bytes_count }),
            ),
            Io::Read(Err(buffer)) => Io::Read(Err(buffer.clone())),
            Io::Write(Ok(output)) => Io::Write(
                Ok(Output { buffer: output.buffer.clone(), bytes_count: output.bytes_count }),
            ),
            Io::Write(Err(bytes)) => Io::Write(Err(bytes.clone())),
        }
    }
}

impl Io {
    /// Builds an error request whose text is `stream error: ` followed
    /// by the message.
    pub fn err(message: &str) -> (r: Io)
        ensures
            r@ == error_io(message@),
    {
        let mut text = String::from_str("stream error: ");
        text.append(message);
        Io::Error(text)
    }

    /// Builds the error request for a resume with `got`, where a
    /// request described by `expected` was due.
    pub fn unexpected(expected: &str, got: &Io) -> (r: Io)
        ensures
            r@ == unexpected_io(expected@, got@),
    {
        let mut text = String::from_str(expected);
        text.append(", got ");
        text.append(got.kind_name());
        Io::err(text.as_str())
    }

    /// A short description of the request's kind.
    pub fn kind_name(&self) -> (r: &'static str)
        ensures
            r@ == self@.kind_name(),
    {
        match self {
            Io::Error(_) => "an error",
            Io::Read(Ok(_)) => "a read output",
            Io::Read(Err(_)) => "a pending read",
            Io::Write(Ok(_)) => "a write output",
            Io::Write(Err(_)) => "a pending write",
        }
    }
}

} // verus!
