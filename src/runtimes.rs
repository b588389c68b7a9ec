//! What a runtime decides around the one stream call that fulfils a
//! request.
//!
//! A runtime takes a suspend-form request, performs exactly one read or
//! write on its stream, and hands back the resume-form request with the
//! count that the call reported. It never retries: a short read or write
//! is reported as it is, and a read of zero bytes is the end of the
//! stream. The stream call itself belongs to the runtime; this module
//! holds the rest.

use vstd::prelude::*;

use crate::io::{input_view, Io, IoView, Output, OutputView};

verus! {

/// The one stream call that fulfils a request, with the buffer it uses.
#[derive(Debug, PartialEq, Eq)]
pub enum Task {
    /// Read once into the buffer.
    Read(Vec<u8>),
    /// Write the bytes once.
    Write(Vec<u8>),
}

/// The mathematical value of a [`Task`].
pub enum TaskView {
    Read(Seq<u8>),
    Write(Seq<u8>),
}

impl View for Task {
    type V = TaskView;

    open spec fn view(&self) -> TaskView {
        match self {
            Task::Read(buffer) => TaskView::Read(buffer@),
            Task::Write(bytes) => TaskView::Write(bytes@),
        }
    }
}

/// Why a runtime refuses a request without performing any I/O.
#[derive(Debug, PartialEq, Eq)]
pub enum Refusal {
    /// The request was an error raised by the coroutine.
    Failed(String),
    /// A read request came in its resume form, without a buffer to fill.
    MissingReadBuffer,
    /// A write request came in its resume form, without bytes to send.
    MissingWriteBytes,
}

/// The mathematical value of a [`Refusal`].
pub enum RefusalView {
    Failed(Seq<char>),
    MissingReadBuffer,
    MissingWriteBytes,
}

impl View for Refusal {
    type V = RefusalView;

    open spec fn view(&self) -> RefusalView {
        match self {
            Refusal::Failed(message) => RefusalView::Failed(message@),
            Refusal::MissingReadBuffer => RefusalView::MissingReadBuffer,
            Refusal::MissingWriteBytes => RefusalView::MissingWriteBytes,
        }
    }
}

/// The buffer that a read request asks to fill, or its refusal.
pub open spec fn read_input(input: Result<OutputView, Seq<u8>>) -> Result<Seq<u8>, RefusalView> {
    match input {
        Err(buffer) => Ok(buffer),
        Ok(_) => Err(RefusalView::MissingReadBuffer),
    }
}

/// The bytes that a write request asks to send, or its refusal.
pub open spec fn write_input(input: Result<OutputView, Seq<u8>>) -> Result<Seq<u8>, RefusalView> {
    match input {
        Err(bytes) => Ok(bytes),
        Ok(_) => Err(RefusalView::MissingWriteBytes),
    }
}

/// The stream call that a request asks for, or its refusal.
pub open spec fn task_of(io: IoView) -> Result<TaskView, RefusalView> {
    match io {
        IoView::Error(message) => Err(RefusalView::Failed(message)),
        IoView::Read(input) => match read_input(input) {
            Ok(buffer) => Ok(TaskView::Read(buffer)),
            Err(refusal) => Err(refusal),
        },
        IoView::Write(input) => match write_input(input) {
            Ok(bytes) => Ok(TaskView::Write(bytes)),
            Err(refusal) => Err(refusal),
        },
    }
}

/// The view of what `read` and `write` return.
pub open spec fn buffer_outcome(r: Result<Vec<u8>, Refusal>) -> Result<Seq<u8>, RefusalView> {
    match r {
        Ok(buffer) => Ok(buffer@),
        Err(refusal) => Err(refusal@),
    }
}

/// The view of what `handle` returns.
pub open spec fn task_outcome(r: Result<Task, Refusal>) -> Result<TaskView, RefusalView> {
    match r {
        Ok(task) => Ok(task@),
        Err(refusal) => Err(refusal@),
    }
}

impl TaskView {
    /// The buffer that the call reads into or writes from.
    pub open spec fn buffer(self) -> Seq<u8> {
        match self {
            TaskView::Read(buffer) => buffer,
            TaskView::Write(bytes) => bytes,
        }
    }

    /// The resume-form request once the call reported `bytes_count`.
    pub open spec fn completed(self, bytes_count: nat) -> IoView {
        match self {
            TaskView::Read(buffer) => IoView::Read(
                Ok(OutputView { buffer, bytes_count }),
            ),
            TaskView::Write(bytes) => IoView::Write(Ok(OutputView { buffer: bytes, bytes_count })),
        }
    }
}

/// Takes the buffer out of a read request, for one stream read to fill.
pub fn read(input: Result<Output, Vec<u8>>) -> (r: Result<Vec<u8>, Refusal>)
    ensures
        buffer_outcome(r) == read_input(input_view(input)),
{
    match input {
        Err(buffer) => Ok(buffer),
        Ok(_) => Err(Refusal::MissingReadBuffer),
    }
}

/// Takes the bytes out of a write request, for one stream write to send.
pub fn write(input: Result<Output, Vec<u8>>) -> (r: Result<Vec<u8>, Refusal>)
    ensures
        buffer_outcome(r) == write_input(input_view(input)),
{
    match input {
        Err(bytes) => Ok(bytes),
        Ok(_) => Err(Refusal::MissingWriteBytes),
    }
}

/// Decides which stream call fulfils the request: an error request is
/// refused as a failure, and a request in its resume form as misuse.
pub fn handle(io: Io) -> (r: Result<Task, Refusal>)
    ensures
        task_outcome(r) == task_of(io@),
{
    match io {
        Io::Error(message) => Err(Refusal::Failed(message)),
        Io::Read(input) => match read(input) {
            Ok(buffer) => Ok(Task::Read(buffer)),
            Err(refusal) => Err(refusal),
        },
        Io::Write(input) => match write(input) {
            Ok(bytes) => Ok(Task::Write(bytes)),
            Err(refusal) => Err(refusal),
        },
    }
}

impl Task {
    /// Builds the resume-form request once the stream call reported
    /// `bytes_count`, which a stream never puts past the buffer's end.
    pub fn complete(self, bytes_count: usize) -> (r: Io)
        requires
            bytes_count <= self@.buffer().len(),
        ensures
            r@ == self@.completed(bytes_count as nat),
            r@.wf(),
    {
        match self {
            Task::Read(buffer) => Io::Read(Ok(Output { buffer, bytes_count })),
            Task::Write(bytes) => Io::Write(Ok(Output { buffer: bytes, bytes_count })),
        }
    }
}

} // verus!
