//! I/O-free stream coroutines.
//!
//! A coroutine never performs I/O itself: when it needs bytes moved, it
//! suspends by returning an [`Io`] request that owns the buffer
//! involved. A runtime performs the stream operation and hands the
//! completed request back, and the coroutine resumes with it.

pub mod coroutines;
mod io;
pub mod memory;
pub mod runtimes;

pub use self::io::{
    arg_view, arg_wf, bytes_outcome, error_io, input_view, output_outcome, stream_error, unexpected_io, Io,
    IoView, Output, OutputView,
};
