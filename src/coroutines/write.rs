//! The coroutine that writes one chunk of bytes from an owned queue.

use vstd::prelude::*;

use crate::io::{arg_view, error_io, output_outcome, unexpected_io, Io, IoView, Output, OutputView};

verus! {

/// I/O-free coroutine for writing bytes into a stream.
///
/// One write is attempted: a short write is reported as success with
/// the count that the runtime accepted, and the rest is not sent again.
/// While the coroutine is suspended, its queue belongs to the pending
/// request; enqueueing bytes then starts a new queue.
#[derive(Debug)]
pub struct Write {
    bytes: Option<Vec<u8>>,
}

/// The mathematical value of a [`Write`]: the queue it holds, if any.
pub struct WriteView {
    pub bytes: Option<Seq<u8>>,
}

impl WriteView {
    /// The coroutine after more bytes are enqueued.
    pub open spec fn extended(self, more: Seq<u8>) -> WriteView {
        match self.bytes {
            Some(bytes) => WriteView { bytes: Some(bytes + more) },
            None => WriteView { bytes: Some(more) },
        }
    }

    /// What one call of `resume` does: the coroutine's next value and
    /// the call's result.
    ///
    /// Without an argument the coroutine hands its queue out in a write
    /// request; without a queue that is a usage error. A completed write
    /// is returned as is; anything else is a usage error.
    pub open spec fn resume(self, arg: Option<IoView>) -> (WriteView, Result<OutputView, IoView>) {
        match arg {
            None => match self.bytes {
                Some(bytes) => (WriteView { bytes: None }, Err(IoView::Write(Err(bytes)))),
                None => (self, Err(error_io("write bytes not ready"@))),
            },
            Some(IoView::Write(Ok(output))) => (self, Ok(output)),
            Some(io) => (self, Err(unexpected_io("expected write output"@, io))),
        }
    }
}

impl View for Write {
    type V = WriteView;

    closed spec fn view(&self) -> WriteView {
        WriteView {
            bytes: match self.bytes {
                Some(bytes) => Some(bytes@),
                None => None,
            },
        }
    }
}

impl Write {
    /// Creates a new coroutine to write the given bytes.
    pub fn new(bytes: Vec<u8>) -> (r: Write)
        ensures
            r@ == (WriteView { bytes: Some(bytes@) }),
    {
        Write { bytes: Some(bytes) }
    }

    /// Replaces the queue with the given bytes.
    pub fn replace(&mut self, bytes: Vec<u8>)
        ensures
            final(self)@ == (WriteView { bytes: Some(bytes@) }),
    {
        *self = Write::new(bytes);
    }

    /// Appends bytes to the queue, or starts a new queue with them when
    /// the coroutine holds none.
    pub fn extend(&mut self, more_bytes: Vec<u8>)
        ensures
            final(self)@ == old(self)@.extended(more_bytes@),
    {
        let mut more_bytes = more_bytes;
        match &mut self.bytes {
            Some(bytes) => {
                bytes.append(&mut more_bytes);
            },
            None => {
                self.replace(more_bytes);
            },
        }
    }

    /// Makes the write progress.
    pub fn resume(&mut self, arg: Option<Io>) -> (r: Result<Output, Io>)
        ensures
            (final(self)@, output_outcome(r)) == old(self)@.resume(arg_view(arg)),
    {
        let arg = match arg {
            Some(arg) => arg,
            None => {
                let bytes = match self.bytes.take() {
                    Some(bytes) => bytes,
                    None => {
                        return Err(Io::err("write bytes not ready"));
                    },
                };
                return Err(Io::Write(Err(bytes)));
            },
        };
        match arg {
            Io::Write(Ok(output)) => Ok(output),
            other => Err(Io::unexpected("expected write output", &other)),
        }
    }
}

impl Default for Write {
    fn default() -> (r: Write)
        ensures
            r@ == (WriteView { bytes: None }),
    {
        Write { bytes: None }
    }
}

/// Resuming twice without handing back the completed request is a usage
/// error the second time: the queue left with the first request.
pub proof fn write_resume_twice(write: WriteView)
    ensures
        write.resume(None).0.resume(None).1 == Err::<OutputView, IoView>(
            error_io("write bytes not ready"@),
        ),
{
}

/// A write completed with fewer bytes than were queued is reported as a
/// success with that lesser count, and the rest is not sent again: the
/// coroutine keeps no bytes, so resuming it once more is a usage error.
pub proof fn write_short_is_reported(bytes: Seq<u8>, output: OutputView)
    requires
        output.bytes_count < bytes.len(),
    ensures
        ({
            let (suspended, r) = (WriteView { bytes: Some(bytes) }).resume(None);
            let (done, r2) = suspended.resume(Some(IoView::Write(Ok(output))));
            &&& r == Err::<OutputView, IoView>(IoView::Write(Err(bytes)))
            &&& r2 == Ok::<OutputView, IoView>(output)
            &&& r2->Ok_0.bytes_count < bytes.len()
            &&& done.bytes is None
            &&& done.resume(None).1 == Err::<OutputView, IoView>(error_io("write bytes not ready"@))
        }),
{
}

} // verus!
