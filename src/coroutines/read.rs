//! The coroutine that reads one chunk of bytes into an owned buffer.

use vstd::prelude::*;

use crate::memory::{chunking, lemma_chunking_rest, min, read_from};
use crate::io::{arg_view, error_io, output_outcome, unexpected_io, Io, IoView, Output, OutputView};

verus! {

/// The capacity of a read coroutine built by [`Read::new`].
pub const DEFAULT_CAPACITY: usize = 1024;

/// I/O-free coroutine for reading bytes into a buffer.
///
/// The capacity of the coroutine is the length of its buffer: the most
/// bytes that one read may fill in. While the coroutine is suspended,
/// the buffer belongs to the pending request and the coroutine holds
/// none.
#[derive(Debug)]
pub struct Read {
    capacity: usize,
    buffer: Option<Vec<u8>>,
}

/// The mathematical value of a [`Read`].
pub struct ReadView {
    pub capacity: nat,
    pub buffer: Option<Seq<u8>>,
}

impl ReadView {
    /// A held buffer is as long as the capacity.
    pub open spec fn wf(self) -> bool {
        match self.buffer {
            Some(buffer) => buffer.len() == self.capacity,
            None => true,
        }
    }

    /// A coroutine holding a zeroed buffer of the given capacity.
    pub open spec fn fresh(capacity: nat) -> ReadView {
        ReadView { capacity, buffer: Some(Seq::new(capacity, |i: int| 0u8)) }
    }

    /// The coroutine after it takes back the given buffer.
    pub open spec fn replaced(self, buffer: Seq<u8>) -> ReadView {
        ReadView { capacity: buffer.len(), buffer: Some(buffer) }
    }

    /// What one call of `resume` does: the coroutine's next value and
    /// the call's result.
    ///
    /// Without an argument the coroutine hands its buffer out in a read
    /// request; without a buffer that is a usage error. A completed read
    /// is returned as is, and its buffer goes to the caller, who may hand
    /// it back with `replace`. Any other argument, a pending read among
    /// them, is a usage error: the coroutine is left as it was, and the
    /// request, buffer included, is consumed by the error.
    pub open spec fn resume(self, arg: Option<IoView>) -> (ReadView, Result<OutputView, IoView>) {
        match arg {
            None => match self.buffer {
                Some(buffer) => (
                    ReadView { capacity: self.capacity, buffer: None },
                    Err(IoView::Read(Err(buffer))),
                ),
                None => (self, Err(error_io("read buffer not initialized"@))),
            },
            Some(IoView::Read(Ok(output))) => (self, Ok(output)),
            Some(io) => (self, Err(unexpected_io("expected read output"@, io))),
        }
    }
}

impl View for Read {
    type V = ReadView;

    closed spec fn view(&self) -> ReadView {
        ReadView {
            capacity: self.capacity as nat,
            buffer: match self.buffer {
                Some(buffer) => Some(buffer@),
                None => None,
            },
        }
    }
}

impl Read {
    /// Creates a new coroutine to read bytes with a buffer capacity of
    /// [`DEFAULT_CAPACITY`].
    pub fn new() -> (r: Read)
        ensures
            r@ == ReadView::fresh(DEFAULT_CAPACITY as nat),
    {
        Read::with_capacity(DEFAULT_CAPACITY)
    }

    /// Creates a new coroutine to read bytes with the given buffer
    /// capacity.
    pub fn with_capacity(capacity: usize) -> (r: Read)
        ensures
            r@ == ReadView::fresh(capacity as nat),
    {
        let buffer = vec![0u8; capacity];
        assert(buffer@ == Seq::new(capacity as nat, |i: int| 0u8));
        Read { capacity, buffer: Some(buffer) }
    }

    /// The capacity of the coroutine.
    pub fn capacity(&self) -> (r: usize)
        ensures
            r == self@.capacity,
    {
        self.capacity
    }

    /// Replaces the inner buffer with the given one, whose length
    /// becomes the capacity.
    pub fn replace(&mut self, buffer: Vec<u8>)
        ensures
            final(self)@ == old(self)@.replaced(buffer@),
    {
        let capacity = buffer.len();
        self.buffer = Some(buffer);
        self.capacity = capacity;
    }

    /// Makes the read progress.
    pub fn resume(&mut self, arg: Option<Io>) -> (r: Result<Output, Io>)
        ensures
            (final(self)@, output_outcome(r)) == old(self)@.resume(arg_view(arg)),
    {
        let arg = match arg {
            Some(arg) => arg,
            None => {
                let buffer = match self.buffer.take() {
                    Some(buffer) => buffer,
                    None => {
                        return Err(Io::err("read buffer not initialized"));
                    },
                };
                return Err(Io::Read(Err(buffer)));
            },
        };
        match arg {
            Io::Read(Ok(output)) => Ok(output),
            other => Err(Io::unexpected("expected read output", &other)),
        }
    }
}

impl Default for Read {
    fn default() -> (r: Read)
        ensures
            r@ == ReadView::fresh(DEFAULT_CAPACITY as nat),
    {
        Read::new()
    }
}

/// The bytes gathered by a caller that resumes `read` in a loop against
/// a stream holding `source`: the i-th read request is served by one read
/// of the stream delivering at most `limits[i]` bytes, each chunk is kept
/// and its buffer handed back with `replace`, and a chunk of zero bytes
/// ends the loop. `None` when the schedule runs out first.
pub open spec fn read_chunks(read: ReadView, source: Seq<u8>, limits: Seq<nat>) -> Option<Seq<u8>>
    decreases limits.len(),
{
    let (suspended, r) = read.resume(None);
    match r {
        Err(IoView::Read(Err(buffer))) => if limits.len() == 0 {
            None
        } else {
            let (served, rest) = read_from(source, buffer, limits[0]);
            let (after, r) = suspended.resume(Some(served));
            match r {
                Ok(output) => if output.bytes_count == 0 {
                    Some(Seq::empty())
                } else {
                    match read_chunks(after.replaced(output.buffer), rest, limits.drop_first()) {
                        Some(tail) => Some(output.bytes() + tail),
                        None => None,
                    }
                },
                Err(_) => None,
            }
        },
        _ => None,
    }
}

proof fn lemma_read_chunks(read: ReadView, source: Seq<u8>, limits: Seq<nat>)
    requires
        read.wf(),
        read.buffer is Some,
        read.capacity > 0,
        chunking(limits),
        limits.len() > source.len(),
    ensures
        read_chunks(read, source, limits) == Some(source),
    decreases source.len(),
{
    lemma_chunking_rest(limits);
    let buffer = read.buffer.unwrap();
    let n = min(min(buffer.len(), source.len()), limits[0]);
    let (served, rest) = read_from(source, buffer, limits[0]);
    let filled = source.take(n as int) + buffer.skip(n as int);
    if n > 0 {
        let after = ReadView { capacity: read.capacity, buffer: None }.replaced(filled);
        lemma_read_chunks(after, rest, limits.drop_first());
        assert(filled.take(n as int) + rest =~= source);
    } else {
        assert(source =~= Seq::<u8>::empty());
    }
}

/// Reading chunk by chunk until a chunk of zero bytes, taking the buffer
/// back after each chunk, gives back exactly the bytes that the stream
/// held, for any capacity but zero and however the stream cuts its
/// deliveries into chunks.
pub proof fn read_round_trip(capacity: nat, source: Seq<u8>, limits: Seq<nat>)
    requires
        capacity > 0,
        chunking(limits),
        limits.len() > source.len(),
    ensures
        read_chunks(ReadView::fresh(capacity), source, limits) == Some(source),
{
    lemma_read_chunks(ReadView::fresh(capacity), source, limits);
}

/// Resuming twice without handing back the completed request is a usage
/// error the second time: the buffer left with the first request.
pub proof fn read_resume_twice(read: ReadView)
    ensures
        read.resume(None).0.resume(None).1 == Err::<OutputView, IoView>(
            error_io("read buffer not initialized"@),
        ),
{
}

} // verus!
