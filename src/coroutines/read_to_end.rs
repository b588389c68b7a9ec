//! The coroutine that reads bytes until the end of the stream.

use vstd::prelude::*;

use crate::io::{arg_view, arg_wf, bytes_outcome, error_io, Io, IoView};

use super::read::{Read, ReadView, DEFAULT_CAPACITY};
use super::read_exact::arg_rank;
use crate::memory::{chunking, lemma_chunking_rest, min, read_from, run};

verus! {

/// I/O-free coroutine for reading bytes until the stream ends.
///
/// It drives an inner [`Read`] coroutine and passes its read requests
/// through, gathering each chunk, until a read of zero bytes marks the
/// end of the stream.
#[derive(Debug)]
pub struct ReadToEnd {
    read: Read,
    buffer: Option<Vec<u8>>,
}

/// The mathematical value of a [`ReadToEnd`].
pub struct ReadToEndView {
    pub read: ReadView,
    pub buffer: Option<Seq<u8>>,
}

impl ReadToEndView {
    /// A coroutine that has gathered nothing yet, with an inner read
    /// coroutine of the given capacity.
    pub open spec fn fresh(capacity: nat) -> ReadToEndView {
        ReadToEndView { read: ReadView::fresh(capacity), buffer: Some(Seq::empty()) }
    }

    /// What one call of `resume` does: the coroutine's next value and
    /// the call's result.
    ///
    /// Once it has returned its bytes the coroutine answers every resume
    /// with a usage error. Otherwise the inner read is resumed: its
    /// requests and errors pass through. An empty chunk ends the stream
    /// and the bytes gathered are returned; any other chunk is appended,
    /// after which the coroutine goes on as if resumed without argument.
    pub open spec fn resume(self, arg: Option<IoView>) -> (ReadToEndView, Result<Seq<u8>, IoView>)
        decreases arg_rank(arg),
    {
        match self.buffer {
            None => (self, Err(error_io("read to end buffer not ready"@))),
            Some(gathered) => {
                let (read, r) = self.read.resume(arg);
                match r {
                    Err(io) => (ReadToEndView { read, ..self }, Err(io)),
                    Ok(output) => if output.bytes_count == 0 {
                        (ReadToEndView { read, buffer: None }, Ok(gathered))
                    } else {
                        let next = ReadToEndView {
                            read: read.replaced(output.buffer),
                            buffer: Some(gathered + output.bytes()),
                        };
                        next.resume(None)
                    },
                }
            },
        }
    }
}

impl View for ReadToEnd {
    type V = ReadToEndView;

    closed spec fn view(&self) -> ReadToEndView {
        ReadToEndView {
            read: self.read@,
            buffer: match self.buffer {
                Some(buffer) => Some(buffer@),
                None => None,
            },
        }
    }
}

impl ReadToEnd {
    /// Creates a coroutine reading to the end of the stream in chunks of
    /// at most [`DEFAULT_CAPACITY`] bytes.
    pub fn new() -> (r: ReadToEnd)
        ensures
            r@ == ReadToEndView::fresh(DEFAULT_CAPACITY as nat),
    {
        ReadToEnd { read: Read::new(), buffer: Some(Vec::new()) }
    }

    /// Creates a coroutine reading to the end of the stream in chunks of
    /// at most `capacity` bytes.
    pub fn with_capacity(capacity: usize) -> (r: ReadToEnd)
        ensures
            r@ == ReadToEndView::fresh(capacity as nat),
    {
        ReadToEnd { read: Read::with_capacity(capacity), buffer: Some(Vec::new()) }
    }

    /// Makes the read progress.
    pub fn resume(&mut self, arg: Option<Io>) -> (r: Result<Vec<u8>, Io>)
        requires
            arg_wf(arg_view(arg)),
        ensures
            (final(self)@, bytes_outcome(r)) == old(self)@.resume(arg_view(arg)),
    {
        let mut next = arg;
        loop
            invariant
                arg_wf(arg_view(next)),
                self@.resume(arg_view(next)) == old(self)@.resume(arg_view(arg)),
            decreases arg_rank(arg_view(next)),
        {
            if self.buffer.is_none() {
                return Err(Io::err("read to end buffer not ready"));
            }
            let ghost before = self@;
            let ghost arg_before = arg_view(next);
            let output = match self.read.resume(next.take()) {
                Ok(output) => output,
                Err(io) => {
                    return Err(io);
                },
            };
            if output.bytes_count == 0 {
                return Ok(self.buffer.take().unwrap());
            }
            match &mut self.buffer {
                Some(buffer) => buffer.extend_from_slice(output.bytes()),
                None => {},
            }
            self.read.replace(output.buffer);
            proof {
                let (read, r) = before.read.resume(arg_before);
                assert(r == Ok::<_, IoView>(output@));
                assert(self@.buffer == Some(before.buffer.unwrap() + output@.bytes()));
                assert(self@.read == read.replaced(output@.buffer));
            }
        }
    }
}

impl Default for ReadToEnd {
    fn default() -> (r: ReadToEnd)
        ensures
            r@ == ReadToEndView::fresh(DEFAULT_CAPACITY as nat),
    {
        ReadToEnd::new()
    }
}

/// The step function of a [`ReadToEnd`] coroutine.
pub open spec fn to_end_steps() -> spec_fn(ReadToEndView, Option<IoView>) -> (
    ReadToEndView,
    Result<Seq<u8>, IoView>,
) {
    |c: ReadToEndView, arg: Option<IoView>| c.resume(arg)
}

proof fn lemma_drain(c: ReadToEndView, source: Seq<u8>, limits: Seq<nat>)
    requires
        c.read.wf(),
        c.read.buffer is Some,
        c.read.capacity > 0,
        c.buffer is Some,
        chunking(limits),
        limits.len() > source.len(),
    ensures
        run(to_end_steps(), c, None, source, limits) == Some(
            (Ok::<_, IoView>(c.buffer.unwrap() + source), Seq::<u8>::empty()),
        ),
    decreases source.len(),
{
    lemma_chunking_rest(limits);
    let buffer = c.read.buffer.unwrap();
    let gathered = c.buffer.unwrap();
    let n = min(min(buffer.len(), source.len()), limits[0]);
    let (served, rest) = read_from(source, buffer, limits[0]);
    let filled = source.take(n as int) + buffer.skip(n as int);
    let (suspended, r) = c.resume(None);
    assert(r == Err::<Seq<u8>, IoView>(IoView::Read(Err(buffer))));
    if n > 0 {
        let next = ReadToEndView {
            read: ReadView { capacity: c.read.capacity, buffer: None }.replaced(filled),
            buffer: Some(gathered + filled.take(n as int)),
        };
        assert(suspended.resume(Some(served)) == next.resume(None));
        assert(run(to_end_steps(), suspended, Some(served), rest, limits.drop_first()) == run(
            to_end_steps(),
            next,
            None,
            rest,
            limits.drop_first(),
        ));
        lemma_drain(next, rest, limits.drop_first());
        assert(gathered + filled.take(n as int) + rest =~= gathered + source);
    } else {
        assert(source =~= Seq::<u8>::empty());
        assert(gathered + source =~= gathered);
    }
}

/// Reading to the end of a stream gives exactly the bytes that it held
/// and leaves it empty, for any capacity but zero and however the stream
/// cuts its deliveries into chunks.
pub proof fn read_to_end_drains(capacity: nat, source: Seq<u8>, limits: Seq<nat>)
    requires
        capacity > 0,
        chunking(limits),
        limits.len() > source.len(),
    ensures
        run(to_end_steps(), ReadToEndView::fresh(capacity), None, source, limits) == Some(
            (Ok::<_, IoView>(source), Seq::<u8>::empty()),
        ),
{
    lemma_drain(ReadToEndView::fresh(capacity), source, limits);
    assert(Seq::<u8>::empty() + source =~= source);
}

proof fn lemma_to_end_ok_finishes(c: ReadToEndView, arg: Option<IoView>)
    ensures
        c.resume(arg).1 is Ok ==> c.resume(arg).0.buffer is None,
    decreases arg_rank(arg),
{
    if c.buffer is Some {
        let (read, r) = c.read.resume(arg);
        if r is Ok && r->Ok_0.bytes_count != 0 {
            let output = r->Ok_0;
            let next = ReadToEndView {
                read: read.replaced(output.buffer),
                buffer: Some(c.buffer.unwrap() + output.bytes()),
            };
            lemma_to_end_ok_finishes(next, None);
        }
    }
}

/// Once it has returned its bytes, the coroutine answers every later
/// resume, whatever its argument, with a usage error.
pub proof fn read_to_end_finished(c: ReadToEndView, arg: Option<IoView>, later: Option<IoView>)
    ensures
        c.resume(arg).1 is Ok ==> c.resume(arg).0.resume(later).1 == Err::<Seq<u8>, IoView>(
            error_io("read to end buffer not ready"@),
        ),
{
    lemma_to_end_ok_finishes(c, arg);
}

/// Resuming twice without handing back the completed request is a usage
/// error the second time.
pub proof fn read_to_end_resume_twice(c: ReadToEndView)
    ensures
        c.resume(None).0.resume(None).1 is Err,
        c.resume(None).0.resume(None).1->Err_0 is Error,
{
}

} // verus!
