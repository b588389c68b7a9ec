//! The coroutine that reads exactly a given number of bytes.

use vstd::prelude::*;

use crate::io::{arg_view, arg_wf, bytes_outcome, error_io, Io, IoView, OutputView};

use super::read::{Read, ReadView, DEFAULT_CAPACITY};
use crate::memory::{chunking, lemma_chunking_rest, min, read_from, run};

verus! {

/// I/O-free coroutine for reading exactly a given number of bytes.
///
/// It drives an inner [`Read`] coroutine and passes its read requests
/// through. Before each chunk the inner capacity is shrunk to the count
/// of bytes still due, so that no request asks for more; after each chunk
/// that count goes down by the bytes the chunk held. The bytes gathered
/// and the count still due always add up to the count asked for. A read
/// of zero bytes before the count is reached is an end-of-stream error,
/// never a short success.
#[derive(Debug)]
pub struct ReadExact {
    read: Read,
    count: usize,
    buffer: Option<Vec<u8>>,
}

/// The mathematical value of a [`ReadExact`].
pub struct ReadExactView {
    pub read: ReadView,
    pub count: nat,
    pub buffer: Option<Seq<u8>>,
}

/// The rank of an optional argument: a present one is consumed first.
pub open spec fn arg_rank(arg: Option<IoView>) -> int {
    match arg {
        Some(_) => 1,
        None => 0,
    }
}

impl ReadExactView {
    /// A coroutine that still has to read `count` bytes with an inner
    /// read coroutine of the given capacity.
    pub open spec fn fresh(capacity: nat, count: nat) -> ReadExactView {
        ReadExactView { read: ReadView::fresh(capacity), count, buffer: Some(Seq::empty()) }
    }

    /// The inner read coroutine with its capacity shrunk to the count of
    /// bytes still due.
    pub open spec fn shrunk(self) -> ReadView {
        if self.count < self.read.capacity {
            ReadView::fresh(self.count)
        } else {
            self.read
        }
    }

    /// What one call of `resume` does: the coroutine's next value and
    /// the call's result.
    ///
    /// Once the count is reached the bytes gathered are returned, and
    /// the coroutine holds nothing more. Otherwise the inner read is
    /// resumed with its capacity shrunk: its requests and errors pass
    /// through, an empty chunk is an end-of-stream error, a chunk holding
    /// more than is due is a usage error, and any other chunk is appended
    /// and taken off the count, after which the coroutine goes on as if
    /// resumed without argument.
    pub open spec fn resume(self, arg: Option<IoView>) -> (ReadExactView, Result<Seq<u8>, IoView>)
        decreases arg_rank(arg),
    {
        match self.buffer {
            None => (self, Err(error_io("read exact buffer not ready"@))),
            Some(gathered) => if self.count == 0 {
                (ReadExactView { buffer: None, ..self }, Ok(gathered))
            } else {
                let read = self.shrunk();
                let (read, r) = read.resume(arg);
                match r {
                    Err(io) => (ReadExactView { read, ..self }, Err(io)),
                    Ok(output) => if output.bytes_count == 0 {
                        (
                            ReadExactView { read, ..self },
                            Err(error_io("read 0 bytes, unexpected EOF?"@)),
                        )
                    } else if output.bytes_count > self.count {
                        (
                            ReadExactView { read, ..self },
                            Err(error_io("read more bytes than were due"@)),
                        )
                    } else {
                        let next = ReadExactView {
                            read: read.replaced(output.buffer),
                            count: (self.count - output.bytes_count) as nat,
                            buffer: Some(gathered + output.bytes()),
                        };
                        next.resume(None)
                    },
                }
            },
        }
    }
}

impl View for ReadExact {
    type V = ReadExactView;

    closed spec fn view(&self) -> ReadExactView {
        ReadExactView {
            read: self.read@,
            count: self.count as nat,
            buffer: match self.buffer {
                Some(buffer) => Some(buffer@),
                None => None,
            },
        }
    }
}

impl ReadExact {
    /// Creates a coroutine reading exactly `bytes_count` bytes, in
    /// chunks of at most [`DEFAULT_CAPACITY`] bytes.
    pub fn new(bytes_count: usize) -> (r: ReadExact)
        ensures
            r@ == ReadExactView::fresh(DEFAULT_CAPACITY as nat, bytes_count as nat),
    {
        ReadExact { read: Read::new(), count: bytes_count, buffer: Some(Vec::new()) }
    }

    /// Creates a coroutine reading exactly `bytes_count` bytes, in
    /// chunks of at most `capacity` bytes.
    pub fn with_capacity(capacity: usize, bytes_count: usize) -> (r: ReadExact)
        ensures
            r@ == ReadExactView::fresh(capacity as nat, bytes_count as nat),
    {
        ReadExact { read: Read::with_capacity(capacity), count: bytes_count, buffer: Some(Vec::new()) }
    }

    /// Makes the read progress.
    pub fn resume(&mut self, arg: Option<Io>) -> (r: Result<Vec<u8>, Io>)
        requires
            arg_wf(arg_view(arg)),
        ensures
            (final(self)@, bytes_outcome(r)) == old(self)@.resume(arg_view(arg)),
    {
        let mut next = arg;
        loop
            invariant
                arg_wf(arg_view(next)),
                self@.resume(arg_view(next)) == old(self)@.resume(arg_view(arg)),
            decreases arg_rank(arg_view(next)),
        {
            if self.buffer.is_none() {
                return Err(Io::err("read exact buffer not ready"));
            }
            if self.count == 0 {
                return Ok(self.buffer.take().unwrap());
            }
            let ghost before = self@;
            let ghost arg_before = arg_view(next);
            if self.count < self.read.capacity() {
                self.read = Read::with_capacity(self.count);
            }
            let output = match self.read.resume(next.take()) {
                Ok(output) => output,
                Err(io) => {
                    return Err(io);
                },
            };
            if output.bytes_count == 0 {
                return Err(Io::err("read 0 bytes, unexpected EOF?"));
            }
            if output.bytes_count > self.count {
                return Err(Io::err("read more bytes than were due"));
            }
            match &mut self.buffer {
                Some(buffer) => buffer.extend_from_slice(output.bytes()),
                None => {},
            }
            self.count = self.count - output.bytes_count;
            self.read.replace(output.buffer);
            proof {
                let read = before.shrunk();
                let (read, r) = read.resume(arg_before);
                assert(r == Ok::<_, IoView>(output@));
                assert(self@.buffer == Some(before.buffer.unwrap() + output@.bytes()));
                assert(self@.count == before.count - output@.bytes_count);
                assert(self@.read == read.replaced(output@.buffer));
            }
        }
    }
}

/// The step function of a [`ReadExact`] coroutine.
pub open spec fn exact_steps() -> spec_fn(ReadExactView, Option<IoView>) -> (
    ReadExactView,
    Result<Seq<u8>, IoView>,
) {
    |c: ReadExactView, arg: Option<IoView>| c.resume(arg)
}

/// The error for a stream that ended before the count was reached.
pub open spec fn early_eof() -> IoView {
    error_io("read 0 bytes, unexpected EOF?"@)
}

/// The read request in a result, if it is one.
pub open spec fn requested(r: Result<Seq<u8>, IoView>) -> Option<Seq<u8>> {
    match r {
        Err(IoView::Read(Err(buffer))) => Some(buffer),
        _ => None,
    }
}

/// The coroutine suspended on the read of its next chunk, and that chunk
/// once a read put `n` bytes into `filled`.
proof fn lemma_chunk(c: ReadExactView, filled: Seq<u8>, n: nat)
    requires
        c.read.wf(),
        c.buffer is Some,
        c.count > 0,
        filled.len() == c.shrunk().capacity,
        1 <= n <= filled.len(),
    ensures
        ({
            let (suspended, r) = c.resume(None);
            let read = c.shrunk();
            let next = ReadExactView {
                read: ReadView { capacity: read.capacity, buffer: None }.replaced(filled),
                count: (c.count - n) as nat,
                buffer: Some(c.buffer.unwrap() + filled.take(n as int)),
            };
            &&& read.capacity <= c.count
            &&& c.read.buffer is Some ==> r == Err::<Seq<u8>, IoView>(
                IoView::Read(Err(read.buffer.unwrap())),
            )
            &&& c.read.buffer is Some ==> suspended.resume(
                Some(IoView::Read(Ok(OutputView { buffer: filled, bytes_count: n }))),
            ) == next.resume(None)
        }),
{
    let (suspended, r) = c.resume(None);
    assert(suspended.shrunk() == ReadView { capacity: c.shrunk().capacity, buffer: None });
}

proof fn lemma_exact(c: ReadExactView, source: Seq<u8>, limits: Seq<nat>)
    requires
        c.read.wf(),
        c.read.buffer is Some,
        c.read.capacity > 0 || c.count == 0,
        c.buffer is Some,
        c.count <= source.len(),
        chunking(limits),
        limits.len() >= c.count,
    ensures
        run(exact_steps(), c, None, source, limits) == Some(
            (
                Ok::<_, IoView>(c.buffer.unwrap() + source.take(c.count as int)),
                source.skip(c.count as int),
            ),
        ),
    decreases c.count,
{
    let gathered = c.buffer.unwrap();
    if c.count == 0 {
        assert(gathered + source.take(0) =~= gathered);
        assert(source.skip(0) =~= source);
    } else {
        lemma_chunking_rest(limits);
        let read = c.shrunk();
        let buffer = read.buffer.unwrap();
        let n = min(min(buffer.len(), source.len()), limits[0]);
        let (served, rest) = read_from(source, buffer, limits[0]);
        let filled = source.take(n as int) + buffer.skip(n as int);
        lemma_chunk(c, filled, n);
        let (suspended, r) = c.resume(None);
        let next = ReadExactView {
            read: ReadView { capacity: read.capacity, buffer: None }.replaced(filled),
            count: (c.count - n) as nat,
            buffer: Some(gathered + filled.take(n as int)),
        };
        assert(run(exact_steps(), suspended, Some(served), rest, limits.drop_first()) == run(
            exact_steps(),
            next,
            None,
            rest,
            limits.drop_first(),
        ));
        lemma_exact(next, rest, limits.drop_first());
        assert(gathered + filled.take(n as int) + rest.take(next.count as int) =~= gathered
            + source.take(c.count as int));
        assert(rest.skip(next.count as int) =~= source.skip(c.count as int));
    }
}

/// Reading exactly `count` bytes from a stream holding at least that
/// many gives its first `count` bytes and leaves the rest unread, for any
/// capacity but zero and however the stream cuts its deliveries into
/// chunks.
pub proof fn read_exact_takes_prefix(
    capacity: nat,
    count: nat,
    source: Seq<u8>,
    limits: Seq<nat>,
)
    requires
        capacity > 0 || count == 0,
        count <= source.len(),
        chunking(limits),
        limits.len() >= count,
    ensures
        run(exact_steps(), ReadExactView::fresh(capacity, count), None, source, limits) == Some(
            (Ok::<_, IoView>(source.take(count as int)), source.skip(count as int)),
        ),
{
    lemma_exact(ReadExactView::fresh(capacity, count), source, limits);
    assert(Seq::<u8>::empty() + source.take(count as int) =~= source.take(count as int));
}

proof fn lemma_exact_eof(c: ReadExactView, source: Seq<u8>, limits: Seq<nat>)
    requires
        c.read.wf(),
        c.read.buffer is Some,
        c.buffer is Some,
        source.len() < c.count,
        chunking(limits),
        limits.len() > source.len(),
    ensures
        run(exact_steps(), c, None, source, limits) matches Some((r, _)) && r == Err::<
            Seq<u8>,
            IoView,
        >(early_eof()),
    decreases c.count,
{
    lemma_chunking_rest(limits);
    let gathered = c.buffer.unwrap();
    let read = c.shrunk();
    let buffer = read.buffer.unwrap();
    let (suspended, r) = c.resume(None);
    let (served, rest) = read_from(source, buffer, limits[0]);
    let n = min(min(buffer.len(), source.len()), limits[0]);
    let filled = source.take(n as int) + buffer.skip(n as int);
    if n == 0 {
        assert(suspended.shrunk() == ReadView { capacity: read.capacity, buffer: None });
    } else {
        lemma_chunk(c, filled, n);
        let next = ReadExactView {
            read: ReadView { capacity: read.capacity, buffer: None }.replaced(filled),
            count: (c.count - n) as nat,
            buffer: Some(gathered + filled.take(n as int)),
        };
        assert(run(exact_steps(), suspended, Some(served), rest, limits.drop_first()) == run(
            exact_steps(),
            next,
            None,
            rest,
            limits.drop_first(),
        ));
        lemma_exact_eof(next, rest, limits.drop_first());
    }
}

/// Reading exactly `count` bytes from a stream holding fewer fails with
/// the end-of-stream error rather than succeeding with fewer bytes,
/// whatever the capacity and however the stream cuts its deliveries into
/// chunks.
pub proof fn read_exact_early_eof(capacity: nat, count: nat, source: Seq<u8>, limits: Seq<nat>)
    requires
        source.len() < count,
        chunking(limits),
        limits.len() > source.len(),
    ensures
        run(exact_steps(), ReadExactView::fresh(capacity, count), None, source, limits) matches Some(
            (r, _),
        ) && r == Err::<Seq<u8>, IoView>(early_eof()),
{
    lemma_exact_eof(ReadExactView::fresh(capacity, count), source, limits);
}

/// Each step keeps the bytes gathered and the count still due adding up
/// to `total`, the count asked for; the bytes returned are exactly
/// `total` many; and a read request never asks for more than the count
/// still due, nor, while the capacity is not zero, for nothing. Once the
/// bytes are returned the coroutine gathers nothing more.
pub proof fn read_exact_keeps_total(c: ReadExactView, arg: Option<IoView>, total: nat)
    requires
        c.read.wf(),
        arg_wf(arg),
        c.buffer is Some,
        c.buffer.unwrap().len() + c.count == total,
    ensures
        ({
            let (next, r) = c.resume(arg);
            &&& next.read.wf()
            &&& next.buffer is Some ==> next.buffer.unwrap().len() + next.count == total
            &&& r is Ok ==> r->Ok_0.len() == total && next.buffer is None
            &&& requested(r) is Some ==> requested(r).unwrap().len() <= next.count
            &&& c.read.capacity > 0 ==> next.read.capacity > 0
            &&& c.read.capacity > 0 && requested(r) is Some ==> requested(r).unwrap().len() >= 1
        }),
    decreases arg_rank(arg),
{
    if c.count > 0 {
        let read = c.shrunk();
        let (read2, r) = read.resume(arg);
        if r is Ok {
            let output = r->Ok_0;
            if output.bytes_count != 0 && output.bytes_count <= c.count {
                let next = ReadExactView {
                    read: read2.replaced(output.buffer),
                    count: (c.count - output.bytes_count) as nat,
                    buffer: Some(c.buffer.unwrap() + output.bytes()),
                };
                read_exact_keeps_total(next, None, total);
            }
        }
    }
}

/// Once it has returned its bytes, the coroutine answers every later
/// resume, whatever its argument, with a usage error.
pub proof fn read_exact_finished(c: ReadExactView, arg: Option<IoView>, later: Option<IoView>)
    requires
        c.read.wf(),
        arg_wf(arg),
    ensures
        c.resume(arg).1 is Ok ==> c.resume(arg).0.resume(later).1 == Err::<Seq<u8>, IoView>(
            error_io("read exact buffer not ready"@),
        ),
{
    if c.buffer is Some {
        read_exact_keeps_total(c, arg, c.buffer.unwrap().len() + c.count);
    }
}

/// Resuming twice without handing back the completed request is a usage
/// error the second time.
pub proof fn read_exact_resume_twice(c: ReadExactView)
    ensures
        c.resume(None).0.resume(None).1 is Err,
        c.resume(None).0.resume(None).1->Err_0 is Error,
{
}

} // verus!
