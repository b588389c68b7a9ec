//! A model of a runtime serving read requests from bytes held in
//! memory, used to state what the coroutines achieve over a whole
//! exchange.

use vstd::prelude::*;

use crate::io::{IoView, OutputView};

verus! {

/// The smaller of two counts.
pub open spec fn min(a: nat, b: nat) -> nat {
    if a <= b {
        a
    } else {
        b
    }
}

/// One read of a stream holding `source` into `buffer`, delivering at
/// most `limit` bytes: the read fills as many bytes as the buffer, the
/// stream and the limit allow. Gives the completed request and what the
/// stream still holds.
pub open spec fn read_from(source: Seq<u8>, buffer: Seq<u8>, limit: nat) -> (IoView, Seq<u8>) {
    let n = min(min(buffer.len(), source.len()), limit);
    (
        IoView::Read(Ok(OutputView { buffer: source.take(n as int) + buffer.skip(n as int), bytes_count: n })),
        source.skip(n as int),
    )
}

/// A schedule of reads, each delivering at most its limit, where every
/// read may deliver at least one byte: any way of cutting a stream into
/// chunks is one such schedule.
pub open spec fn chunking(limits: Seq<nat>) -> bool {
    forall|i: int| 0 <= i < limits.len() ==> #[trigger] limits[i] >= 1
}

/// The reads after the first of a schedule form a schedule too.
pub proof fn lemma_chunking_rest(limits: Seq<nat>)
    requires
        chunking(limits),
        limits.len() > 0,
    ensures
        chunking(limits.drop_first()),
        limits[0] >= 1,
{
    assert forall|i: int| 0 <= i < limits.drop_first().len() implies #[trigger] limits.drop_first()[i]
        >= 1 by {
        assert(limits.drop_first()[i] == limits[i + 1]);
    }
}

/// Drives a coroutine, whose `resume` is `step`, against a stream
/// holding `source`: each read request is served by one read of the
/// stream, the i-th delivering at most `limits[i]` bytes. Gives the
/// coroutine's first other result and what the stream still holds then;
/// `None` when the schedule runs out first.
pub open spec fn run<S>(
    step: spec_fn(S, Option<IoView>) -> (S, Result<Seq<u8>, IoView>),
    state: S,
    arg: Option<IoView>,
    source: Seq<u8>,
    limits: Seq<nat>,
) -> Option<(Result<Seq<u8>, IoView>, Seq<u8>)>
    decreases limits.len(),
{
    let (next, r) = step(state, arg);
    match r {
        Err(IoView::Read(Err(buffer))) => if limits.len() == 0 {
            None
        } else {
            let (served, rest) = read_from(source, buffer, limits[0]);
            run(step, next, Some(served), rest, limits.drop_first())
        },
        _ => Some((r, source)),
    }
}

} // verus!
