//! Fixed-cadence batch scheduling: how long to sleep between rounds and
//! how a catalog is split into bounded sub-batches.

use vstd::prelude::*;

verus! {

/// Target cadence of one batch round, in milliseconds, measured from
/// round start to full drain.
pub const ROUND_CADENCE_MS: u64 = 500;

/// Milliseconds to sleep after a round whose fetch phase took
/// `elapsed_ms`: the remainder of the cadence if the round was faster,
/// nothing if it met or exceeded it (the next round starts immediately,
/// with no drift correction).
pub fn sleep_remainder(elapsed_ms: u64) -> (r: u64)
    ensures
        elapsed_ms < ROUND_CADENCE_MS ==> r == ROUND_CADENCE_MS - elapsed_ms,
        elapsed_ms >= ROUND_CADENCE_MS ==> r == 0,
{
    if elapsed_ms < ROUND_CADENCE_MS {
        ROUND_CADENCE_MS - elapsed_ms
    } else {
        0
    }
}

/// Default bound on how many agencies may be in flight at once during a
/// batch round.
pub const DEFAULT_CONCURRENCY: usize = 50;

/// Default per-endpoint fetch timeout, in milliseconds. The batch
/// driver lets a flag override it; a persistent worker always uses it.
pub const DEFAULT_FETCH_TIMEOUT_MS: u64 = 15_000;

/// The fixed short delay a persistent worker sleeps between its poll
/// cycles.
pub const WORKER_LOOP_DELAY_MS: u64 = 100;

/// One contiguous slice of the catalog, polled as a unit: the agencies
/// with indices in `start..end`.
#[derive(PartialEq, Eq, Structural, Clone, Copy, Debug)]
pub struct SubBatch {
    pub start: usize,
    pub end: usize,
}

/// Splits a catalog of `n` agencies into consecutive sub-batches of at
/// most `k` agencies each, all but the last exactly `k`, covering the
/// whole catalog in order. A round that runs the sub-batches one after
/// another never has more than `k` fetch cycles in flight.
pub fn sub_batches(n: usize, k: usize) -> (r: Vec<SubBatch>)
    requires
        k >= 1,
    ensures
        batches_consecutive(r@, n),
        forall|i: int| 0 <= i < r@.len() ==> (#[trigger] r@[i]).end - r@[i].start <= k,
        forall|i: int| 0 <= i < r@.len() - 1 ==> (#[trigger] r@[i]).end - r@[i].start == k,
{
    let mut r: Vec<SubBatch> = Vec::new();
    let mut start: usize = 0;
    while start < n
        invariant
            k >= 1,
            start <= n,
            r@.len() == 0 ==> start == 0,
            r@.len() > 0 ==> r@[0].start == 0 && r@[r@.len() - 1].end == start,
            forall|i: int| 0 <= i < r@.len() ==> (#[trigger] r@[i]).start < r@[i].end <= n,
            forall|i: int| 0 <= i < r@.len() ==> (#[trigger] r@[i]).end - r@[i].start <= k,
            forall|i: int| 0 <= i < r@.len() - 1 ==> (#[trigger] r@[i]).end - r@[i].start == k,
            forall|i: int| 0 <= i < r@.len() - 1 ==> (#[trigger] r@[i + 1]).start == r@[i].end,
            r@.len() > 0 && start < n ==> r@[r@.len() - 1].end - r@[r@.len() - 1].start == k,
        decreases n - start,
    {
        let end: usize = if n - start < k {
            n
        } else {
            start + k
        };
        r.push(SubBatch { start, end });
        start = end;
    }
    r
}

/// Whether the sub-batches are shaped as `sub_batches` promises:
/// consecutive non-empty ranges from `0` to `n`.
pub open spec fn batches_consecutive(batches: Seq<SubBatch>, n: usize) -> bool {
    &&& n == 0 ==> batches.len() == 0
    &&& n > 0 ==> batches.len() >= 1 && batches[0].start == 0
        && batches[batches.len() - 1].end == n
    &&& forall|i: int| 0 <= i < batches.len()
        ==> (#[trigger] batches[i]).start < batches[i].end <= n
    &&& forall|i: int| 0 <= i < batches.len() - 1
        ==> (#[trigger] batches[i + 1]).start == batches[i].end
}

proof fn lemma_batch_ends_monotone(batches: Seq<SubBatch>, n: usize, i1: int, i2: int)
    requires
        batches_consecutive(batches, n),
        0 <= i1 <= i2 < batches.len(),
    ensures
        i1 < i2 ==> batches[i1].end <= batches[i2].start,
    decreases i2 - i1,
{
    if i1 < i2 {
        lemma_batch_ends_monotone(batches, n, i1, i2 - 1);
        assert(batches[(i2 - 1) + 1].start == batches[i2 - 1].end);
    }
}

/// A round polls every catalog agency exactly once: each index below
/// `n` lies in one sub-batch of the round and in no other.
pub proof fn lemma_sub_batches_partition(batches: Seq<SubBatch>, n: usize, idx: int)
    requires
        batches_consecutive(batches, n),
        0 <= idx < n,
    ensures
        exists|i: int| 0 <= i < batches.len()
            && (#[trigger] batches[i]).start <= idx < batches[i].end,
        forall|i1: int, i2: int| 0 <= i1 < i2 < batches.len()
            ==> !((#[trigger] batches[i1]).start <= idx < batches[i1].end
                && (#[trigger] batches[i2]).start <= idx < batches[i2].end),
{
    lemma_batch_covers(batches, n, idx, batches.len() - 1);
    assert forall|i1: int, i2: int| 0 <= i1 < i2 < batches.len()
        implies !((#[trigger] batches[i1]).start <= idx < batches[i1].end
            && (#[trigger] batches[i2]).start <= idx < batches[i2].end) by {
        lemma_batch_ends_monotone(batches, n, i1, i2);
    }
}

proof fn lemma_batch_covers(batches: Seq<SubBatch>, n: usize, idx: int, j: int)
    requires
        batches_consecutive(batches, n),
        0 <= j < batches.len(),
        0 <= idx < batches[j].end,
    ensures
        exists|i: int| 0 <= i <= j && (#[trigger] batches[i]).start <= idx < batches[i].end,
    decreases j,
{
    if batches[j].start <= idx {
        assert(batches[j].start <= idx < batches[j].end);
    } else {
        assert(batches[0].start == 0);
        assert(j > 0);
        assert(batches[(j - 1) + 1].start == batches[j - 1].end);
        lemma_batch_covers(batches, n, idx, j - 1);
    }
}

} // verus!
