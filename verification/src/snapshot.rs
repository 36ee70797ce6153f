//! The introspection snapshot.

use vstd::prelude::*;

verus! {

/// What the health surface reports of the registry.
#[derive(Clone, Copy, Debug, PartialEq, Eq, Structural)]
pub struct Snapshot {
    /// The number of known streams.
    pub streams: usize,
    /// The number of cursors attached, over all streams.
    pub receivers: usize,
}

/// The sum of the counts.
pub open spec fn total(counts: Seq<usize>) -> nat
    decreases counts.len(),
{
    if counts.len() == 0 {
        0
    } else {
        total(counts.drop_last()) + counts.last() as nat
    }
}

/// The sum of the counts, held at `usize::MAX` where it would pass it.
pub open spec fn saturated_total(counts: Seq<usize>) -> usize {
    if total(counts) > usize::MAX {
        usize::MAX
    } else {
        total(counts) as usize
    }
}

/// The sum of a prefix grows by the next count.
proof fn lemma_total_step(counts: Seq<usize>, i: int)
    requires
        0 <= i < counts.len(),
    ensures
        total(counts.take(i + 1)) == total(counts.take(i)) + counts[i],
{
    assert(counts.take(i + 1).drop_last() =~= counts.take(i));
}

/// When one stream's count changes and the others stay, the sum changes by
/// the same amount: a cursor that detaches from one channel lowers the sum
/// by one, and one that attaches raises it by one.
pub proof fn lemma_total_follows_one_count(counts: Seq<usize>, i: int, count: usize)
    requires
        0 <= i < counts.len(),
    ensures
        total(counts.update(i, count)) + counts[i] == total(counts) + count,
    decreases counts.len(),
{
    let changed = counts.update(i, count);
    if i == counts.len() - 1 {
        assert(changed.drop_last() =~= counts.drop_last());
    } else {
        assert(changed.drop_last() =~= counts.drop_last().update(i, count));
        lemma_total_follows_one_count(counts.drop_last(), i, count);
    }
}

/// Builds the snapshot from the per-stream cursor counts.
pub fn summarise(counts: &Vec<usize>) -> (snap: Snapshot)
    ensures
        snap.streams == counts@.len(),
        snap.receivers == saturated_total(counts@),
{
    let mut sum: usize = 0;
    let mut i: usize = 0;
    while i < counts.len()
        invariant
            i <= counts@.len(),
            sum == saturated_total(counts@.take(i as int)),
        decreases counts@.len() - i,
    {
        proof {
            lemma_total_step(counts@, i as int);
        }
        sum = sum.saturating_add(counts[i]);
        i += 1;
    }
    assert(counts@.take(counts@.len() as int) =~= counts@);
    Snapshot { streams: counts.len(), receivers: sum }
}

} // verus!
