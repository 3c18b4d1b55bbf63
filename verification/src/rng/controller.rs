//! The latency feedback loop that sizes the batches, and the window of
//! latencies behind the reported mean.

use crate::rng::engine::{MAX_BATCH_SIZE, MIN_BATCH_SIZE, TARGET_BATCH_TIME_NANOS};
use vstd::prelude::*;

verus! {

/// Number of batch latencies that the rolling mean looks back on.
pub const LATENCY_WINDOW: usize = 20;

/// The batch size that follows `size` after a batch that took
/// `elapsed_nanos`: a fifth more, up to the maximum, when the batch took less
/// than four fifths of the target latency; a fifth less, down to the minimum,
/// when it took more than six fifths; unchanged in between.
pub open spec fn adapt_spec(size: int, elapsed_nanos: int) -> int {
    if elapsed_nanos * 5 < TARGET_BATCH_TIME_NANOS * 4 {
        if size * 6 / 5 < MAX_BATCH_SIZE {
            size * 6 / 5
        } else {
            MAX_BATCH_SIZE as int
        }
    } else if elapsed_nanos * 5 > TARGET_BATCH_TIME_NANOS * 6 {
        if size * 4 / 5 > MIN_BATCH_SIZE {
            size * 4 / 5
        } else {
            MIN_BATCH_SIZE as int
        }
    } else {
        size
    }
}

/// One step of the latency feedback loop.
pub fn adapt_batch_size(size: usize, elapsed_nanos: u64) -> (next: usize)
    ensures
        next == adapt_spec(size as int, elapsed_nanos as int),
        MIN_BATCH_SIZE <= size <= MAX_BATCH_SIZE ==> MIN_BATCH_SIZE <= next <= MAX_BATCH_SIZE,
{
    let scaled: u128 = elapsed_nanos as u128 * 5;
    if scaled < TARGET_BATCH_TIME_NANOS as u128 * 4 {
        let grown: u128 = size as u128 * 6 / 5;
        if grown < MAX_BATCH_SIZE as u128 {
            grown as usize
        } else {
            MAX_BATCH_SIZE
        }
    } else if scaled > TARGET_BATCH_TIME_NANOS as u128 * 6 {
        let shrunk: u128 = size as u128 * 4 / 5;
        if shrunk > MIN_BATCH_SIZE as u128 {
            shrunk as usize
        } else {
            MIN_BATCH_SIZE
        }
    } else {
        size
    }
}

/// The batch size after a run of batches with the given latencies, oldest
/// first.
pub open spec fn size_after(size: int, latencies: Seq<u64>) -> int
    decreases latencies.len(),
{
    if latencies.len() == 0 {
        size
    } else {
        adapt_spec(size_after(size, latencies.drop_last()), latencies.last() as int)
    }
}

/// Whatever latencies a run of batches shows, a batch size that starts
/// between the minimum and the maximum stays between them.
pub proof fn lemma_batch_size_stays_in_range(size: int, latencies: Seq<u64>)
    requires
        MIN_BATCH_SIZE <= size <= MAX_BATCH_SIZE,
    ensures
        MIN_BATCH_SIZE <= size_after(size, latencies) <= MAX_BATCH_SIZE,
    decreases latencies.len(),
{
    if latencies.len() > 0 {
        lemma_batch_size_stays_in_range(size, latencies.drop_last());
    }
}

/// The latency window after one more batch: the newest latencies, at most
/// [`LATENCY_WINDOW`] of them, oldest first.
pub open spec fn window_push(window: Seq<u64>, latest: u64) -> Seq<u64> {
    let grown = window.push(latest);
    if grown.len() > LATENCY_WINDOW {
        grown.skip(grown.len() - LATENCY_WINDOW)
    } else {
        grown
    }
}

/// Records one more latency in a window, which gives up its oldest latency
/// where it is full.
pub fn push_latency(window: &mut Vec<u64>, latest: u64)
    requires
        old(window)@.len() <= LATENCY_WINDOW,
    ensures
        final(window)@ == window_push(old(window)@, latest),
        final(window)@.len() <= LATENCY_WINDOW,
{
    window.push(latest);
    if window.len() > LATENCY_WINDOW {
        window.remove(0);
    }
    assert(window@ == window_push(old(window)@, latest));
}

/// Sum of a sequence of latencies.
pub open spec fn sum_of(values: Seq<u64>) -> int
    decreases values.len(),
{
    if values.len() == 0 {
        0
    } else {
        sum_of(values.drop_last()) + values.last()
    }
}

/// Mean of a sequence of latencies, rounded down; `None` for no latencies.
pub open spec fn mean_spec(values: Seq<u64>) -> Option<u64> {
    if values.len() == 0 {
        None
    } else {
        Some((sum_of(values) / values.len() as int) as u64)
    }
}

/// A sum of `u64` values is at most as many times the largest `u64`.
proof fn lemma_sum_bounds(values: Seq<u64>)
    ensures
        0 <= sum_of(values) <= values.len() * u64::MAX,
    decreases values.len(),
{
    if values.len() > 0 {
        lemma_sum_bounds(values.drop_last());
        assert(values.len() * u64::MAX == (values.len() - 1) * u64::MAX + u64::MAX) by (nonlinear_arith);
    }
}

/// Mean of the recorded latencies, rounded down.
pub fn mean_latency(values: &Vec<u64>) -> (mean: Option<u64>)
    ensures
        mean == mean_spec(values@),
{
    let count: usize = values.len();
    if count == 0 {
        return None;
    }
    let mut sum: u128 = 0;
    let mut index: usize = 0;
    while index < count
        invariant
            count == values.len(),
            index <= count,
            sum == sum_of(values@.take(index as int)),
            sum <= index * u64::MAX,
        decreases count - index,
    {
        proof {
            let longer = values@.take(index as int + 1);
            assert(longer.drop_last() == values@.take(index as int));
            lemma_sum_bounds(longer);
        }
        sum = sum + values[index] as u128;
        index = index + 1;
    }
    proof {
        assert(values@.take(count as int) == values@);
        let total = sum as int;
        let n = count as int;
        assert(0 <= total / n <= u64::MAX) by (nonlinear_arith)
            requires
                0 <= total <= n * u64::MAX,
                n > 0,
        ;
    }
    Some((sum / count as u128) as u64)
}

} // verus!
