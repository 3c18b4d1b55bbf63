//! The sliding window that the control thread merges incoming batches into:
//! a buffer with a fixed largest footprint that gives up its oldest values
//! when a new batch would overfill it.

use vstd::prelude::*;

verus! {

/// Most points, whatever the configured cap, that the free-roaming 3D window
/// holds.
pub const POINT_CLOUD_POINT_LIMIT: usize = 4_000_000;

/// Values that one point takes in a window.
pub const VALUES_PER_POINT: usize = 3;

/// By how many values a window of `held` values that takes `incoming` more
/// would pass `max_len`.
pub open spec fn overflow_of(held: int, incoming: int, max_len: int) -> int {
    if held + incoming > max_len {
        held + incoming - max_len
    } else {
        0
    }
}

/// How many of its oldest values a window of `held` values gives up before it
/// takes `incoming` more: the overflow, or everything where the overflow is
/// no less than what is held.
pub open spec fn evicted_count(held: int, incoming: int, max_len: int) -> int {
    if overflow_of(held, incoming, max_len) < held {
        overflow_of(held, incoming, max_len)
    } else {
        held
    }
}

/// The window after a batch: the held values without the evicted oldest
/// ones, then the batch.
pub open spec fn window_after<T>(held: Seq<T>, batch: Seq<T>, max_len: int) -> Seq<T> {
    held.skip(evicted_count(held.len() as int, batch.len() as int, max_len)) + batch
}

/// The window after a run of batches, oldest first.
pub open spec fn window_after_all<T>(held: Seq<T>, batches: Seq<Seq<T>>, max_len: int) -> Seq<T>
    decreases batches.len(),
{
    if batches.len() == 0 {
        held
    } else {
        window_after(window_after_all(held, batches.drop_last(), max_len), batches.last(), max_len)
    }
}

/// A batch that is no longer than the maximum leaves a window that is no
/// longer than the maximum, whatever the window held before.
pub proof fn lemma_window_bounded<T>(held: Seq<T>, batch: Seq<T>, max_len: int)
    requires
        batch.len() <= max_len,
    ensures
        window_after(held, batch, max_len).len() <= max_len,
{
}

/// After any run of at least one batch, none longer than the maximum, the
/// window is no longer than the maximum.
pub proof fn lemma_window_bounded_all<T>(held: Seq<T>, batches: Seq<Seq<T>>, max_len: int)
    requires
        batches.len() > 0,
        forall|i: int| 0 <= i < batches.len() ==> (#[trigger] batches[i]).len() <= max_len,
    ensures
        window_after_all(held, batches, max_len).len() <= max_len,
{
    lemma_window_bounded(window_after_all(held, batches.drop_last(), max_len), batches.last(), max_len);
}

/// A window holds its newest values last: a batch that fits is found whole
/// at the end of the window.
pub proof fn lemma_window_ends_with_batch<T>(held: Seq<T>, batch: Seq<T>, max_len: int)
    ensures
        window_after(held, batch, max_len).len() >= batch.len(),
        window_after(held, batch, max_len).skip(window_after(held, batch, max_len).len() - batch.len())
            == batch,
{
    let kept = held.skip(evicted_count(held.len() as int, batch.len() as int, max_len));
    assert((kept + batch).skip(kept.len() as int) == batch);
}

/// The cap, in values, of the free-roaming 3D window for a configured number
/// of points: three values for each point, for at most
/// [`POINT_CLOUD_POINT_LIMIT`] points.
pub fn point_cloud_capacity(max_points: usize) -> (cap: usize)
    ensures
        cap == VALUES_PER_POINT * if max_points < POINT_CLOUD_POINT_LIMIT {
            max_points as int
        } else {
            POINT_CLOUD_POINT_LIMIT as int
        },
{
    if max_points < POINT_CLOUD_POINT_LIMIT {
        max_points * VALUES_PER_POINT
    } else {
        POINT_CLOUD_POINT_LIMIT * VALUES_PER_POINT
    }
}

/// The cap, in values, of the projected 2D window for a square grid: three
/// values for each cell, held at the largest `usize` where it would pass it.
pub fn heatmap_capacity(grid_size: u32) -> (cap: usize)
    ensures
        cap == if VALUES_PER_POINT * grid_size * grid_size > usize::MAX {
            usize::MAX as int
        } else {
            VALUES_PER_POINT * grid_size * grid_size
        },
{
    assert(grid_size * grid_size <= 0xFFFF_FFFF * 0xFFFF_FFFF) by (nonlinear_arith)
        requires
            grid_size <= 0xFFFF_FFFF,
    ;
    let cells: u128 = grid_size as u128 * grid_size as u128;
    let values: u128 = cells * VALUES_PER_POINT as u128;
    assert(values == VALUES_PER_POINT * grid_size * grid_size) by (nonlinear_arith)
        requires
            values == (grid_size * grid_size) * VALUES_PER_POINT,
    ;
    if values > usize::MAX as u128 {
        usize::MAX
    } else {
        values as usize
    }
}

/// A bounded sliding window over a stream of values.
pub struct StreamingAccumulator<T> {
    values: Vec<T>,
}

impl<T> View for StreamingAccumulator<T> {
    type V = Seq<T>;

    closed spec fn view(&self) -> Seq<T> {
        self.values@
    }
}

impl<T: Copy> StreamingAccumulator<T> {
    /// An empty window.
    pub fn new() -> (window: Self)
        ensures
            window@ == Seq::<T>::empty(),
    {
        StreamingAccumulator { values: Vec::new() }
    }

    /// An empty window with room set aside for `capacity` values.
    pub fn with_capacity(capacity: usize) -> (window: Self)
        ensures
            window@ == Seq::<T>::empty(),
    {
        StreamingAccumulator { values: Vec::with_capacity(capacity) }
    }

    /// The number of values held.
    pub fn len(&self) -> (len: usize)
        ensures
            len == self@.len(),
    {
        self.values.len()
    }

    /// Whether the window holds nothing.
    pub fn is_empty(&self) -> (empty: bool)
        ensures
            empty == (self@.len() == 0),
    {
        self.values.len() == 0
    }

    /// The values held, oldest first.
    pub fn values(&self) -> (values: &Vec<T>)
        ensures
            values@ == self@,
    {
        &self.values
    }

    /// Empties the window.
    pub fn clear(&mut self)
        ensures
            final(self)@ == Seq::<T>::empty(),
    {
        self.values.clear();
    }

    /// Merges a batch into the window. Where window and batch together would
    /// pass `max_len`, the window first gives up as many of its oldest values
    /// as they would pass it by, or all it holds where that is not enough;
    /// then it takes the whole batch.
    pub fn append(&mut self, batch: &[T], max_len: usize)
        ensures
            final(self)@ == window_after(old(self)@, batch@, max_len as int),
            batch@.len() <= max_len ==> final(self)@.len() <= max_len,
    {
        let held: usize = self.values.len();
        let incoming: usize = batch.len();
        let needed: u128 = held as u128 + incoming as u128;
        let evicted: usize = if needed > max_len as u128 {
            let overflow: u128 = needed - max_len as u128;
            if overflow < held as u128 {
                overflow as usize
            } else {
                held
            }
        } else {
            0
        };
        if evicted == held {
            self.values.clear();
        } else if evicted > 0 {
            let kept = self.values.split_off(evicted);
            self.values = kept;
        }
        assert(self.values@ == old(self)@.skip(evicted as int));
        let ghost kept: Seq<T> = self.values@;
        let mut index: usize = 0;
        while index < incoming
            invariant
                incoming == batch@.len(),
                index <= incoming,
                self.values@ == kept + batch@.take(index as int),
            decreases incoming - index,
        {
            self.values.push(batch[index]);
            index = index + 1;
            assert(batch@.take(index as int) == batch@.take(index as int - 1).push(batch@[index as int - 1]));
        }
        assert(batch@.take(incoming as int) == batch@);
    }
}

} // verus!
