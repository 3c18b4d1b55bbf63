//! Triple buffering of the point uploads: three device slots per data shape
//! and one rotating index, so that an upload never targets the slot that the
//! renderer was last told to read.

use vstd::prelude::*;

verus! {

/// Device slots per data shape.
pub const NUM_BUFFERS: usize = 3;

/// Most points that one slot takes; an upload of more is cut to this many.
pub const MAX_POINTS_PER_BUFFER: usize = 10_000_000;

/// Values that one point takes in an upload.
pub const VALUES_PER_POINT: usize = 3;

/// Bytes that one point takes in a slot: three 32-bit values.
pub const BYTES_PER_POINT: usize = 12;

/// The slot that follows `slot` in the rotation.
pub open spec fn next_slot(slot: int) -> int {
    (slot + 1) % (NUM_BUFFERS as int)
}

/// The slot that is active after `uploads` uploads, counted from a new set of
/// buffers.
pub open spec fn slot_after(uploads: nat) -> int
    decreases uploads,
{
    if uploads == 0 {
        0
    } else {
        next_slot(slot_after((uploads - 1) as nat))
    }
}

/// After `uploads` uploads the active slot is `uploads mod 3`.
pub proof fn lemma_slot_after(uploads: nat)
    ensures
        slot_after(uploads) == uploads % (NUM_BUFFERS as nat),
    decreases uploads,
{
    if uploads > 0 {
        lemma_slot_after((uploads - 1) as nat);
    }
}

/// The number of uploads, among those with the given value counts, that hold
/// anything: empty uploads are ignored.
pub open spec fn counted_uploads(value_counts: Seq<usize>) -> nat
    decreases value_counts.len(),
{
    if value_counts.len() == 0 {
        0
    } else if value_counts.last() == 0 {
        counted_uploads(value_counts.drop_last())
    } else {
        counted_uploads(value_counts.drop_last()) + 1
    }
}

/// The slot that is active after a run of uploads with the given value
/// counts, oldest first, on buffers whose active slot was `start`.
pub open spec fn active_after(start: int, value_counts: Seq<usize>) -> int
    decreases value_counts.len(),
{
    if value_counts.len() == 0 {
        start
    } else if value_counts.last() == 0 {
        active_after(start, value_counts.drop_last())
    } else {
        next_slot(active_after(start, value_counts.drop_last()))
    }
}

/// On new buffers, after any run of uploads, the active slot is the number
/// of uploads that held anything, modulo three.
pub proof fn lemma_active_after(value_counts: Seq<usize>)
    ensures
        active_after(0, value_counts) == counted_uploads(value_counts) % (NUM_BUFFERS as nat),
    decreases value_counts.len(),
{
    if value_counts.len() > 0 {
        lemma_active_after(value_counts.drop_last());
    }
}

/// An upload never writes the slot that was active before it.
pub proof fn lemma_next_slot_differs(slot: int)
    requires
        0 <= slot < NUM_BUFFERS,
    ensures
        0 <= next_slot(slot) < NUM_BUFFERS,
        next_slot(slot) != slot,
{
}

/// The number of points that a slot takes from an upload of `value_count`
/// values: whole points only, and no more than the slot holds.
pub open spec fn accepted_points(value_count: int) -> int {
    if value_count / (VALUES_PER_POINT as int) < MAX_POINTS_PER_BUFFER {
        value_count / (VALUES_PER_POINT as int)
    } else {
        MAX_POINTS_PER_BUFFER as int
    }
}

/// The write that an upload asks of the device.
#[derive(Clone, Copy, Debug, PartialEq, Eq, Structural)]
pub struct SlotWrite {
    /// The slot to write, which becomes the active slot.
    pub slot: usize,
    /// The number of points to write, from the start of the upload.
    pub point_count: usize,
    /// The number of bytes to write, from the start of the upload.
    pub byte_len: usize,
}

/// The state of the point buffers as contracts see it.
pub struct BuffersView {
    /// The slot written last, which the renderer reads.
    pub current: int,
    /// Points in the active 3D slot.
    pub count_3d: int,
    /// Points in the active 2D slot.
    pub count_2d: int,
}

/// The rotating index over the point slots and the number of points that the
/// active slot of each shape holds. Both shapes share the index.
pub struct PointCloudBuffers {
    current_buffer: usize,
    points_count_3d: u32,
    points_count_2d: u32,
}

impl View for PointCloudBuffers {
    type V = BuffersView;

    closed spec fn view(&self) -> BuffersView {
        BuffersView {
            current: self.current_buffer as int,
            count_3d: self.points_count_3d as int,
            count_2d: self.points_count_2d as int,
        }
    }
}

impl BuffersView {
    /// The active slot exists and no slot holds more points than it can.
    pub open spec fn wf(self) -> bool {
        &&& 0 <= self.current < NUM_BUFFERS
        &&& 0 <= self.count_3d <= MAX_POINTS_PER_BUFFER
        &&& 0 <= self.count_2d <= MAX_POINTS_PER_BUFFER
    }
}

impl PointCloudBuffers {
    /// Well-formedness of the buffers' state; see [`BuffersView::wf`].
    pub open spec fn wf(&self) -> bool {
        self@.wf()
    }

    /// New buffers: slot 0 is active and every slot is empty.
    pub fn new() -> (buffers: Self)
        ensures
            buffers.wf(),
            buffers@ == (BuffersView { current: 0, count_3d: 0, count_2d: 0 }),
    {
        PointCloudBuffers { current_buffer: 0, points_count_3d: 0, points_count_2d: 0 }
    }

    /// Plans the upload of `value_count` values of 3D points. An empty upload
    /// changes nothing and asks for no write. Any other upload goes to the
    /// slot after the active one, which becomes active, and is cut to whole
    /// points and to the slot's capacity.
    pub fn upload_3d(&mut self, value_count: usize) -> (write: Option<SlotWrite>)
        requires
            old(self).wf(),
        ensures
            final(self).wf(),
            value_count == 0 ==> write.is_none() && final(self)@ == old(self)@,
            value_count > 0 ==> {
                &&& write matches Some(w)
                &&& w.slot == next_slot(old(self)@.current)
                &&& w.slot != old(self)@.current
                &&& w.point_count == accepted_points(value_count as int)
                &&& w.byte_len == w.point_count * BYTES_PER_POINT
                &&& final(self)@ == (BuffersView {
                    current: w.slot as int,
                    count_3d: w.point_count as int,
                    ..old(self)@
                })
            },
    {
        if value_count == 0 {
            return None;
        }
        let slot: usize = (self.current_buffer + 1) % NUM_BUFFERS;
        let whole: usize = value_count / VALUES_PER_POINT;
        let point_count: usize = if whole < MAX_POINTS_PER_BUFFER {
            whole
        } else {
            MAX_POINTS_PER_BUFFER
        };
        self.current_buffer = slot;
        self.points_count_3d = point_count as u32;
        Some(SlotWrite { slot, point_count, byte_len: point_count * BYTES_PER_POINT })
    }

    /// Plans the upload of `value_count` values of 2D points; as
    /// [`PointCloudBuffers::upload_3d`], for the other shape.
    pub fn upload_2d(&mut self, value_count: usize) -> (write: Option<SlotWrite>)
        requires
            old(self).wf(),
        ensures
            final(self).wf(),
            value_count == 0 ==> write.is_none() && final(self)@ == old(self)@,
            value_count > 0 ==> {
                &&& write matches Some(w)
                &&& w.slot == next_slot(old(self)@.current)
                &&& w.slot != old(self)@.current
                &&& w.point_count == accepted_points(value_count as int)
                &&& w.byte_len == w.point_count * BYTES_PER_POINT
                &&& final(self)@ == (BuffersView {
                    current: w.slot as int,
                    count_2d: w.point_count as int,
                    ..old(self)@
                })
            },
    {
        if value_count == 0 {
            return None;
        }
        let slot: usize = (self.current_buffer + 1) % NUM_BUFFERS;
        let whole: usize = value_count / VALUES_PER_POINT;
        let point_count: usize = if whole < MAX_POINTS_PER_BUFFER {
            whole
        } else {
            MAX_POINTS_PER_BUFFER
        };
        self.current_buffer = slot;
        self.points_count_2d = point_count as u32;
        Some(SlotWrite { slot, point_count, byte_len: point_count * BYTES_PER_POINT })
    }

    /// The 3D slot that the renderer reads.
    pub fn current_3d_buffer(&self) -> (slot: usize)
        ensures
            slot == self@.current,
    {
        self.current_buffer
    }

    /// The 2D slot that the renderer reads.
    pub fn current_2d_buffer(&self) -> (slot: usize)
        ensures
            slot == self@.current,
    {
        self.current_buffer
    }

    /// Points in the active 3D slot.
    pub fn points_count_3d(&self) -> (count: u32)
        ensures
            count == self@.count_3d,
    {
        self.points_count_3d
    }

    /// Points in the active 2D slot.
    pub fn points_count_2d(&self) -> (count: u32)
        ensures
            count == self@.count_2d,
    {
        self.points_count_2d
    }
}

} // verus!
