//! Coordinate folding and the state shared between the generation worker and
//! the control thread.

use std::sync::atomic::{AtomicI64, AtomicU64, AtomicUsize, Ordering};
use vstd::prelude::*;

verus! {

/// Batch latency that the adaptive controller steers towards, in nanoseconds.
pub const TARGET_BATCH_TIME_NANOS: u64 = 5_000_000;

/// Smallest batch size, in points, that the controller shrinks to.
pub const MIN_BATCH_SIZE: usize = 1_000;

/// Largest batch size, in points, that the controller grows to.
pub const MAX_BATCH_SIZE: usize = 500_000;

/// Batch size after a successful compilation or a reset.
pub const INITIAL_BATCH_SIZE: usize = 10_000;

/// Number of batches that the hand-off channel holds before new ones are dropped.
pub const CHANNEL_CAPACITY: usize = 4;

/// Generator state after a successful compilation or a reset.
pub const DEFAULT_STATE: i64 = 12345;

/// Call rate, per second, below which the generator itself is the bottleneck.
pub const CPU_BOUND_CALL_RATE: u64 = 1_000_000;

/// Frame rate, in thousandths of a frame per second, below which rendering
/// is the bottleneck.
pub const RENDER_BOUND_FPS_MILLI: u64 = 30_000;

/// Absolute value of a mathematical integer.
pub open spec fn magnitude(v: int) -> int {
    if v < 0 {
        -v
    } else {
        v
    }
}

/// Width of the half-open range that coordinates of one axis are folded into:
/// `max - min`, but never less than one.
pub open spec fn fold_width(min: int, max: int) -> int {
    if max - min >= 1 {
        max - min
    } else {
        1
    }
}

/// The coordinate that a raw recurrence output stands for on an axis bounded
/// by `min` and `max`: `min + (|value| mod fold_width)`.
pub open spec fn normalize_spec(value: int, min: int, max: int) -> int {
    min + magnitude(value) % fold_width(min, max)
}

/// Folds a raw recurrence output into the bounds of one axis.
///
/// The fold takes the absolute value and then the remainder, so it favours
/// the low end of the range for small inputs; it is not a uniform mapping.
pub fn normalize_value(value: i64, min: i64, max: i64) -> (r: i64)
    ensures
        r == normalize_spec(value as int, min as int, max as int),
        min <= r < min + fold_width(min as int, max as int),
{
    let width: u64 = if max > min {
        (max as i128 - min as i128) as u64
    } else {
        1
    };
    let size: u64 = if value >= 0 {
        value as u64
    } else {
        (-(value as i128)) as u64
    };
    let folded: u64 = size % width;
    (min as i128 + folded as i128) as i64
}

/// One reading of the six per-axis limits.
#[derive(Clone, Copy, Debug, PartialEq, Eq, Structural)]
pub struct Bounds {
    pub min_x: i64,
    pub max_x: i64,
    pub min_y: i64,
    pub max_y: i64,
    pub min_z: i64,
    pub max_z: i64,
}

impl Bounds {
    /// Lower limit of an axis; axes are numbered x = 0, y = 1, z = 2.
    pub open spec fn axis_min(self, axis: int) -> int {
        if axis == 0 {
            self.min_x as int
        } else if axis == 1 {
            self.min_y as int
        } else {
            self.min_z as int
        }
    }

    /// Upper limit of an axis; axes are numbered x = 0, y = 1, z = 2.
    pub open spec fn axis_max(self, axis: int) -> int {
        if axis == 0 {
            self.max_x as int
        } else if axis == 1 {
            self.max_y as int
        } else {
            self.max_z as int
        }
    }

    /// The limits that the control thread starts with: `-500..500` on every axis.
    pub fn standard() -> (r: Bounds)
        ensures
            r.min_x == -500 && r.max_x == 500,
            r.min_y == -500 && r.max_y == 500,
            r.min_z == -500 && r.max_z == 500,
    {
        Bounds { min_x: -500, max_x: 500, min_y: -500, max_y: 500, min_z: -500, max_z: 500 }
    }
}

/// The six per-axis limits, written by the control thread and read by the
/// generation worker once per batch.
///
/// Each limit is stored and loaded on its own with relaxed ordering, so a
/// reader may see some limits of an earlier `set` beside some of a later one.
pub struct AtomicBounds {
    pub min_x: AtomicI64,
    pub max_x: AtomicI64,
    pub min_y: AtomicI64,
    pub max_y: AtomicI64,
    pub min_z: AtomicI64,
    pub max_z: AtomicI64,
}

impl Default for AtomicBounds {
    fn default() -> Self {
        Self {
            min_x: AtomicI64::new(-500),
            max_x: AtomicI64::new(500),
            min_y: AtomicI64::new(-500),
            max_y: AtomicI64::new(500),
            min_z: AtomicI64::new(-500),
            max_z: AtomicI64::new(500),
        }
    }
}

impl AtomicBounds {
    /// Stores all six limits.
    pub fn set(&self, min_x: i64, max_x: i64, min_y: i64, max_y: i64, min_z: i64, max_z: i64) {
        self.min_x.store(min_x, Ordering::Relaxed);
        self.max_x.store(max_x, Ordering::Relaxed);
        self.min_y.store(min_y, Ordering::Relaxed);
        self.max_y.store(max_y, Ordering::Relaxed);
        self.min_z.store(min_z, Ordering::Relaxed);
        self.max_z.store(max_z, Ordering::Relaxed);
    }

    /// Loads the six limits, one after the other.
    pub fn snapshot(&self) -> Bounds {
        Bounds {
            min_x: self.min_x.load(Ordering::Relaxed),
            max_x: self.max_x.load(Ordering::Relaxed),
            min_y: self.min_y.load(Ordering::Relaxed),
            max_y: self.max_y.load(Ordering::Relaxed),
            min_z: self.min_z.load(Ordering::Relaxed),
            max_z: self.max_z.load(Ordering::Relaxed),
        }
    }
}

/// The pipeline stage that currently limits throughput.
#[derive(Clone, Copy, Debug, PartialEq, Eq, Structural)]
pub enum Bottleneck {
    CpuRng,
    GpuUpload,
    GpuRender,
    Balanced,
}

impl Default for Bottleneck {
    fn default() -> (r: Self)
        ensures
            r == Bottleneck::Balanced,
    {
        Bottleneck::Balanced
    }
}

/// The classification rule: more than a tenth of the batches dropped means
/// the upload is the limit; otherwise a frame rate under thirty with nothing
/// dropped means rendering is; otherwise a call rate under a million per
/// second means the generator is; otherwise the pipeline is balanced.
pub open spec fn classify_spec(dropped: int, total: int, fps_milli: int, call_rate: int) -> Bottleneck {
    if total > 0 && dropped * 10 > total {
        Bottleneck::GpuUpload
    } else if fps_milli < RENDER_BOUND_FPS_MILLI && dropped == 0 {
        Bottleneck::GpuRender
    } else if call_rate < CPU_BOUND_CALL_RATE {
        Bottleneck::CpuRng
    } else {
        Bottleneck::Balanced
    }
}

/// Classifies the current bottleneck from the batch counters, the frame rate
/// in thousandths of a frame per second, and the call rate per second.
pub fn classify_bottleneck(dropped: u64, total: u64, fps_milli: u64, call_rate: u64) -> (r: Bottleneck)
    ensures
        r == classify_spec(dropped as int, total as int, fps_milli as int, call_rate as int),
{
    if total > 0 && dropped as u128 * 10 > total as u128 {
        Bottleneck::GpuUpload
    } else if fps_milli < RENDER_BOUND_FPS_MILLI && dropped == 0 {
        Bottleneck::GpuRender
    } else if call_rate < CPU_BOUND_CALL_RATE {
        Bottleneck::CpuRng
    } else {
        Bottleneck::Balanced
    }
}

/// `parking_lot::RawMutex`, the lock inside a `parking_lot::Mutex`; carried
/// through as an opaque value.
#[verifier::external_type_specification]
#[verifier::external_body]
pub struct ExRawMutex(parking_lot::RawMutex);

/// `lock_api::Mutex`, the type behind `parking_lot::Mutex`; carried through
/// as an opaque value.
#[verifier::external_type_specification]
#[verifier::external_body]
#[verifier::reject_recursive_types(R)]
#[verifier::reject_recursive_types(T)]
pub struct ExMutex<R, T: ?Sized>(parking_lot::lock_api::Mutex<R, T>);

/// Calls `parking_lot::Mutex::new`, which cannot fail. Nothing is claimed of
/// the new lock: other threads may write to it as soon as it is shared.
#[verifier::external_body]
fn new_bottleneck_slot(value: Bottleneck) -> parking_lot::Mutex<Bottleneck> {
    parking_lot::Mutex::new(value)
}

/// Calls `parking_lot::Mutex::lock` and overwrites the guarded value; the
/// lock is released before the call returns. `lock` waits for as long as
/// another holder keeps the lock, which here is the moment of another such
/// read or write.
#[verifier::external_body]
fn store_bottleneck(slot: &parking_lot::Mutex<Bottleneck>, value: Bottleneck) {
    *slot.lock() = value;
}

/// Calls `parking_lot::Mutex::lock` and copies the guarded value out; the
/// lock is released before the call returns. Nothing is claimed of the value
/// read: any thread may have written it last.
#[verifier::external_body]
fn load_bottleneck(slot: &parking_lot::Mutex<Bottleneck>) -> Bottleneck {
    *slot.lock()
}

/// The figures of one reporting interval.
#[derive(Clone, Copy, Debug, PartialEq, Eq, Structural)]
pub struct StatsReport {
    /// Recurrence calls made during the interval.
    pub calls: u64,
    /// Points generated during the interval.
    pub points: u64,
    /// Batch size in use at the end of the interval.
    pub batch_size: usize,
    /// Mean of the latest batch latencies, in nanoseconds, if any batch was
    /// timed yet.
    pub avg_batch_nanos: Option<u64>,
}

/// Counters and gauges that the generation worker publishes and the control
/// thread displays. Every field is shared without further synchronisation; a
/// reader may see values up to one reporting interval old.
pub struct PerformanceStats {
    /// Recurrence calls made during the last reporting interval.
    pub rng_calls_per_sec: AtomicU64,
    /// Points generated during the last reporting interval.
    pub points_generated_per_sec: AtomicU64,
    /// Mean latency of the most recent batches, in nanoseconds.
    pub avg_batch_time_nanos: AtomicU64,
    /// Batch size, in points, that the controller currently uses.
    pub current_batch_size: AtomicUsize,
    /// Batches discarded because the hand-off channel was full.
    pub dropped_batches: AtomicU64,
    /// Batches handed to the channel, delivered or not.
    pub total_batches: AtomicU64,
    /// Frame rate of the control thread, in thousandths of a frame per second.
    pub fps_milli: AtomicU64,
    /// Points in the slot that the renderer currently reads.
    pub points_rendered: AtomicUsize,
    /// The classification computed at the last reporting interval. The lock
    /// is private so that it is held only for the moment of a read or a
    /// write.
    bottleneck: parking_lot::Mutex<Bottleneck>,
}

impl Default for PerformanceStats {
    fn default() -> Self {
        Self {
            rng_calls_per_sec: AtomicU64::new(0),
            points_generated_per_sec: AtomicU64::new(0),
            avg_batch_time_nanos: AtomicU64::new(0),
            current_batch_size: AtomicUsize::new(0),
            dropped_batches: AtomicU64::new(0),
            total_batches: AtomicU64::new(0),
            fps_milli: AtomicU64::new(0),
            points_rendered: AtomicUsize::new(0),
            bottleneck: new_bottleneck_slot(Bottleneck::Balanced),
        }
    }
}

impl PerformanceStats {
    /// Reads the counters, classifies the bottleneck with
    /// [`classify_bottleneck`] and stores the result.
    pub fn update_bottleneck(&self) {
        let dropped: u64 = self.dropped_batches.load(Ordering::Relaxed);
        let total: u64 = self.total_batches.load(Ordering::Relaxed);
        let fps_milli: u64 = self.fps_milli.load(Ordering::Relaxed);
        let call_rate: u64 = self.rng_calls_per_sec.load(Ordering::Relaxed);
        store_bottleneck(&self.bottleneck, classify_bottleneck(dropped, total, fps_milli, call_rate));
    }

    /// The classification stored last.
    pub fn current_bottleneck(&self) -> Bottleneck {
        load_bottleneck(&self.bottleneck)
    }

    /// Publishes the figures of one reporting interval and classifies the
    /// bottleneck anew. The mean latency is left as it was while no batch has
    /// been timed.
    pub fn publish(&self, report: &StatsReport) {
        self.rng_calls_per_sec.store(report.calls, Ordering::Relaxed);
        self.points_generated_per_sec.store(report.points, Ordering::Relaxed);
        self.current_batch_size.store(report.batch_size, Ordering::Relaxed);
        match report.avg_batch_nanos {
            Some(mean) => {
                self.avg_batch_time_nanos.store(mean, Ordering::Relaxed);
            },
            None => {},
        }
        self.update_bottleneck();
    }

    /// Publishes the worker's delivery counters.
    pub fn publish_deliveries(&self, total: u64, dropped: u64) {
        self.total_batches.store(total, Ordering::Relaxed);
        self.dropped_batches.store(dropped, Ordering::Relaxed);
    }
}

/// Commands that the control thread sends to the generation worker.
#[derive(Debug)]
pub enum RngCommand {
    UpdateCode(String),
    Stop,
    Reset,
    SetSeed(i64),
    Pause,
    Resume,
}

/// A command as contracts see it: source text is a sequence of characters.
pub enum CommandView {
    UpdateCode(Seq<char>),
    Stop,
    Reset,
    SetSeed(i64),
    Pause,
    Resume,
}

impl View for RngCommand {
    type V = CommandView;

    open spec fn view(&self) -> CommandView {
        match *self {
            RngCommand::UpdateCode(code) => CommandView::UpdateCode(code@),
            RngCommand::Stop => CommandView::Stop,
            RngCommand::Reset => CommandView::Reset,
            RngCommand::SetSeed(seed) => CommandView::SetSeed(seed),
            RngCommand::Pause => CommandView::Pause,
            RngCommand::Resume => CommandView::Resume,
        }
    }
}

} // verus!
