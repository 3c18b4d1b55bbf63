//! The numeric generation worker and its shared state.

pub mod batch;
pub mod controller;
pub mod engine;
pub mod examples;
pub mod worker;

pub use batch::BatchRun;
pub use controller::{adapt_batch_size, mean_latency};
pub use engine::{
    normalize_value, AtomicBounds, Bottleneck, Bounds, PerformanceStats, RngCommand, StatsReport,
};
pub use examples::{rng_example, rng_examples, RngExample};
pub use worker::{CommandAction, RngWorker, SendOutcome, StepOutcome, WorkerPhase};
