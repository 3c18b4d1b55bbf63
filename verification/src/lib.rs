//! Streaming generation and presentation pipeline for a visualizer of
//! generated points and sampled surfaces.
//!
//! - [`rng`]: the generation worker. Raw outputs of a user-supplied
//!   recurrence are folded into per-axis bounds and packed into batches; a
//!   latency feedback loop sizes the batches; batches are offered to a
//!   bounded channel and dropped where it is full.
//! - [`math`]: the mesh worker. A function is sampled over a grid, the first
//!   failure abandons the grid, and a sampled grid is triangulated.
//! - [`accumulator`]: the sliding window that incoming batches are merged
//!   into, which gives up its oldest values first.
//! - [`renderer`]: which device slot an upload goes to and how much of it the
//!   slot takes.
//! - [`ui`]: the modes and requests of the control panel.
//! - [`clock`] and [`text`]: clock readings and decimal rendering.
//!
//! Every function states what it returns and changes; the statements are
//! proved, except for the few calls into the clock, the channel and the lock,
//! whose doc comments say what is taken on trust.

pub mod accumulator;
pub mod clock;
pub mod math;
pub mod renderer;
pub mod rng;
pub mod text;
pub mod ui;
