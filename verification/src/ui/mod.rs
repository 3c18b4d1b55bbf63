//! What the control panel chooses between and asks for.

pub mod panels;
pub mod state;

pub use panels::UiActions;
pub use state::{AppMode, MathViewMode, ViewMode};
