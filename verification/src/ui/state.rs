//! The modes that the control panel switches between.

use vstd::prelude::*;

verus! {

/// What the application shows: generated points, or a plotted function.
#[derive(Clone, Copy, Debug, PartialEq, Eq, Structural)]
pub enum AppMode {
    Rng,
    Math,
}

/// How generated points are shown: as a cloud in space, or projected onto a
/// plane.
#[derive(Clone, Copy, Debug, PartialEq, Eq, Structural)]
pub enum ViewMode {
    Mode3D,
    Mode2D,
}

/// How a plotted function is shown: in space, or flattened.
#[derive(Clone, Copy, Debug, PartialEq, Eq, Structural)]
pub enum MathViewMode {
    Mode3D,
    Mode2D,
}

} // verus!
