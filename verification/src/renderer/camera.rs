//! How the camera moves.

use vstd::prelude::*;

verus! {

/// The two ways of steering the camera: flying freely, or circling a target.
#[derive(Clone, Copy, Debug, PartialEq, Eq, Structural)]
pub enum CameraMode {
    Free,
    Orbital,
}

} // verus!
