//! The kinds of function that the mesh worker can plot.

use vstd::prelude::*;

verus! {

/// What the user's source text defines: a height field `f(x, y)`, a curve
/// `fx(t), fy(t), fz(t)`, or a surface `fx(u, v), fy(u, v), fz(u, v)`.
#[derive(Clone, Copy, Debug, PartialEq, Eq, Structural)]
pub enum MathFunctionKind {
    Surface,
    ParametricCurve,
    ParametricSurface,
}

} // verus!
