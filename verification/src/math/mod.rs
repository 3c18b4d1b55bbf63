//! The mesh generation worker: what a mesh is, how a sampled grid becomes
//! triangles, and what is checked before sampling begins.

pub mod engine;
pub mod examples;
pub mod grid;
pub mod mesh;
pub mod range;

pub use engine::{MathCommand, MathResult};
pub use examples::MathFunctionKind;
pub use mesh::{CurveMesh, ParametricSurfaceMesh, SurfaceMesh, TriangleMesh};
