//! Bookkeeping of the presentation side: which device slot an upload goes
//! to and how much of it the slot takes.

pub mod camera;
pub mod gpu;
pub mod point_cloud;

pub use camera::CameraMode;
pub use gpu::MathBuffers;
pub use point_cloud::PointCloudBuffers;
