//! Host-side model of a reservoir-resampling lighting pipeline.
//!
//! Every quantity that a shader would hold in a float is kept here as a
//! Q16.16 fixed-point number: an integer whose value is the number times
//! 65536. All arithmetic is exact integer arithmetic with stated rounding.

pub mod camera;
pub mod camera_controller;
pub mod color;
pub mod extract;
pub mod fixed;
pub mod gbuffer;
pub mod image;
pub mod light;
pub mod material;
pub mod normal;
pub mod pipeline;
pub mod resampling;
pub mod reservoir;
pub mod resolving;
pub mod sampling;
pub mod surface;
pub mod uvec;

pub use camera::{Camera, CameraMode, CameraViewport};
pub use camera_controller::passes::direct_resolving::DirectResolvingPass;
pub use camera_controller::passes::direct_spatial_resampling::DirectSpatialResamplingPass;
pub use camera_controller::passes::direct_temporal_resampling::DirectTemporalResamplingPass;
pub use camera_controller::passes::drawing::DrawingPass;
pub use camera_controller::passes::ref_tracing::RefTracingPass;
pub use camera_controller::CameraController;
pub use material::StrolleMaterial;
pub use surface::{Surface, SurfaceMap};
