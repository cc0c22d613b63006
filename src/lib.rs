//! A frame-render harness over wgpu: the device and surface with their
//! per-frame cycle, and staging buffers that batch record uploads.
pub mod context;
pub mod demo;
pub mod gpu;
pub mod staging;
pub mod window;
