//! The wgpu types that the library carries, and the calls into wgpu that it
//! makes. Each call sits in one small function whose contract says what the
//! library relies on.
use vstd::prelude::*;


verus! {

#[verifier::external_type_specification]
#[verifier::external_body]
pub struct ExAdapter(wgpu::Adapter);

#[verifier::external_type_specification]
#[verifier::external_body]
pub struct ExDevice(wgpu::Device);

#[verifier::external_type_specification]
#[verifier::external_body]
pub struct ExQueue(wgpu::Queue);

#[verifier::external_type_specification]
#[verifier::external_body]
pub struct ExSurface<'w>(wgpu::Surface<'w>);

#[verifier::external_type_specification]
#[verifier::external_body]
pub struct ExSurfaceTexture(wgpu::SurfaceTexture);

#[verifier::external_type_specification]
#[verifier::external_body]
pub struct ExCommandEncoder(wgpu::CommandEncoder);

#[verifier::external_type_specification]
#[verifier::external_body]
pub struct ExCommandBuffer(wgpu::CommandBuffer);

#[verifier::external_type_specification]
#[verifier::external_body]
pub struct ExBuffer(wgpu::Buffer);

#[verifier::external_type_specification]
#[verifier::external_body]
pub struct ExTextureFormat(wgpu::TextureFormat);

#[verifier::external_type_specification]
#[verifier::external_body]
pub struct ExTextureUsages(wgpu::TextureUsages);

#[verifier::external_type_specification]
#[verifier::external_body]
pub struct ExPresentMode(wgpu::PresentMode);

#[verifier::external_type_specification]
#[verifier::external_body]
pub struct ExCompositeAlphaMode(wgpu::CompositeAlphaMode);

#[verifier::external_type_specification]
#[verifier::external_body]
pub struct ExRequestDeviceError(wgpu::RequestDeviceError);

#[verifier::external_type_specification]
#[verifier::external_body]
pub struct ExLimits(wgpu::Limits);

#[verifier::external_type_specification]
#[verifier::external_body]
#[verifier::reject_recursive_types(T)]
pub struct ExId<T>(wgpu::Id<T>);

/// Why the surface handed out no image.
#[derive(PartialEq, Eq, Structural, Clone, Copy, Debug)]
pub enum AcquireError {
    /// No image became available in time.
    Timeout,
    /// The surface changed since it was configured and must be configured again.
    Outdated,
    /// The swap chain is gone.
    Lost,
    /// No memory was left for a new image.
    OutOfMemory,
}

/// Relies on `wgpu::Device::create_command_encoder`: a fresh, empty recorder.
#[verifier::external_body]
pub(crate) fn create_encoder(device: &wgpu::Device) -> (r: wgpu::CommandEncoder) {
    device.create_command_encoder(&wgpu::CommandEncoderDescriptor { label: None })
}

/// Relies on `wgpu::CommandEncoder::finish`: the recorded commands as one unit.
#[verifier::external_body]
pub(crate) fn finish_encoder(encoder: wgpu::CommandEncoder) -> (r: wgpu::CommandBuffer) {
    encoder.finish()
}

} // verus!
