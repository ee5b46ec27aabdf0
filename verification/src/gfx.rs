//! The trusted boundary to the graphics and windowing crates. Every item
//! here either declares an outside type so that it can be carried through
//! the library, or wraps a single outside call and states only what that
//! call's own source and documentation show.

use vstd::prelude::*;
use std::sync::Arc;
use crate::{AcquireError, Extent};

verus! {

#[verifier::external_type_specification]
#[verifier::external_body]
pub struct ExInstance(wgpu::Instance);

#[verifier::external_type_specification]
#[verifier::external_body]
pub struct ExAdapter(wgpu::Adapter);

#[verifier::external_type_specification]
#[verifier::external_body]
pub struct ExDevice(wgpu::Device);

#[verifier::external_type_specification]
#[verifier::external_body]
pub struct ExQueue(wgpu::Queue);

#[verifier::external_type_specification]
#[verifier::external_body]
pub struct ExSurface<'window>(wgpu::Surface<'window>);

#[verifier::external_type_specification]
#[verifier::external_body]
#[verifier::reject_recursive_types(V)]
pub struct ExSurfaceConfiguration<V>(wgpu_types::SurfaceConfiguration<V>);

#[verifier::external_type_specification]
#[verifier::external_body]
pub struct ExTextureFormat(wgpu::TextureFormat);

#[verifier::external_type_specification]
#[verifier::external_body]
pub struct ExColor(wgpu::Color);

#[verifier::external_type_specification]
#[verifier::external_body]
pub struct ExSurfaceTexture(wgpu::SurfaceTexture);

#[verifier::external_type_specification]
#[verifier::external_body]
pub struct ExTextureView(wgpu::TextureView);

#[verifier::external_type_specification]
#[verifier::external_body]
pub struct ExCommandEncoder(wgpu::CommandEncoder);

#[verifier::external_type_specification]
#[verifier::external_body]
pub struct ExCommandBuffer(wgpu::CommandBuffer);

#[verifier::external_type_specification]
#[verifier::external_body]
pub struct ExWindow(winit::window::Window);

/// Relies on wgpu::Instance::create_surface: binds a new surface to the
/// given window; the surface owns a clone of the window's shared handle,
/// so it stays valid as long as the surface lives. None when the platform
/// cannot produce a surface for this window.
#[verifier::external_body]
pub(crate) fn create_surface(
    instance: &wgpu::Instance,
    window: &Arc<winit::window::Window>,
) -> (r: Option<wgpu::Surface<'static>>) {
    match instance.create_surface(window.clone()) {
        Ok(surface) => Some(surface),
        Err(_) => None,
    }
}

/// Relies on winit::window::Window::inner_size: the current physical size
/// of the window's drawable area. It depends on the platform's state at
/// the moment of the call, so nothing is promised of it.
#[verifier::external_body]
pub(crate) fn window_inner_size(window: &Arc<winit::window::Window>) -> (r: Extent) {
    let size = window.inner_size();
    Extent { width: size.width, height: size.height }
}

/// Relies on wgpu::Surface::get_default_config: a default configuration
/// for this surface on the given adapter, or None when the adapter does
/// not support the surface.
#[verifier::external_body]
pub(crate) fn surface_default_config(
    surface: &wgpu::Surface<'static>,
    adapter: &wgpu::Adapter,
    size: Extent,
) -> (r: Option<wgpu::SurfaceConfiguration>) {
    surface.get_default_config(adapter, size.width, size.height)
}

/// Relies on wgpu::Surface::configure: applies the negotiated parameters
/// at the given extent against the device, so that later acquisitions
/// produce textures of that extent. wgpu documents a panic on a zero
/// width or height, so those extents are left out.
#[verifier::external_body]
pub(crate) fn configure_surface(
    surface: &wgpu::Surface<'static>,
    device: &wgpu::Device,
    params: &wgpu::SurfaceConfiguration,
    size: Extent,
)
    requires
        size.spec_is_drawable(),
{
    let mut applied = params.clone();
    applied.width = size.width;
    applied.height = size.height;
    surface.configure(device, &applied);
}

/// Relies on wgpu::Surface::get_current_texture: the next presentable
/// texture of a configured surface, or which of the four acquisition
/// failures occurred. The outcome depends on the presentation engine, so
/// nothing is promised of it. wgpu aborts if the surface was never
/// configured; the library only ever acquires through an Object, whose
/// surface was configured when the Object was made.
#[verifier::external_body]
pub(crate) fn acquire_texture(
    surface: &wgpu::Surface<'static>,
) -> (r: Result<wgpu::SurfaceTexture, AcquireError>) {
    match surface.get_current_texture() {
        Ok(frame) => Ok(frame),
        Err(wgpu::SurfaceError::Timeout) => Err(AcquireError::Timeout),
        Err(wgpu::SurfaceError::Outdated) => Err(AcquireError::Outdated),
        Err(wgpu::SurfaceError::Lost) => Err(AcquireError::Lost),
        Err(wgpu::SurfaceError::OutOfMemory) => Err(AcquireError::OutOfMemory),
    }
}

/// Relies on wgpu::Texture::create_view: a default view over the acquired
/// frame's texture.
#[verifier::external_body]
pub(crate) fn create_view(frame: &wgpu::SurfaceTexture) -> (r: wgpu::TextureView) {
    frame.texture.create_view(&wgpu::TextureViewDescriptor::default())
}

/// Relies on wgpu::Device::create_command_encoder: a fresh one-shot
/// command recording scope.
#[verifier::external_body]
pub(crate) fn create_encoder(device: &wgpu::Device) -> (r: wgpu::CommandEncoder) {
    device.create_command_encoder(&wgpu::CommandEncoderDescriptor { label: None })
}

/// Relies on wgpu::CommandEncoder::begin_render_pass: records one render
/// pass over the single given color attachment that clears it to the
/// given color and stores the result; no depth, stencil or queries.
#[verifier::external_body]
pub(crate) fn record_clear_pass(
    encoder: &mut wgpu::CommandEncoder,
    view: &wgpu::TextureView,
    background: &wgpu::Color,
) {
    let _pass = encoder.begin_render_pass(&wgpu::RenderPassDescriptor {
        label: None,
        color_attachments: &[Some(wgpu::RenderPassColorAttachment {
            view,
            resolve_target: None,
            ops: wgpu::Operations { load: wgpu::LoadOp::Clear(*background), store: wgpu::StoreOp::Store },
        })],
        depth_stencil_attachment: None,
        timestamp_writes: None,
        occlusion_query_set: None,
    });
}

/// Relies on wgpu::CommandEncoder::finish: closes the recording scope
/// into a submittable command buffer.
#[verifier::external_body]
pub(crate) fn finish_encoder(encoder: wgpu::CommandEncoder) -> (r: wgpu::CommandBuffer) {
    encoder.finish()
}

/// Relies on wgpu::Queue::submit: hands the command buffer to the
/// device's queue for execution.
#[verifier::external_body]
pub(crate) fn submit_one(queue: &wgpu::Queue, buffer: wgpu::CommandBuffer) {
    queue.submit(Some(buffer));
}

/// Relies on wgpu::SurfaceTexture::present: schedules the acquired
/// texture for display once the queue's work on it is done.
#[verifier::external_body]
pub(crate) fn present_frame(frame: wgpu::SurfaceTexture) {
    frame.present();
}

} // verus!
