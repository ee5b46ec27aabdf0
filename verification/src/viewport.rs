//! The viewport lifecycle: a description binds a surface to a window and
//! a fixed background color; finalizing it against an adapter and device
//! yields an object whose configuration always matches the extent it was
//! last configured with, and whose every frame is cleared to that color.

use vstd::prelude::*;
use std::sync::Arc;
use crate::gfx;
use crate::{AcquireError, Extent, ViewportError};

verus! {

/// A transient, immutable-after-construction binding of a window, a fixed
/// background color and a surface created for that window. It is consumed
/// when finalized into an [`Object`].
pub struct Description {
    /// The window the surface was created for. It is shared: the event
    /// loop's driver holds the other reference.
    pub window: Arc<winit::window::Window>,
    /// The color every frame is cleared to.
    pub background: wgpu::Color,
    /// The surface bound to the window for the life of the graphics
    /// instance.
    pub surface: wgpu::Surface<'static>,
}

/// The negotiated surface configuration: the extent the surface was last
/// configured with, beside the adapter's negotiated parameters (pixel
/// format, present mode, alpha compositing), which never change after
/// finalization.
#[verifier::ext_equal]
pub struct Configuration {
    /// The configured width, in physical pixels.
    pub width: u32,
    /// The configured height, in physical pixels.
    pub height: u32,
    /// The parameters negotiated at finalization. The extent they carry
    /// internally is overwritten by `width` and `height` whenever the
    /// surface is configured.
    pub params: wgpu::SurfaceConfiguration,
}

/// A finalized viewport: the description it was built from, plus the
/// configuration its surface currently carries.
#[verifier::ext_equal]
pub struct Object {
    /// The consumed description, owned from finalization on.
    pub desc: Description,
    /// The configuration the surface was last configured with.
    pub config: Configuration,
}

/// The configuration after a resize to `size`: the extent is replaced,
/// the negotiated parameters are kept.
pub open spec fn cfg_resized(config: Configuration, size: Extent) -> Configuration {
    Configuration { width: size.width, height: size.height, params: config.params }
}

/// The viewport after a resize to `size`: the description is untouched,
/// the configuration's extent is replaced.
pub open spec fn resized(object: Object, size: Extent) -> Object {
    Object { desc: object.desc, config: cfg_resized(object.config, size) }
}

impl Configuration {
    /// The configured extent.
    pub open spec fn spec_extent(self) -> Extent {
        Extent { width: self.width, height: self.height }
    }

    /// Reads the configured extent.
    pub fn extent(&self) -> (r: Extent)
        ensures
            r == self.spec_extent(),
    {
        Extent { width: self.width, height: self.height }
    }

    /// Replaces the configured extent and keeps every negotiated
    /// parameter. The configuration follows the requested size exactly,
    /// whatever it was before.
    pub fn set_extent(&mut self, size: Extent)
        ensures
            *final(self) == cfg_resized(*old(self), size),
            final(self).width == size.width,
            final(self).height == size.height,
            final(self).params == old(self).params,
    {
        self.width = size.width;
        self.height = size.height;
    }
}

impl Description {
    /// Binds a new surface to `window` via `instance` and records the
    /// fixed background color. Fails exactly when the platform and
    /// instance cannot produce a surface for this window; the caller is
    /// expected to treat that as fatal.
    pub fn new(
        window: Arc<winit::window::Window>,
        background: wgpu::Color,
        instance: &wgpu::Instance,
    ) -> (r: Result<Description, ViewportError>)
        ensures
            (r matches Ok(d) ==> d.window == window && d.background == background),
            (r matches Err(e) ==> e == ViewportError::SurfaceCreation),
    {
        match gfx::create_surface(instance, &window) {
            Some(surface) => Ok(Description { window, background, surface }),
            None => Err(ViewportError::SurfaceCreation),
        }
    }

    /// Queries the window's current physical size and finalizes at it.
    /// Fails when the window has a zero dimension, or when the adapter
    /// offers no default configuration for the surface; both are fatal to
    /// the harness. On success the object owns this description whole,
    /// and its configuration's extent is the queried size, which is
    /// positive in both dimensions.
    pub fn build(
        self,
        adapter: &wgpu::Adapter,
        device: &wgpu::Device,
    ) -> (r: Result<Object, ViewportError>)
        ensures
            (r matches Ok(o) ==> o.desc == self && o.config.spec_extent().spec_is_drawable()),
            (r matches Err(e) ==> e == ViewportError::EmptyExtent || e
                == ViewportError::NoDefaultConfiguration),
    {
        let size = gfx::window_inner_size(&self.window);
        if !size.is_drawable() {
            return Err(ViewportError::EmptyExtent);
        }
        self.finalize_at(adapter, device, size)
    }

    /// Finalizes at a known drawable size: asks the adapter for the
    /// surface's default configuration, applies it against the device at
    /// that size, and hands both over to the object. Fails exactly when
    /// the adapter offers no default configuration for the surface.
    pub fn finalize_at(
        self,
        adapter: &wgpu::Adapter,
        device: &wgpu::Device,
        size: Extent,
    ) -> (r: Result<Object, ViewportError>)
        requires
            size.spec_is_drawable(),
        ensures
            (r matches Ok(o) ==> o.desc == self && o.config.width == size.width
                && o.config.height == size.height),
            (r matches Err(e) ==> e == ViewportError::NoDefaultConfiguration),
    {
        match gfx::surface_default_config(&self.surface, adapter, size) {
            Some(params) => {
                let config = Configuration { width: size.width, height: size.height, params };
                gfx::configure_surface(&self.surface, device, &config.params, size);
                Ok(Object { desc: self, config })
            },
            None => Err(ViewportError::NoDefaultConfiguration),
        }
    }

    /// Reads the surface handle, for adapter-compatibility queries.
    pub fn surface(&self) -> (r: &wgpu::Surface<'static>)
        ensures
            r == self.surface,
    {
        &self.surface
    }

    /// Reads the shared window reference.
    pub fn window(&self) -> (r: &Arc<winit::window::Window>)
        ensures
            r == self.window,
    {
        &self.window
    }

    /// Reads the fixed background color.
    pub fn background(&self) -> (r: &wgpu::Color)
        ensures
            r == self.background,
    {
        &self.background
    }
}

impl Object {
    /// Updates the held configuration to `size` and reconfigures the
    /// surface against `device`, so that every later acquisition reflects
    /// the new extent. The description — window, background color and
    /// surface binding — is untouched.
    pub fn resize(&mut self, device: &wgpu::Device, size: Extent)
        requires
            size.spec_is_drawable(),
        ensures
            *final(self) == resized(*old(self), size),
            final(self).config.width == size.width,
            final(self).config.height == size.height,
            final(self).desc == old(self).desc,
    {
        self.config.set_extent(size);
        gfx::configure_surface(&self.desc.surface, device, &self.config.params, size);
    }

    /// Acquires the surface's next presentable texture, or says which of
    /// the four acquisition failures occurred; the harness treats every
    /// failure as fatal rather than presenting a stale frame. Neither
    /// outcome changes the viewport.
    pub fn get_current_texture(&mut self) -> (r: Result<wgpu::SurfaceTexture, AcquireError>)
        ensures
            *final(self) == *old(self),
    {
        gfx::acquire_texture(&self.desc.surface)
    }

    /// Renders one frame: acquires the next texture, records a single
    /// render pass that clears it to the description's background color
    /// and stores it, submits that recording to the queue, and presents.
    /// Fails exactly when acquisition fails, with that failure, and then
    /// submits and presents nothing. Neither outcome changes the
    /// viewport.
    pub fn render_frame(
        &mut self,
        device: &wgpu::Device,
        queue: &wgpu::Queue,
    ) -> (r: Result<(), AcquireError>)
        ensures
            *final(self) == *old(self),
    {
        let frame = match self.get_current_texture() {
            Ok(frame) => frame,
            Err(e) => {
                return Err(e);
            },
        };
        let view = gfx::create_view(&frame);
        let mut encoder = gfx::create_encoder(device);
        gfx::record_clear_pass(&mut encoder, &view, &self.desc.background);
        let buffer = gfx::finish_encoder(encoder);
        gfx::submit_one(queue, buffer);
        gfx::present_frame(frame);
        Ok(())
    }

    /// Reads the underlying description, to reach the window and the
    /// background color without duplicating them.
    pub fn description(&self) -> (r: &Description)
        ensures
            r == self.desc,
    {
        &self.desc
    }
}

/// Law: the configuration follows the requested size. After a resize to
/// `size` the held extent is exactly `size`, and the negotiated
/// parameters are what they were.
pub proof fn lemma_resize_sets_extent(object: Object, size: Extent)
    ensures
        resized(object, size).config.spec_extent() == size,
        resized(object, size).config.params == object.config.params,
{
}

/// Law: resizing is idempotent under repetition. Resizing twice in a row
/// to the same size leaves the viewport exactly as resizing once does.
pub proof fn lemma_resize_idempotent(object: Object, size: Extent)
    ensures
        resized(resized(object, size), size) == resized(object, size),
{
    assert(resized(resized(object, size), size) =~= resized(object, size));
}

/// Law: no operation other than construction changes the description —
/// in particular the background color survives any number of resizes,
/// and acquisition and rendering leave the whole viewport unchanged by
/// their own contracts.
pub proof fn lemma_resize_preserves_description(object: Object, size: Extent)
    ensures
        resized(object, size).desc == object.desc,
        resized(object, size).desc.background == object.desc.background,
{
}

/// The viewport after a whole sequence of resizes, applied in order.
/// Resizing is the only operation that changes a viewport at all, so this
/// describes every possible life of an object after finalization.
pub open spec fn resized_all(object: Object, sizes: Seq<Extent>) -> Object
    decreases sizes.len(),
{
    if sizes.len() == 0 {
        object
    } else {
        resized_all(resized(object, sizes[0]), sizes.drop_first())
    }
}

/// Law: the background color is immutable after construction. However
/// many resizes a viewport goes through — and acquisition and rendering
/// change nothing by their own contracts — the description, and with it
/// the color read back, is exactly what construction set.
pub proof fn lemma_background_immutable(object: Object, sizes: Seq<Extent>)
    ensures
        resized_all(object, sizes).desc == object.desc,
        resized_all(object, sizes).desc.background == object.desc.background,
    decreases sizes.len(),
{
    if sizes.len() > 0 {
        lemma_background_immutable(resized(object, sizes[0]), sizes.drop_first());
    }
}

} // verus!
