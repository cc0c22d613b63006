//! The device, its queue and the presentation surface, and the per-frame
//! render cycle over them.
use vstd::prelude::*;

use crate::gpu::{create_encoder, finish_encoder, AcquireError};

verus! {

/// The surface configuration, field for field as wgpu takes it. Only the
/// surface's own default configuration makes one; the library changes its
/// size alone.
pub struct SurfaceConfig {
    usage: wgpu::TextureUsages,
    format: wgpu::TextureFormat,
    width: u32,
    height: u32,
    present_mode: wgpu::PresentMode,
    desired_maximum_frame_latency: u32,
    alpha_mode: wgpu::CompositeAlphaMode,
    view_formats: Vec<wgpu::TextureFormat>,
}

impl SurfaceConfig {
    /// The configured width.
    pub closed spec fn width(self) -> u32 {
        self.width
    }

    /// The configured height.
    pub closed spec fn height(self) -> u32 {
        self.height
    }

    /// The configured color format.
    pub closed spec fn format(self) -> wgpu::TextureFormat {
        self.format
    }

    /// The same configuration at another size: format, present mode, alpha
    /// mode, usage, latency and view formats are kept.
    pub closed spec fn resized(self, width: u32, height: u32) -> SurfaceConfig {
        SurfaceConfig { width, height, ..self }
    }
}

/// Resizing a configuration to the size it already has changes nothing.
pub proof fn lemma_resize_to_same_size(c: SurfaceConfig)
    ensures
        c.resized(c.width(), c.height()) == c,
        c.resized(c.width(), c.height()).format() == c.format(),
{
}

/// A resized configuration has the new size and keeps its format.
pub proof fn lemma_resized_size_and_format(c: SurfaceConfig, width: u32, height: u32)
    ensures
        c.resized(width, height).width() == width,
        c.resized(width, height).height() == height,
        c.resized(width, height).format() == c.format(),
{
}

/// The limits of the device that the library keeps to.
pub struct DeviceLimits {
    max_side: u32,
    max_buffer_size: u64,
}

/// What went wrong while setting up the device and the surface.
#[derive(PartialEq, Eq, Structural, Clone, Copy, Debug)]
pub enum InitError {
    /// No graphics adapter suits the surface.
    NoAdapter,
    /// The adapter refused to create a device.
    DeviceRequestFailed,
    /// The adapter supports no format or present mode for the surface.
    UnsupportedSurface,
}

/// What one call of `render` did, when it did not fail.
#[derive(PartialEq, Eq, Structural, Clone, Copy, Debug)]
pub enum FrameOutcome {
    /// An image was drawn, submitted and presented.
    Presented,
    /// The surface was stale: it was configured again and the frame dropped.
    Skipped,
}

/// One call that the context makes on its surface or its queue.
pub ghost enum FrameEvent {
    /// The surface was configured at this width and height.
    Configure(u32, u32),
    /// The draw callback ran and returned.
    Draw,
    /// Recorded commands went to the queue.
    Submit,
    /// An image was presented.
    Present,
}

/// The size that a requested side becomes: at least one pixel, and at most
/// the device's largest texture side.
pub open spec fn clamp_extent(n: u32, max_side: u32) -> u32 {
    if n == 0 {
        1
    } else if n > max_side {
        max_side
    } else {
        n
    }
}

/// The steps that a render call takes, by its result.
pub open spec fn frame_events(r: Result<FrameOutcome, AcquireError>, width: u32, height: u32) -> Seq<FrameEvent> {
    match r {
        Ok(FrameOutcome::Presented) => seq![FrameEvent::Draw, FrameEvent::Submit, FrameEvent::Present],
        Ok(FrameOutcome::Skipped) => seq![FrameEvent::Configure(width, height)],
        Err(_) => seq![],
    }
}

/// A size within the device's limits is configured as it is: clamping
/// changes only zeros and sides above the limit.
pub proof fn lemma_size_within_limits_unclamped(width: u32, height: u32, max_side: u32)
    requires
        1 <= width <= max_side,
        1 <= height <= max_side,
    ensures
        (clamp_extent(width, max_side), clamp_extent(height, max_side)) == (width, height),
{
}

/// A frame skipped on a stale surface configures the surface once, at its
/// current size, and neither draws, submits nor presents; a failed frame
/// does nothing at all.
pub proof fn lemma_skipped_frame_only_reconfigures(width: u32, height: u32)
    ensures
        frame_events(Ok(FrameOutcome::Skipped), width, height) == seq![FrameEvent::Configure(width, height)],
        forall|e: AcquireError| frame_events(Err(e), width, height).len() == 0,
{
}

/// A presented frame runs the draw callback once, then submits once, then
/// presents once, in that order, and does not configure the surface.
pub proof fn lemma_presented_frame_in_order(width: u32, height: u32)
    ensures
        ({
            let events = frame_events(Ok(FrameOutcome::Presented), width, height);
            &&& events.len() == 3
            &&& events[0] is Draw
            &&& events[1] is Submit
            &&& events[2] is Present
        }),
{
}

/// What set-up comes to once the platform has answered: a device whose
/// largest texture side is zero, or a surface with no default configuration
/// for the adapter, cannot be rendered to.
pub fn setup_outcome(max_side: u32, has_config: bool) -> (r: Result<(), InitError>)
    ensures
        r is Ok <==> (max_side >= 1 && has_config),
        r is Err ==> r == Err::<(), InitError>(InitError::UnsupportedSurface),
{
    if max_side >= 1 && has_config {
        Ok(())
    } else {
        Err(InitError::UnsupportedSurface)
    }
}

/// The result of a render call once the surface has answered: an image
/// means a presented frame, a stale surface a skipped one, and anything else
/// is passed on as a failure.
pub fn frame_outcome(acquired: Result<(), AcquireError>) -> (r: Result<FrameOutcome, AcquireError>)
    ensures
        acquired is Ok ==> r == Ok::<FrameOutcome, AcquireError>(FrameOutcome::Presented),
        acquired == Err::<(), AcquireError>(AcquireError::Outdated) ==> r == Ok::<FrameOutcome, AcquireError>(FrameOutcome::Skipped),
        acquired is Err && acquired->Err_0 != AcquireError::Outdated ==> r == Err::<FrameOutcome, AcquireError>(acquired->Err_0),
{
    match acquired {
        Ok(()) => Ok(FrameOutcome::Presented),
        Err(AcquireError::Outdated) => Ok(FrameOutcome::Skipped),
        Err(e) => Err(e),
    }
}

/// The surface size for a requested window size: each side at least one
/// pixel and at most `max_side`.
pub fn clamped_size(width: u32, height: u32, max_side: u32) -> (r: (u32, u32))
    requires
        max_side >= 1,
    ensures
        r == (clamp_extent(width, max_side), clamp_extent(height, max_side)),
        1 <= r.0 <= max_side && 1 <= r.1 <= max_side,
{
    let w: u32 = if width == 0 { 1 } else if width > max_side { max_side } else { width };
    let h: u32 = if height == 0 { 1 } else if height > max_side { max_side } else { height };
    (w, h)
}

/// Maps the adapter that the platform offered, if any, to the adapter or
/// the error that stops start-up.
pub fn require_adapter(adapter: Option<wgpu::Adapter>) -> (r: Result<wgpu::Adapter, InitError>)
    ensures
        adapter is None <==> r == Err::<wgpu::Adapter, InitError>(InitError::NoAdapter),
        adapter matches Some(a) ==> r == Ok::<wgpu::Adapter, InitError>(a),
{
    match adapter {
        Some(a) => Ok(a),
        None => Err(InitError::NoAdapter),
    }
}

/// The pieces of one frame handed to the draw callback: the image acquired
/// for this frame and the recorder that draws into it.
pub struct Frame {
    pub target: wgpu::SurfaceTexture,
    pub encoder: wgpu::CommandEncoder,
}


/// The device, its queue, the presentation surface, its configuration and
/// the device's limits.
pub struct Context<'w> {
    device: wgpu::Device,
    queue: wgpu::Queue,
    surface: wgpu::Surface<'w>,
    surf_config: SurfaceConfig,
    limits: DeviceLimits,
    device_id: wgpu::Id<wgpu::Device>,
    history: Ghost<Seq<FrameEvent>>,
}

/// `b` is `a` with only the call log changed.
pub closed spec fn same_but_history(a: Context<'_>, b: Context<'_>) -> bool {
    &&& a.device == b.device
    &&& a.queue == b.queue
    &&& a.surface == b.surface
    &&& a.surf_config == b.surf_config
    &&& a.limits == b.limits
    &&& a.device_id == b.device_id
}

/// Relies on `wgpu::Surface::get_default_config`: `None` when the surface
/// does not suit the adapter; otherwise the surface's first supported format
/// and present mode, at exactly the width and height asked for.
#[verifier::external_body]
fn default_config(surface: &wgpu::Surface<'_>, adapter: &wgpu::Adapter, width: u32, height: u32) -> (r: Option<SurfaceConfig>)
    ensures
        r matches Some(c) ==> c.width() == width && c.height() == height,
{
    match surface.get_default_config(adapter, width, height) {
        Some(c) => Some(SurfaceConfig {
            usage: c.usage,
            format: c.format,
            width: c.width,
            height: c.height,
            present_mode: c.present_mode,
            desired_maximum_frame_latency: c.desired_maximum_frame_latency,
            alpha_mode: c.alpha_mode,
            view_formats: c.view_formats,
        }),
        None => None,
    }
}

/// Relies on `wgpu::Adapter::request_device`, with no features and the given
/// limits, polled once: on native backends its future is ready at the first
/// poll. A device and its queue from this adapter, the adapter's refusal, or
/// `None` if the answer is not ready.
#[verifier::external_body]
fn request_device(adapter: &wgpu::Adapter, limits: wgpu::Limits) -> (r: Option<Result<(wgpu::Device, wgpu::Queue), wgpu::RequestDeviceError>>) {
    let desc = wgpu::DeviceDescriptor { label: None, required_features: wgpu::Features::empty(), required_limits: limits };
    let mut request = Box::pin(adapter.request_device(&desc, None));
    let mut poll_context = std::task::Context::from_waker(std::task::Waker::noop());
    match std::future::Future::poll(request.as_mut(), &mut poll_context) {
        std::task::Poll::Ready(answer) => Some(answer),
        std::task::Poll::Pending => None,
    }
}

/// Relies on `wgpu::Device::global_id`: the device's identity, the same on
/// every call and shared by no other device of the instance.
#[verifier::external_body]
fn device_identity(device: &wgpu::Device) -> (r: wgpu::Id<wgpu::Device>) {
    device.global_id()
}

/// Relies on `wgpu::Device::limits`: the largest texture side and buffer
/// size that this device accepts.
#[verifier::external_body]
fn device_limits(device: &wgpu::Device) -> (r: DeviceLimits) {
    let limits = device.limits();
    DeviceLimits { max_side: limits.max_texture_dimension_2d, max_buffer_size: limits.max_buffer_size }
}

/// Relies on `wgpu::Surface::configure` with the context's configuration,
/// which came from the surface's default configuration and so has a format,
/// present mode, alpha mode and usage that the surface supports. wgpu panics
/// on a zero side or one above the device's largest texture side; those
/// are left out.
#[verifier::external_body]
fn configure_surface(ctx: &mut Context<'_>)
    requires
        1 <= old(ctx).surf_config.width <= old(ctx).limits.max_side,
        1 <= old(ctx).surf_config.height <= old(ctx).limits.max_side,
    ensures
        same_but_history(*old(ctx), *final(ctx)),
        final(ctx).history@ == old(ctx).history@.push(
            FrameEvent::Configure(old(ctx).surf_config.width, old(ctx).surf_config.height),
        ),
{
    let c = &ctx.surf_config;
    ctx.surface.configure(&ctx.device, &wgpu::SurfaceConfiguration {
        usage: c.usage,
        format: c.format,
        width: c.width,
        height: c.height,
        present_mode: c.present_mode,
        desired_maximum_frame_latency: c.desired_maximum_frame_latency,
        alpha_mode: c.alpha_mode,
        view_formats: c.view_formats.clone(),
    });
}

/// Relies on `wgpu::Surface::get_current_texture`: the next presentable
/// image, or the reason that none came, each error passed on as the variant
/// of the same name. wgpu panics on a surface that was never configured;
/// that is left out.
#[verifier::external_body]
fn acquire_image(ctx: &Context<'_>) -> (r: Result<wgpu::SurfaceTexture, AcquireError>)
    requires
        ctx.history@.len() > 0,
{
    match ctx.surface.get_current_texture() {
        Ok(image) => Ok(image),
        Err(wgpu::SurfaceError::Timeout) => Err(AcquireError::Timeout),
        Err(wgpu::SurfaceError::Outdated) => Err(AcquireError::Outdated),
        Err(wgpu::SurfaceError::Lost) => Err(AcquireError::Lost),
        Err(wgpu::SurfaceError::OutOfMemory) => Err(AcquireError::OutOfMemory),
    }
}

/// Relies on `wgpu::Queue::submit`: hands the commands to the context's
/// queue.
#[verifier::external_body]
fn submit_commands(ctx: &mut Context<'_>, commands: wgpu::CommandBuffer)
    ensures
        same_but_history(*old(ctx), *final(ctx)),
        final(ctx).history@ == old(ctx).history@.push(FrameEvent::Submit),
{
    ctx.queue.submit([commands]);
}

/// Relies on `wgpu::SurfaceTexture::present`: shows the image and gives it up.
#[verifier::external_body]
fn present_image(ctx: &mut Context<'_>, image: wgpu::SurfaceTexture)
    ensures
        same_but_history(*old(ctx), *final(ctx)),
        final(ctx).history@ == old(ctx).history@.push(FrameEvent::Present),
{
    image.present();
}

impl<'w> Context<'w> {
    /// The surface is configured within the device's limits, and has been
    /// configured at least once.
    pub closed spec fn wf(&self) -> bool {
        &&& self.limits.max_side >= 1
        &&& 1 <= self.surf_config.width <= self.limits.max_side
        &&& 1 <= self.surf_config.height <= self.limits.max_side
        &&& self.history@.len() > 0
    }

    /// The surface's whole configuration.
    pub closed spec fn config(&self) -> SurfaceConfig {
        self.surf_config
    }

    /// The width and height that the surface is configured with.
    pub open spec fn size(&self) -> (u32, u32) {
        (self.config().width(), self.config().height())
    }

    /// The negotiated color format.
    pub open spec fn format(&self) -> wgpu::TextureFormat {
        self.config().format()
    }

    /// The device's largest texture side.
    pub closed spec fn max_side(&self) -> u32 {
        self.limits.max_side
    }

    /// The device's largest buffer, in bytes.
    pub closed spec fn max_buffer_size(&self) -> u64 {
        self.limits.max_buffer_size
    }

    /// The identity of the context's device.
    pub closed spec fn device_id(&self) -> wgpu::Id<wgpu::Device> {
        self.device_id
    }

    /// Every call made on the surface and the queue, and every run of a draw
    /// callback, since creation, in order.
    pub closed spec fn history(&self) -> Seq<FrameEvent> {
        self.history@
    }

    /// Sets up the context on a surface and the adapter chosen for it:
    /// asks the adapter for a device with `limits`, then configures the
    /// surface at the window's size with each side clamped to between one
    /// pixel and the device's largest texture side.
    pub fn new(
        surface: wgpu::Surface<'w>,
        adapter: &wgpu::Adapter,
        limits: wgpu::Limits,
        width: u32,
        height: u32,
    ) -> (r: Result<Context<'w>, InitError>)
        ensures
            r matches Err(e) ==> e != InitError::NoAdapter,
            r matches Ok(c) ==> {
                &&& c.wf()
                &&& c.size() == (clamp_extent(width, c.max_side()), clamp_extent(height, c.max_side()))
                &&& c.history() == seq![FrameEvent::Configure(c.size().0, c.size().1)]
            },
    {
        let (device, queue) = match request_device(adapter, limits) {
            Some(Ok(pair)) => pair,
            _ => return Err(InitError::DeviceRequestFailed),
        };
        let limits = device_limits(&device);
        let device_id = device_identity(&device);
        let max_side = limits.max_side;
        let (w, h) = if max_side >= 1 {
            clamped_size(width, height, max_side)
        } else {
            (1, 1)
        };
        let found = if max_side >= 1 {
            default_config(&surface, adapter, w, h)
        } else {
            None
        };
        let has_config = found.is_some();
        if let Err(e) = setup_outcome(max_side, has_config) {
            return Err(e);
        }
        let surf_config = match found {
            Some(c) => c,
            None => return Err(InitError::UnsupportedSurface),
        };
        let mut ctx = Context { device, queue, surface, surf_config, limits, device_id, history: Ghost(Seq::empty()) };
        configure_surface(&mut ctx);
        assert(ctx.history@ =~= seq![FrameEvent::Configure(w, h)]);
        Ok(ctx)
    }

    /// Configures the surface at once for a new window size, each side
    /// clamped to between one pixel and the device's largest texture side;
    /// the rest of the configuration stays as it was.
    pub fn resize(&mut self, width: u32, height: u32)
        requires
            old(self).wf(),
        ensures
            final(self).wf(),
            final(self).max_side() == old(self).max_side(),
            final(self).max_buffer_size() == old(self).max_buffer_size(),
            final(self).size() == (clamp_extent(width, old(self).max_side()), clamp_extent(height, old(self).max_side())),
            final(self).format() == old(self).format(),
            final(self).device_id() == old(self).device_id(),
            final(self).config() == old(self).config().resized(
                clamp_extent(width, old(self).max_side()),
                clamp_extent(height, old(self).max_side()),
            ),
            final(self).history() == old(self).history().push(
                FrameEvent::Configure(clamp_extent(width, old(self).max_side()), clamp_extent(height, old(self).max_side())),
            ),
    {
        let (w, h) = clamped_size(width, height, self.limits.max_side);
        self.surf_config.width = w;
        self.surf_config.height = h;
        assert(self.surf_config == old(self).surf_config.resized(w, h));
        configure_surface(self);
    }

    /// Renders one frame. With an image from the surface, runs `draw` once
    /// on a frame of that image and a fresh recorder, with this context, then
    /// submits the recorded commands and presents the image. On a stale
    /// surface, configures it again as it was and skips the frame without
    /// drawing. Any other failure to acquire an image is returned, with
    /// nothing done. The commands that `draw` records must be valid for the
    /// device: wgpu stops the process on invalid ones.
    pub fn render<F>(&mut self, draw: F) -> (r: Result<FrameOutcome, AcquireError>)
        where
            F: FnOnce(&mut Frame, &Context<'w>),
        requires
            old(self).wf(),
            forall|frame: &mut Frame, context: &Context<'w>| draw.requires((frame, context)),
        ensures
            final(self).wf(),
            final(self).config() == old(self).config(),
            final(self).max_side() == old(self).max_side(),
            final(self).max_buffer_size() == old(self).max_buffer_size(),
            final(self).device_id() == old(self).device_id(),
            final(self).history() == old(self).history() + frame_events(r, old(self).size().0, old(self).size().1),
            r matches Err(e) ==> e != AcquireError::Outdated,
            r == Ok::<FrameOutcome, AcquireError>(FrameOutcome::Presented) ==>
                exists|frame: &mut Frame| draw.ensures((frame, &*old(self)), ()),
    {
        let target = match acquire_image(&*self) {
            Ok(target) => target,
            Err(e) => {
                let outcome = frame_outcome(Err(e));
                if let Ok(_) = outcome {
                    configure_surface(self);
                }
                return outcome;
            }
        };
        let encoder = create_encoder(&self.device);
        let mut frame = Frame { target, encoder };
        draw(&mut frame, &*self);
        self.history = Ghost(self.history@.push(FrameEvent::Draw));
        let commands = finish_encoder(frame.encoder);
        submit_commands(self, commands);
        present_image(self, frame.target);
        proof {
            assert(self.history@ =~= old(self).history@ + frame_events(Ok(FrameOutcome::Presented), old(self).size().0, old(self).size().1));
        }
        Ok(FrameOutcome::Presented)
    }

    /// The device, for creating resources.
    pub fn device(&self) -> &wgpu::Device {
        &self.device
    }

    /// The identity of the device.
    pub fn device_identity(&self) -> (r: wgpu::Id<wgpu::Device>)
        ensures
            r == self.device_id(),
    {
        self.device_id
    }

    /// The device's largest texture side.
    pub fn texture_side_limit(&self) -> (r: u32)
        ensures
            r == self.max_side(),
    {
        self.limits.max_side
    }

    /// The device's largest buffer, in bytes.
    pub fn buffer_size_limit(&self) -> (r: u64)
        ensures
            r == self.max_buffer_size(),
    {
        self.limits.max_buffer_size
    }

    /// The queue that commands and buffer writes go to.
    pub fn queue(&self) -> &wgpu::Queue {
        &self.queue
    }

    /// The negotiated color format of the surface.
    pub fn surface_format(&self) -> (r: wgpu::TextureFormat)
        ensures
            r == self.format(),
    {
        self.surf_config.format
    }
}

} // verus!
