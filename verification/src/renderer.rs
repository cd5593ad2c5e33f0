//! Renderer lifecycle: surface configuration, resize policy, per-frame error
//! classification, and the shutdown sequence.
//!
//! The renderer is driven serially by an event pump. The pump performs every
//! driver call (backend instance, surface, adapter/device negotiation,
//! surface reconfiguration, command submission, present) and hands each
//! outcome back to the renderer as a plain value; the renderer decides what
//! the pump must do next and keeps its observable state — the surface
//! configuration, the stored dimensions and the attachment texture — in
//! lockstep. Those decisions are the verified core of this crate.

use vstd::prelude::*;

use crate::texture::Texture;

verus! {

/// Host platform family, as the event pump reports it.
#[derive(Clone, Copy, Debug, PartialEq, Eq, Structural)]
pub enum Platform {
    Windows,
    MacOs,
    Linux,
    Browser,
}

/// Graphics backend selected for a platform. One fixed backend per platform
/// family; there is no runtime probing or fallback across backends.
#[derive(Clone, Copy, Debug, PartialEq, Eq, Structural)]
pub enum Backend {
    Dx12,
    Metal,
    Vulkan,
    BrowserWebGpu,
}

/// Frame delivery policy of the presentation surface. The renderer always
/// configures `Fifo` (vsync-locked, first in first out).
#[derive(Clone, Copy, Debug, PartialEq, Eq, Structural)]
pub enum PresentMode {
    Immediate,
    Mailbox,
    Fifo,
}

/// Usage the renderer requests for surface images. Render-target usage is
/// the only one this renderer ever asks for.
#[derive(Clone, Copy, Debug, PartialEq, Eq, Structural)]
pub enum TextureUsage {
    RenderAttachment,
}

/// The swapchain-equivalent configuration of the presentation surface.
///
/// The `format` is a numeric identifier for the backend-selected pixel
/// format, chosen by the event pump when it queries the surface; the
/// renderer stores and reproduces it without interpreting it.
#[derive(Clone, Copy, Debug, PartialEq, Eq, Structural)]
pub struct SurfaceConfiguration {
    pub usage: TextureUsage,
    pub format: u32,
    pub width: u32,
    pub height: u32,
    pub present_mode: PresentMode,
}

/// Lifecycle state of the renderer. A renderer value exists only once
/// initialization succeeded, so `Ready` is the initial state; `ShutDown` is
/// terminal.
#[derive(Clone, Copy, Debug, PartialEq, Eq, Structural)]
pub enum Lifecycle {
    Ready,
    ShutDown,
}

/// What the driver answered during the asynchronous initialization
/// negotiation, collected by the event pump.
///
/// The fields mirror the negotiation steps in order: adapter request, device
/// request, preferred-format query, initial surface configuration. A field
/// after the first failing step is ignored. A caller whose driver cannot
/// report a configuration rejection (it aborts instead) passes
/// `configure_accepted: true`.
#[derive(Clone, Copy, Debug, PartialEq, Eq, Structural)]
pub struct DriverNegotiation {
    pub adapter_available: bool,
    pub device_granted: bool,
    pub preferred_format: Option<u32>,
    pub configure_accepted: bool,
}

/// Why initialization failed. All of these are fatal: they propagate out of
/// `Renderer::new` and there is no retry.
#[derive(Clone, Copy, Debug, PartialEq, Eq, Structural)]
pub enum InitError {
    AdapterUnavailable,
    DeviceRequestFailed,
    NoSupportedSurfaceFormat,
    InitialConfigurationFailed,
}

/// The fatal per-frame condition: the driving loop must terminate the
/// process (releasing resources first) rather than spin on it.
#[derive(Clone, Copy, Debug, PartialEq, Eq, Structural)]
pub enum FatalError {
    OutOfMemory,
}

/// Failure reported by the driver when acquiring the next surface image.
#[derive(Clone, Copy, Debug, PartialEq, Eq, Structural)]
pub enum SurfaceError {
    Timeout,
    Outdated,
    Lost,
    OutOfMemory,
}

/// The three-way classification of acquisition failures. Collapsing any two
/// classes changes observable robustness, so they are kept statically
/// distinct.
#[derive(Clone, Copy, Debug, PartialEq, Eq, Structural)]
pub enum ErrorDisposition {
    RecoverableResize,
    Fatal,
    TransientSkip,
}

/// Outcome of the driver call that acquires the next presentable image,
/// as the event pump hands it to `Renderer::render`.
#[derive(Clone, Copy, Debug, PartialEq, Eq, Structural)]
pub enum Acquisition {
    Acquired,
    Failed(SurfaceError),
}

/// Clear color of the render pass, in thousandths of a unit per channel.
/// The event pump divides by 1000 when it encodes the pass.
#[derive(Clone, Copy, Debug, PartialEq, Eq, Structural)]
pub struct ClearColor {
    pub red_milli: u32,
    pub green_milli: u32,
    pub blue_milli: u32,
    pub alpha_milli: u32,
}

/// Red channel of the fixed background clear color, in thousandths.
pub const CLEAR_RED_MILLI: u32 = 100;

/// Green channel of the fixed background clear color, in thousandths.
pub const CLEAR_GREEN_MILLI: u32 = 200;

/// Blue channel of the fixed background clear color, in thousandths.
pub const CLEAR_BLUE_MILLI: u32 = 300;

/// Alpha channel of the fixed background clear color, in thousandths.
pub const CLEAR_ALPHA_MILLI: u32 = 1000;

/// Clear value of the depth attachment, in thousandths: the far plane.
pub const DEPTH_CLEAR_MILLI: u32 = 1000;

/// The fixed background color every frame is cleared to.
pub open spec fn background_color() -> ClearColor {
    ClearColor {
        red_milli: CLEAR_RED_MILLI,
        green_milli: CLEAR_GREEN_MILLI,
        blue_milli: CLEAR_BLUE_MILLI,
        alpha_milli: CLEAR_ALPHA_MILLI,
    }
}

/// The command sequence for one frame: exactly one render pass with a single
/// color attachment (the acquired surface image, cleared to the background
/// color) and one depth attachment (the current attachment texture, cleared
/// to the far value). The pump submits it once and presents once.
#[derive(Clone, Copy, Debug, PartialEq, Eq, Structural)]
pub struct FramePlan {
    pub render_passes: u32,
    pub color_attachments: u32,
    pub color_clear: ClearColor,
    pub depth_width: u32,
    pub depth_height: u32,
    pub depth_clear_milli: u32,
}

/// What `Renderer::render` asks the event pump to do for this tick.
#[derive(Clone, Copy, Debug, PartialEq, Eq, Structural)]
pub enum FrameOutcome {
    /// Encode the plan, submit it to the queue once, present the acquired
    /// image once.
    Rendered(FramePlan),
    /// The surface was lost or outdated: the renderer performed an implicit
    /// resize with its stored dimensions. The pump reconfigures the live
    /// surface and recreates the attachment texture from the renderer's
    /// configuration; the frame is skipped, not retried.
    Reconfigured,
    /// A transient acquisition failure: skip the frame and continue; it is
    /// expected to resolve by the next tick.
    Skipped,
}

/// One driver-side release performed during shutdown.
#[derive(Clone, Copy, Debug, PartialEq, Eq, Structural)]
pub enum ReleaseStep {
    DepthTexture,
    Surface,
    Device,
}

/// The backend used on each platform family, resolved once, not at runtime.
pub open spec fn backend_for(platform: Platform) -> Backend {
    match platform {
        Platform::Windows => Backend::Dx12,
        Platform::MacOs => Backend::Metal,
        Platform::Linux => Backend::Vulkan,
        Platform::Browser => Backend::BrowserWebGpu,
    }
}

/// Select the fixed graphics backend for a host platform family.
pub fn select_backend(platform: Platform) -> (backend: Backend)
    ensures
        backend == backend_for(platform),
{
    match platform {
        Platform::Windows => Backend::Dx12,
        Platform::MacOs => Backend::Metal,
        Platform::Linux => Backend::Vulkan,
        Platform::Browser => Backend::BrowserWebGpu,
    }
}

/// The disposition of each acquisition failure: surface lost or outdated is
/// recovered from by an implicit resize, out of memory is fatal, anything
/// else skips the frame.
pub open spec fn error_class(error: SurfaceError) -> ErrorDisposition {
    match error {
        SurfaceError::Lost => ErrorDisposition::RecoverableResize,
        SurfaceError::Outdated => ErrorDisposition::RecoverableResize,
        SurfaceError::OutOfMemory => ErrorDisposition::Fatal,
        SurfaceError::Timeout => ErrorDisposition::TransientSkip,
    }
}

/// Classify an acquisition failure into its disposition.
pub fn classify_surface_error(error: &SurfaceError) -> (class: ErrorDisposition)
    ensures
        class == error_class(*error),
{
    match error {
        SurfaceError::Lost => ErrorDisposition::RecoverableResize,
        SurfaceError::Outdated => ErrorDisposition::RecoverableResize,
        SurfaceError::OutOfMemory => ErrorDisposition::Fatal,
        SurfaceError::Timeout => ErrorDisposition::TransientSkip,
    }
}

/// The frame counter after one presented frame; wraps at the top of `u64`.
pub open spec fn next_frame_count(count: u64) -> u64 {
    if count == u64::MAX {
        0
    } else {
        (count + 1) as u64
    }
}

/// The renderer: owner of the presentation surface's configuration, the
/// stored dimensions and the attachment texture description, and the policy
/// that keeps them consistent across resizes, device loss and shutdown.
#[derive(Clone, Copy, Debug, PartialEq, Eq)]
pub struct Renderer {
    pub lifecycle: Lifecycle,
    pub config: SurfaceConfiguration,
    pub dimensions: [u32; 2],
    pub depth_texture: Texture,
    pub frames_presented: u64,
}

impl Renderer {
    /// The renderer's invariant: the surface is configured with positive
    /// dimensions, for render-target usage and vsync-locked presentation,
    /// and the stored dimensions and the attachment texture agree with the
    /// configuration exactly.
    pub open spec fn well_formed(self) -> bool {
        &&& self.config.width > 0
        &&& self.config.height > 0
        &&& self.config.usage is RenderAttachment
        &&& self.config.present_mode is Fifo
        &&& self.dimensions[0] == self.config.width
        &&& self.dimensions[1] == self.config.height
        &&& self.depth_texture.width == self.config.width
        &&& self.depth_texture.height == self.config.height
    }

    /// Whether the renderer accepts lifecycle operations.
    pub open spec fn ready(self) -> bool {
        self.lifecycle is Ready
    }

    /// Runtime mirror of `ready`, for unverified callers that must test the
    /// precondition of `resize` and `render` before calling.
    pub fn is_ready(&self) -> (ready: bool)
        ensures
            ready == self.ready(),
    {
        matches!(self.lifecycle, Lifecycle::Ready)
    }

    /// Runtime mirror of `well_formed`.
    pub fn is_well_formed(&self) -> (well_formed: bool)
        ensures
            well_formed == self.well_formed(),
    {
        self.config.width > 0 && self.config.height > 0
            && matches!(self.config.usage, TextureUsage::RenderAttachment)
            && matches!(self.config.present_mode, PresentMode::Fifo)
            && self.dimensions[0] == self.config.width
            && self.dimensions[1] == self.config.height
            && self.depth_texture.width == self.config.width
            && self.depth_texture.height == self.config.height
    }

    /// What initialization yields for given dimensions and driver answers:
    /// the first failing negotiation step decides the error, in negotiation
    /// order; a zero dimension is rejected before the configuration reaches
    /// the driver.
    pub open spec fn init_result(
        dimensions: [u32; 2],
        negotiation: DriverNegotiation,
    ) -> Result<Renderer, InitError> {
        if !negotiation.adapter_available {
            Err(InitError::AdapterUnavailable)
        } else if !negotiation.device_granted {
            Err(InitError::DeviceRequestFailed)
        } else if negotiation.preferred_format is None {
            Err(InitError::NoSupportedSurfaceFormat)
        } else if dimensions[0] == 0 || dimensions[1] == 0 {
            Err(InitError::InitialConfigurationFailed)
        } else if !negotiation.configure_accepted {
            Err(InitError::InitialConfigurationFailed)
        } else {
            Ok(
                Renderer {
                    lifecycle: Lifecycle::Ready,
                    config: SurfaceConfiguration {
                        usage: TextureUsage::RenderAttachment,
                        format: negotiation.preferred_format.unwrap(),
                        width: dimensions[0],
                        height: dimensions[1],
                        present_mode: PresentMode::Fifo,
                    },
                    dimensions,
                    depth_texture: Texture { width: dimensions[0], height: dimensions[1] },
                    frames_presented: 0,
                },
            )
        }
    }

    /// Build a renderer from the initial pixel dimensions and the outcome of
    /// the driver negotiation the event pump performed against the window's
    /// surface.
    ///
    /// On success the renderer is `Ready` and well formed: the configuration
    /// holds the negotiated format, render-target usage, FIFO presentation
    /// and the initial dimensions, and the attachment texture matches them.
    pub fn new(
        dimensions: &[u32; 2],
        negotiation: DriverNegotiation,
    ) -> (result: Result<Renderer, InitError>)
        ensures
            result == Self::init_result(*dimensions, negotiation),
            (result matches Ok(renderer) ==> renderer.ready() && renderer.well_formed()
                && renderer.frames_presented == 0),
            (result is Ok <==> (negotiation.adapter_available && negotiation.device_granted
                && negotiation.preferred_format is Some && negotiation.configure_accepted
                && dimensions[0] > 0 && dimensions[1] > 0)),
    {
        if !negotiation.adapter_available {
            return Err(InitError::AdapterUnavailable);
        }
        if !negotiation.device_granted {
            return Err(InitError::DeviceRequestFailed);
        }
        let format: u32 = match negotiation.preferred_format {
            Some(format) => format,
            None => {
                return Err(InitError::NoSupportedSurfaceFormat);
            },
        };
        if dimensions[0] == 0 || dimensions[1] == 0 {
            return Err(InitError::InitialConfigurationFailed);
        }
        if !negotiation.configure_accepted {
            return Err(InitError::InitialConfigurationFailed);
        }
        let config = SurfaceConfiguration {
            usage: TextureUsage::RenderAttachment,
            format,
            width: dimensions[0],
            height: dimensions[1],
            present_mode: PresentMode::Fifo,
        };
        let depth_texture = Texture::create_depth_texture(
            dimensions[0],
            dimensions[1],
            "Depth Texture",
        );
        Ok(
            Renderer {
                lifecycle: Lifecycle::Ready,
                config,
                dimensions: *dimensions,
                depth_texture,
                frames_presented: 0,
            },
        )
    }

    /// The renderer after a resize request: unchanged when either dimension
    /// is zero, otherwise the stored dimensions, the configuration's
    /// dimensions and the attachment texture all move to the new dimensions
    /// together.
    pub open spec fn after_resize(self, dimensions: [u32; 2]) -> Renderer {
        if dimensions[0] == 0 || dimensions[1] == 0 {
            self
        } else {
            Renderer {
                dimensions,
                config: SurfaceConfiguration {
                    width: dimensions[0],
                    height: dimensions[1],
                    ..self.config
                },
                depth_texture: Texture { width: dimensions[0], height: dimensions[1] },
                ..self
            }
        }
    }

    /// Resize the presentation surface.
    ///
    /// A zero dimension (a minimized or zero-size window) is a silent no-op,
    /// never an error. Otherwise the stored dimensions and the
    /// configuration are updated and the attachment texture is replaced by
    /// one of the new dimensions; the returned flag tells the event pump to
    /// reconfigure the live surface with the updated configuration and then
    /// rebuild the driver-side attachment texture, in that order.
    pub fn resize(&mut self, dimensions: [u32; 2]) -> (reconfigured: bool)
        requires
            old(self).ready(),
        ensures
            *final(self) == old(self).after_resize(dimensions),
            reconfigured == (dimensions[0] != 0 && dimensions[1] != 0),
            (dimensions[0] == 0 || dimensions[1] == 0) ==> *final(self) == *old(self),
            reconfigured ==> (final(self).config.width == dimensions[0]
                && final(self).config.height == dimensions[1]
                && final(self).depth_texture.width == dimensions[0]
                && final(self).depth_texture.height == dimensions[1]
                && final(self).dimensions == dimensions),
            final(self).ready(),
            old(self).well_formed() ==> final(self).well_formed(),
    {
        if dimensions[0] == 0 || dimensions[1] == 0 {
            return false;
        }
        self.dimensions = dimensions;
        self.config.width = dimensions[0];
        self.config.height = dimensions[1];
        self.depth_texture = Texture::create_depth_texture(
            dimensions[0],
            dimensions[1],
            "Depth Texture",
        );
        true
    }

    /// The command sequence for one successfully acquired frame: one render
    /// pass, one color attachment cleared to the background color, the
    /// current attachment texture as depth attachment cleared to the far
    /// value.
    pub open spec fn frame_plan(self) -> FramePlan {
        FramePlan {
            render_passes: 1,
            color_attachments: 1,
            color_clear: background_color(),
            depth_width: self.depth_texture.width,
            depth_height: self.depth_texture.height,
            depth_clear_milli: DEPTH_CLEAR_MILLI,
        }
    }

    /// Build the command sequence description for one frame.
    pub fn render_frame(&self) -> (plan: FramePlan)
        ensures
            plan == self.frame_plan(),
    {
        FramePlan {
            render_passes: 1,
            color_attachments: 1,
            color_clear: ClearColor {
                red_milli: CLEAR_RED_MILLI,
                green_milli: CLEAR_GREEN_MILLI,
                blue_milli: CLEAR_BLUE_MILLI,
                alpha_milli: CLEAR_ALPHA_MILLI,
            },
            depth_width: self.depth_texture.width,
            depth_height: self.depth_texture.height,
            depth_clear_milli: DEPTH_CLEAR_MILLI,
        }
    }

    /// The renderer state after one render tick with the given acquisition
    /// outcome: a presented frame bumps the counter; a lost or outdated
    /// surface triggers exactly one implicit resize with the stored
    /// (last-known-good) dimensions; everything else leaves the renderer
    /// unchanged.
    pub open spec fn after_render(self, acquisition: Acquisition) -> Renderer {
        match acquisition {
            Acquisition::Acquired => Renderer {
                frames_presented: next_frame_count(self.frames_presented),
                ..self
            },
            Acquisition::Failed(error) => match error_class(error) {
                ErrorDisposition::RecoverableResize => self.after_resize(self.dimensions),
                ErrorDisposition::Fatal => self,
                ErrorDisposition::TransientSkip => self,
            },
        }
    }

    /// What one render tick returns for the given acquisition outcome.
    pub open spec fn render_result(self, acquisition: Acquisition) -> Result<
        FrameOutcome,
        FatalError,
    > {
        match acquisition {
            Acquisition::Acquired => Ok(FrameOutcome::Rendered(self.frame_plan())),
            Acquisition::Failed(error) => match error_class(error) {
                ErrorDisposition::RecoverableResize => Ok(FrameOutcome::Reconfigured),
                ErrorDisposition::Fatal => Err(FatalError::OutOfMemory),
                ErrorDisposition::TransientSkip => Ok(FrameOutcome::Skipped),
            },
        }
    }

    /// Render one frame, given the outcome of the pump's attempt to acquire
    /// the next presentable image.
    ///
    /// The stored dimensions, not the caller's possibly stale ones, drive
    /// the implicit recovery resize, so the parameter the event pump passes
    /// on each tick is accepted and ignored. An out-of-memory failure is the
    /// one fatal condition and is returned as such; a lost or outdated
    /// surface is recovered from by an implicit resize and the frame is
    /// skipped; any other failure only skips the frame.
    pub fn render(
        &mut self,
        _dimensions: &[u32; 2],
        acquisition: Acquisition,
    ) -> (outcome: Result<FrameOutcome, FatalError>)
        requires
            old(self).ready(),
        ensures
            *final(self) == old(self).after_render(acquisition),
            outcome == old(self).render_result(acquisition),
            final(self).ready(),
            old(self).well_formed() ==> final(self).well_formed(),
            (acquisition is Acquired ==> final(self).frames_presented == next_frame_count(
                old(self).frames_presented,
            )),
            (!(acquisition is Acquired) ==> final(self).frames_presented == old(
                self,
            ).frames_presented),
            (outcome is Err <==> acquisition == Acquisition::Failed(SurfaceError::OutOfMemory)),
    {
        match acquisition {
            Acquisition::Acquired => {
                let plan = self.render_frame();
                self.frames_presented = if self.frames_presented == u64::MAX {
                    0
                } else {
                    self.frames_presented + 1
                };
                Ok(FrameOutcome::Rendered(plan))
            },
            Acquisition::Failed(error) => {
                match classify_surface_error(&error) {
                    ErrorDisposition::RecoverableResize => {
                        let dimensions = self.dimensions;
                        let _reconfigured = self.resize(dimensions);
                        Ok(FrameOutcome::Reconfigured)
                    },
                    ErrorDisposition::Fatal => Err(FatalError::OutOfMemory),
                    ErrorDisposition::TransientSkip => Ok(FrameOutcome::Skipped),
                }
            },
        }
    }

    /// The renderer after shutdown: the terminal state, with the last
    /// observable configuration kept for inspection.
    pub open spec fn after_cleanup(self) -> Renderer {
        Renderer { lifecycle: Lifecycle::ShutDown, ..self }
    }

    /// The driver-side releases shutdown asks the pump to perform:
    /// dependents before the device they depend on, and nothing at all once
    /// the renderer is already shut down.
    pub open spec fn cleanup_steps(self) -> Seq<ReleaseStep> {
        if self.ready() {
            seq![ReleaseStep::DepthTexture, ReleaseStep::Surface, ReleaseStep::Device]
        } else {
            Seq::empty()
        }
    }

    /// Shut the renderer down.
    ///
    /// Returns the driver-side releases the event pump must perform, in
    /// order: attachment texture, then surface, then device and queue. Safe
    /// to call even if nothing was ever rendered, and idempotent: a second
    /// call changes nothing and requests no further driver calls.
    pub fn cleanup(&mut self) -> (steps: Vec<ReleaseStep>)
        ensures
            *final(self) == old(self).after_cleanup(),
            steps@ == old(self).cleanup_steps(),
            !final(self).ready(),
            !old(self).ready() ==> (*final(self) == *old(self) && steps@.len() == 0),
    {
        if matches!(self.lifecycle, Lifecycle::ShutDown) {
            return Vec::new();
        }
        self.lifecycle = Lifecycle::ShutDown;
        let mut steps: Vec<ReleaseStep> = Vec::new();
        steps.push(ReleaseStep::DepthTexture);
        steps.push(ReleaseStep::Surface);
        steps.push(ReleaseStep::Device);
        proof {
            assert(steps@ =~= seq![
                ReleaseStep::DepthTexture,
                ReleaseStep::Surface,
                ReleaseStep::Device,
            ]);
        }
        steps
    }
}

/// A resize request with a zero dimension leaves the renderer's observable
/// state entirely unchanged: no reconfiguration, no texture reallocation.
pub proof fn lemma_zero_resize_is_noop(renderer: Renderer, dimensions: [u32; 2])
    requires
        dimensions[0] == 0 || dimensions[1] == 0,
    ensures
        renderer.after_resize(dimensions) == renderer,
{
}

/// Resizing is idempotent: repeating a resize with the same dimensions
/// reproduces exactly the state the first resize established.
pub proof fn lemma_resize_idempotent(renderer: Renderer, dimensions: [u32; 2])
    ensures
        renderer.after_resize(dimensions).after_resize(dimensions) == renderer.after_resize(
            dimensions,
        ),
{
}

/// No drift across resize cycles: resizing, rendering a tick with any
/// acquisition outcome, then resizing again to the same dimensions
/// reproduces the configuration, attachment texture and stored dimensions
/// the first resize established.
pub proof fn lemma_resize_render_resize_no_drift(
    renderer: Renderer,
    dimensions: [u32; 2],
    acquisition: Acquisition,
)
    requires
        dimensions[0] > 0,
        dimensions[1] > 0,
    ensures
        ({
            let first = renderer.after_resize(dimensions);
            let again = first.after_render(acquisition).after_resize(dimensions);
            again.config == first.config && again.depth_texture == first.depth_texture
                && again.dimensions == first.dimensions
        }),
{
}

/// A recoverable acquisition failure performs exactly the implicit resize
/// with the stored last-known-good dimensions, and presents nothing: the
/// frame counter does not move for that tick.
pub proof fn lemma_lost_surface_reconfigures(renderer: Renderer, error: SurfaceError)
    requires
        error_class(error) is RecoverableResize,
    ensures
        renderer.after_render(Acquisition::Failed(error)) == renderer.after_resize(
            renderer.dimensions,
        ),
        renderer.after_render(Acquisition::Failed(error)).frames_presented
            == renderer.frames_presented,
{
}

/// Shutdown is idempotent, and a renderer that is already shut down asks
/// for no further driver calls.
pub proof fn lemma_cleanup_idempotent(renderer: Renderer)
    ensures
        renderer.after_cleanup().after_cleanup() == renderer.after_cleanup(),
        renderer.after_cleanup().cleanup_steps().len() == 0,
{
}

/// Every lifecycle operation preserves the renderer's invariant: the
/// configuration's dimensions stay positive and the stored dimensions and
/// attachment texture stay equal to them.
pub proof fn lemma_lifecycle_preserves_well_formedness(
    renderer: Renderer,
    dimensions: [u32; 2],
    acquisition: Acquisition,
)
    requires
        renderer.well_formed(),
    ensures
        renderer.after_resize(dimensions).well_formed(),
        renderer.after_render(acquisition).well_formed(),
        renderer.after_cleanup().well_formed(),
{
}

} // verus!
