//! Event pump decisions: which renderer operation each pump event maps to,
//! and the no-op input hooks the pump may call.
//!
//! The pump itself (window creation, OS event dispatch, the poll loop) is an
//! external collaborator; this module fixes only its decisions, so that the
//! loop body has nothing to decide: it carries out `step`'s verdicts.

use vstd::prelude::*;

use crate::renderer::{Acquisition, FatalError, FrameOutcome, ReleaseStep, Renderer};

verus! {

/// State of a button or key in an input event.
#[derive(Clone, Copy, Debug, PartialEq, Eq, Structural)]
pub enum ElementState {
    Pressed,
    Released,
}

/// Mouse button of an input event.
#[derive(Clone, Copy, Debug, PartialEq, Eq, Structural)]
pub enum MouseButton {
    Left,
    Right,
    Middle,
    Other,
}

/// A pump event, reduced to what the renderer's dispatch policy reads of it.
#[derive(Clone, Copy, Debug, PartialEq, Eq, Structural)]
pub enum PumpEvent {
    /// The idle tick after all pending events were handled: render a frame.
    MainEventsCleared,
    /// The user asked to close the window.
    CloseRequested,
    /// The window was resized to the given pixel dimensions.
    Resized { width: u32, height: u32 },
    /// The display scale changed, giving the window new pixel dimensions.
    ScaleFactorChanged { width: u32, height: u32 },
    /// A file was dropped onto the window.
    DroppedFile,
    /// A mouse button changed state.
    MouseInput { button: MouseButton, state: ElementState },
    /// A key changed state.
    KeyboardInput { state: ElementState, keycode: u32 },
    /// The event loop is being torn down.
    LoopDestroyed,
    /// Any event the renderer does not react to.
    Other,
}

/// What the pump must do for one event.
#[derive(Clone, Copy, Debug, PartialEq, Eq, Structural)]
pub enum PumpAction {
    /// Acquire a frame and call `Renderer::render` with the outcome.
    RenderFrame,
    /// Call `Renderer::resize` with these dimensions.
    Resize { width: u32, height: u32 },
    /// Leave the event loop; the loop teardown will follow.
    Exit,
    /// Call `Renderer::cleanup` and perform the releases it returns.
    Cleanup,
    /// Call the matching no-op input hook; nothing observable happens.
    Acknowledge,
    /// Nothing to do.
    Ignore,
}

/// The dispatch policy: one action per event, with resize-class events
/// (window resize and display-scale change) both mapped to a resize.
pub open spec fn action_for(event: PumpEvent) -> PumpAction {
    match event {
        PumpEvent::MainEventsCleared => PumpAction::RenderFrame,
        PumpEvent::CloseRequested => PumpAction::Exit,
        PumpEvent::Resized { width, height } => PumpAction::Resize { width, height },
        PumpEvent::ScaleFactorChanged { width, height } => PumpAction::Resize { width, height },
        PumpEvent::DroppedFile => PumpAction::Acknowledge,
        PumpEvent::MouseInput { .. } => PumpAction::Acknowledge,
        PumpEvent::KeyboardInput { .. } => PumpAction::Acknowledge,
        PumpEvent::LoopDestroyed => PumpAction::Cleanup,
        PumpEvent::Other => PumpAction::Ignore,
    }
}

/// Decide what the pump must do for one event.
pub fn step(event: &PumpEvent) -> (action: PumpAction)
    ensures
        action == action_for(*event),
{
    match event {
        PumpEvent::MainEventsCleared => PumpAction::RenderFrame,
        PumpEvent::CloseRequested => PumpAction::Exit,
        PumpEvent::Resized { width, height } => PumpAction::Resize {
            width: *width,
            height: *height,
        },
        PumpEvent::ScaleFactorChanged { width, height } => PumpAction::Resize {
            width: *width,
            height: *height,
        },
        PumpEvent::DroppedFile => PumpAction::Acknowledge,
        PumpEvent::MouseInput { .. } => PumpAction::Acknowledge,
        PumpEvent::KeyboardInput { .. } => PumpAction::Acknowledge,
        PumpEvent::LoopDestroyed => PumpAction::Cleanup,
        PumpEvent::Other => PumpAction::Ignore,
    }
}

/// Render one frame on the idle tick, with the dimensions the pump read
/// from the window and the acquisition outcome it got from the driver.
pub fn handle_main_events_cleared(
    renderer: &mut Renderer,
    window_dimensions: &[u32; 2],
    acquisition: Acquisition,
) -> (outcome: Result<FrameOutcome, FatalError>)
    requires
        old(renderer).ready(),
    ensures
        *final(renderer) == old(renderer).after_render(acquisition),
        outcome == old(renderer).render_result(acquisition),
        final(renderer).ready(),
        old(renderer).well_formed() ==> final(renderer).well_formed(),
{
    renderer.render(window_dimensions, acquisition)
}

/// Resize in reaction to a window-resize event.
pub fn handle_resize(dimensions: [u32; 2], renderer: &mut Renderer) -> (reconfigured: bool)
    requires
        old(renderer).ready(),
    ensures
        *final(renderer) == old(renderer).after_resize(dimensions),
        reconfigured == (dimensions[0] != 0 && dimensions[1] != 0),
        final(renderer).ready(),
{
    renderer.resize(dimensions)
}

/// Resize in reaction to a display-scale change, which hands the window's
/// new pixel dimensions along.
pub fn handle_scale_factor_changed(
    new_inner_size: [u32; 2],
    renderer: &mut Renderer,
) -> (reconfigured: bool)
    requires
        old(renderer).ready(),
    ensures
        *final(renderer) == old(renderer).after_resize(new_inner_size),
        reconfigured == (new_inner_size[0] != 0 && new_inner_size[1] != 0),
        final(renderer).ready(),
{
    renderer.resize(new_inner_size)
}

/// Shut the renderer down when the event loop is torn down; the pump
/// performs the returned driver-side releases in order.
pub fn handle_loop_destroyed(renderer: &mut Renderer) -> (steps: Vec<ReleaseStep>)
    ensures
        *final(renderer) == old(renderer).after_cleanup(),
        steps@ == old(renderer).cleanup_steps(),
        !final(renderer).ready(),
{
    renderer.cleanup()
}

/// Hook for a file dropped onto the window: accepted, no observable effect.
pub fn handle_file_dropped(_path: &str) -> (outcome: Result<(), FatalError>)
    ensures
        outcome is Ok,
{
    Ok(())
}

/// Hook for a mouse-button event: accepted, no observable effect.
pub fn handle_mouse_input(
    _button: MouseButton,
    _button_state: ElementState,
) -> (outcome: Result<(), FatalError>)
    ensures
        outcome is Ok,
{
    Ok(())
}

/// Hook for a keyboard event: accepted, no observable effect.
pub fn handle_keyboard_input(_keystate: ElementState, _keycode: u32) -> (outcome: Result<
    (),
    FatalError,
>)
    ensures
        outcome is Ok,
{
    Ok(())
}

} // verus!
