use dragonglass::events::{
    handle_file_dropped, handle_keyboard_input, handle_loop_destroyed, handle_main_events_cleared,
    handle_mouse_input, handle_resize, handle_scale_factor_changed, step, ElementState,
    MouseButton, PumpAction, PumpEvent,
};
use dragonglass::renderer::{
    Acquisition, DriverNegotiation, FrameOutcome, Lifecycle, ReleaseStep, Renderer,
};

fn ready_renderer() -> Renderer {
    let negotiation = DriverNegotiation {
        adapter_available: true,
        device_granted: true,
        preferred_format: Some(2),
        configure_accepted: true,
    };
    Renderer::new(&[800, 600], negotiation).expect("initialization should succeed")
}

#[test]
fn idle_tick_requests_a_frame() {
    assert_eq!(step(&PumpEvent::MainEventsCleared), PumpAction::RenderFrame);
}

#[test]
fn close_request_exits() {
    assert_eq!(step(&PumpEvent::CloseRequested), PumpAction::Exit);
}

#[test]
fn geometry_events_request_a_resize() {
    assert_eq!(
        step(&PumpEvent::Resized {
            width: 1024,
            height: 768
        }),
        PumpAction::Resize {
            width: 1024,
            height: 768
        }
    );
    assert_eq!(
        step(&PumpEvent::ScaleFactorChanged {
            width: 1600,
            height: 1200
        }),
        PumpAction::Resize {
            width: 1600,
            height: 1200
        }
    );
}

#[test]
fn loop_teardown_requests_cleanup() {
    assert_eq!(step(&PumpEvent::LoopDestroyed), PumpAction::Cleanup);
}

#[test]
fn input_events_are_acknowledged_only() {
    assert_eq!(step(&PumpEvent::DroppedFile), PumpAction::Acknowledge);
    assert_eq!(
        step(&PumpEvent::MouseInput {
            button: MouseButton::Left,
            state: ElementState::Pressed
        }),
        PumpAction::Acknowledge
    );
    assert_eq!(
        step(&PumpEvent::KeyboardInput {
            state: ElementState::Released,
            keycode: 57
        }),
        PumpAction::Acknowledge
    );
    assert_eq!(step(&PumpEvent::Other), PumpAction::Ignore);
}

#[test]
fn resize_handlers_delegate_to_the_renderer() {
    let mut renderer = ready_renderer();
    assert!(handle_resize([1024, 768], &mut renderer));
    assert_eq!(renderer.config.width, 1024);
    assert!(!handle_resize([0, 0], &mut renderer));
    assert_eq!(renderer.config.width, 1024);
    assert!(handle_scale_factor_changed([1600, 1200], &mut renderer));
    assert_eq!(renderer.config.height, 1200);
    assert_eq!(renderer.depth_texture.width, 1600);
}

#[test]
fn idle_handler_renders_one_frame() {
    let mut renderer = ready_renderer();
    let outcome = handle_main_events_cleared(&mut renderer, &[800, 600], Acquisition::Acquired);
    assert!(matches!(outcome, Ok(FrameOutcome::Rendered(_))));
    assert_eq!(renderer.frames_presented, 1);
}

#[test]
fn teardown_handler_shuts_the_renderer_down() {
    let mut renderer = ready_renderer();
    let steps = handle_loop_destroyed(&mut renderer);
    assert_eq!(
        steps,
        vec![
            ReleaseStep::DepthTexture,
            ReleaseStep::Surface,
            ReleaseStep::Device
        ]
    );
    assert_eq!(renderer.lifecycle, Lifecycle::ShutDown);
    assert!(handle_loop_destroyed(&mut renderer).is_empty());
}

#[test]
fn input_hooks_accept_without_effect() {
    assert!(handle_file_dropped("assets/icon.png").is_ok());
    assert!(handle_mouse_input(MouseButton::Left, ElementState::Pressed).is_ok());
    assert!(handle_mouse_input(MouseButton::Right, ElementState::Released).is_ok());
    assert!(handle_keyboard_input(ElementState::Pressed, 17).is_ok());
}
