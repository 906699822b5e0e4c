use todo_app::state::{
    ControlFlow, Event, PhysicalSize, PresentMode, State, Step, SurfaceConfig, SurfaceError,
};

fn size(width: u32, height: u32) -> PhysicalSize {
    PhysicalSize { width, height }
}

fn idle() -> Step {
    Step {
        control_flow: ControlFlow::Wait,
        render: false,
        reconfigure: false,
        request_redraw: false,
        log_error: false,
    }
}

#[test]
fn new_takes_window_size() {
    let s = State::new(size(800, 600));
    assert_eq!(s.size, size(800, 600));
    assert_eq!(
        s.config,
        SurfaceConfig { width: 800, height: 600, present_mode: PresentMode::Fifo }
    );
    assert_eq!(s.num_vertices, 3);
}

#[test]
fn resize_to_nonzero_updates_config() {
    let mut s = State::new(size(800, 600));
    assert!(s.resize(size(1024, 768)));
    assert_eq!(s.size, size(1024, 768));
    assert_eq!(s.config.width, 1024);
    assert_eq!(s.config.height, 768);
    assert_eq!(s.config.present_mode, PresentMode::Fifo);
    assert_eq!(s.num_vertices, 3);
}

#[test]
fn resize_to_zero_width_is_noop() {
    let mut s = State::new(size(800, 600));
    let before = s;
    assert!(!s.resize(size(0, 768)));
    assert_eq!(s, before);
}

#[test]
fn resize_to_zero_height_is_noop() {
    let mut s = State::new(size(800, 600));
    let before = s;
    assert!(!s.resize(size(1024, 0)));
    assert_eq!(s, before);
}

#[test]
fn resize_to_zero_area_is_noop() {
    let mut s = State::new(size(800, 600));
    let before = s;
    assert!(!s.resize(size(0, 0)));
    assert_eq!(s, before);
}

#[test]
fn resize_to_one_pixel() {
    let mut s = State::new(size(800, 600));
    assert!(s.resize(size(1, 1)));
    assert_eq!(s.config.width, 1);
    assert_eq!(s.config.height, 1);
}

#[test]
fn resize_to_largest_size() {
    let mut s = State::new(size(800, 600));
    assert!(s.resize(size(u32::MAX, u32::MAX)));
    assert_eq!(s.size, size(u32::MAX, u32::MAX));
    assert_eq!(s.config.width, u32::MAX);
}

#[test]
fn input_takes_nothing() {
    let mut s = State::new(size(800, 600));
    let before = s;
    assert!(!s.input(&Event::CloseRequested));
    assert_eq!(s, before);
}

#[test]
fn redraw_of_own_window_renders() {
    let mut s = State::new(size(800, 600));
    let step = s.handle_event(Event::RedrawRequested { own_window: true });
    assert_eq!(step, Step { render: true, ..idle() });
}

#[test]
fn redraw_of_other_window_is_ignored() {
    let mut s = State::new(size(800, 600));
    let step = s.handle_event(Event::RedrawRequested { own_window: false });
    assert_eq!(step, idle());
}

#[test]
fn close_request_exits() {
    let mut s = State::new(size(800, 600));
    let step = s.handle_event(Event::CloseRequested);
    assert_eq!(step, Step { control_flow: ControlFlow::Exit, ..idle() });
}

#[test]
fn escape_exits_other_keys_wait() {
    let mut s = State::new(size(800, 600));
    let step = s.handle_event(Event::KeyboardInput { escape: true });
    assert_eq!(step.control_flow, ControlFlow::Exit);
    let step = s.handle_event(Event::KeyboardInput { escape: false });
    assert_eq!(step, idle());
}

#[test]
fn resized_event_reconfigures_and_redraws() {
    let mut s = State::new(size(800, 600));
    let step = s.handle_event(Event::Resized(size(640, 480)));
    assert_eq!(step, Step { reconfigure: true, request_redraw: true, ..idle() });
    assert_eq!(s.config.width, 640);
    assert_eq!(s.config.height, 480);
}

#[test]
fn resized_event_to_zero_only_redraws() {
    let mut s = State::new(size(800, 600));
    let before = s;
    let step = s.handle_event(Event::Resized(size(0, 0)));
    assert_eq!(step, Step { request_redraw: true, ..idle() });
    assert_eq!(s, before);
}

#[test]
fn scale_factor_change_follows_inner_size() {
    let mut s = State::new(size(800, 600));
    let step = s.handle_event(Event::ScaleFactorChanged { inner_size: size(1600, 1200) });
    assert_eq!(step, Step { reconfigure: true, ..idle() });
    assert_eq!(s.size, size(1600, 1200));
}

#[test]
fn other_events_wait() {
    let mut s = State::new(size(800, 600));
    let before = s;
    assert_eq!(s.handle_event(Event::MainEventsCleared), idle());
    assert_eq!(s.handle_event(Event::OtherWindowEvent), idle());
    assert_eq!(s.handle_event(Event::Other), idle());
    assert_eq!(s, before);
}

#[test]
fn successful_frame_waits() {
    let mut s = State::new(size(800, 600));
    assert_eq!(s.after_render(Ok(())), idle());
}

#[test]
fn lost_surface_reconfigures_current_size() {
    let mut s = State::new(size(800, 600));
    let before = s;
    let step = s.after_render(Err(SurfaceError::Lost));
    assert_eq!(step, Step { reconfigure: true, ..idle() });
    assert_eq!(s, before);
}

#[test]
fn lost_surface_of_zero_size_does_not_reconfigure() {
    let mut s = State::new(size(0, 0));
    let step = s.after_render(Err(SurfaceError::Lost));
    assert_eq!(step, idle());
}

#[test]
fn out_of_memory_exits() {
    let mut s = State::new(size(800, 600));
    let step = s.after_render(Err(SurfaceError::OutOfMemory));
    assert_eq!(step, Step { control_flow: ControlFlow::Exit, ..idle() });
}

#[test]
fn other_surface_errors_are_logged() {
    let mut s = State::new(size(800, 600));
    for e in [SurfaceError::Timeout, SurfaceError::Outdated] {
        let step = s.after_render(Err(e));
        assert_eq!(step, Step { log_error: true, ..idle() });
    }
}
