use rust_canvas_prototype::controller::{run_script, ControlAction, SessionEvent};
use rust_canvas_prototype::frame::{AcquireOutcome, FrameAction};
use rust_canvas_prototype::geometry::Shape;
use rust_canvas_prototype::pipeline::SurfaceFormat;
use rust_canvas_prototype::session::{State, WindowSize};

fn fresh_session() -> State {
    State::new(SurfaceFormat(1), WindowSize { width: 450, height: 400 })
}

#[test]
fn close_request_exits() {
    let mut s = fresh_session();
    assert_eq!(s.handle_event(SessionEvent::CloseRequested), ControlAction::Exit);
}

#[test]
fn escape_exits() {
    let mut s = fresh_session();
    assert_eq!(s.handle_event(SessionEvent::EscapePressed), ControlAction::Exit);
}

#[test]
fn resize_event_reconfigures_the_surface() {
    let mut s = fresh_session();
    let a = s.handle_event(SessionEvent::Resized(WindowSize { width: 640, height: 480 }));
    assert_eq!(a, ControlAction::ConfigureSurface(s.config));
    assert_eq!(s.config.width, 640);
    assert_eq!(s.config.height, 480);
}

#[test]
fn degenerate_resize_event_is_idle() {
    let mut s = fresh_session();
    let a = s.handle_event(SessionEvent::Resized(WindowSize { width: 0, height: 480 }));
    assert_eq!(a, ControlAction::Idle);
    assert_eq!(s.config.width, 450);
}

#[test]
fn primary_press_rebuilds_buffers_for_the_new_shape() {
    let mut s = fresh_session();
    let a = s.handle_event(SessionEvent::PrimaryMousePressed);
    assert_eq!(a, ControlAction::RebuildBuffers(Shape::Alternate));
    assert_eq!(s.current_shape(), Shape::Alternate);
    assert_eq!(s.num_indices, 15);
}

#[test]
fn swap_then_redraw_draws_the_new_index_count() {
    let mut s = fresh_session();
    s.handle_event(SessionEvent::PrimaryMousePressed);
    match s.handle_event(SessionEvent::RedrawRequested(AcquireOutcome::Acquired)) {
        ControlAction::Draw(plan) => assert_eq!(plan.index_count, 15),
        other => panic!("expected a draw, got {:?}", other),
    }
}

#[test]
fn transient_outcomes_skip_the_frame() {
    let mut s = fresh_session();
    let before = s.clone();
    assert_eq!(
        s.handle_event(SessionEvent::RedrawRequested(AcquireOutcome::Outdated)),
        ControlAction::Idle
    );
    assert_eq!(
        s.handle_event(SessionEvent::RedrawRequested(AcquireOutcome::Timeout)),
        ControlAction::Idle
    );
    assert_eq!(s, before);
}

#[test]
fn main_events_cleared_requests_a_redraw() {
    let mut s = fresh_session();
    assert_eq!(s.handle_event(SessionEvent::MainEventsCleared), ControlAction::RequestRedraw);
}

#[test]
fn lost_frame_is_skipped_and_surface_reconfigured_with_last_size() {
    let mut s = fresh_session();
    s.resize(WindowSize { width: 800, height: 600 });
    let last_config = s.config;
    let events = vec![
        SessionEvent::RedrawRequested(AcquireOutcome::Lost),
        SessionEvent::RedrawRequested(AcquireOutcome::Acquired),
    ];
    let log = run_script(&mut s, &events);
    assert_eq!(log.len(), 2);
    assert_eq!(log[0], ControlAction::ConfigureSurface(last_config));
    match &log[1] {
        ControlAction::Draw(plan) => assert_eq!(plan.index_count, 9),
        other => panic!("frame after the reconfigure should draw, got {:?}", other),
    }
    assert_eq!(s.config.width, 800);
    assert_eq!(s.config.height, 600);
}

#[test]
fn lost_frame_response_reconfigures_directly() {
    let mut s = fresh_session();
    let a = s.frame_response(AcquireOutcome::Lost);
    assert_eq!(a, FrameAction::Reconfigure(s.config));
    assert_eq!(s.config.width, 450);
    assert_eq!(s.config.height, 400);
}

#[test]
fn out_of_memory_stops_the_loop_and_nothing_follows() {
    let mut s = fresh_session();
    let events = vec![
        SessionEvent::RedrawRequested(AcquireOutcome::Acquired),
        SessionEvent::RedrawRequested(AcquireOutcome::OutOfMemory),
        SessionEvent::RedrawRequested(AcquireOutcome::Acquired),
        SessionEvent::PrimaryMousePressed,
    ];
    let log = run_script(&mut s, &events);
    assert_eq!(log.len(), 2);
    assert!(matches!(log[0], ControlAction::Draw(_)));
    assert_eq!(log[1], ControlAction::Exit);
    assert_eq!(s.current_shape(), Shape::Pentagon);
}

#[test]
fn script_without_exit_events_runs_to_the_end() {
    let mut s = fresh_session();
    let events = vec![
        SessionEvent::MainEventsCleared,
        SessionEvent::RedrawRequested(AcquireOutcome::Acquired),
        SessionEvent::OtherInput,
        SessionEvent::Resized(WindowSize { width: 300, height: 200 }),
        SessionEvent::MainEventsCleared,
        SessionEvent::RedrawRequested(AcquireOutcome::Acquired),
    ];
    let log = run_script(&mut s, &events);
    assert_eq!(log.len(), 6);
    assert!(!log.iter().any(|a| matches!(a, ControlAction::Exit)));
}
