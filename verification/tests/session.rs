use rust_canvas_prototype::controller::SessionEvent;
use rust_canvas_prototype::frame::{AcquireOutcome, FrameAction};
use rust_canvas_prototype::geometry::Shape;
use rust_canvas_prototype::pipeline::{build_pipeline_plan, IndexFormat, SurfaceFormat};
use rust_canvas_prototype::session::{
    first_supported_format, initial_config, link_pipeline, negotiate_session, select_limits,
    AlphaMode, LimitsProfile, PresentMode, SessionInitError, State, SurfaceUsage, WindowSize,
};

#[test]
fn new_session_initial_state() {
    let s = State::new(SurfaceFormat(2), WindowSize { width: 450, height: 400 });
    assert!(s.pentagon);
    assert_eq!(s.num_indices, 9);
    assert_eq!(s.size, WindowSize { width: 450, height: 400 });
    assert_eq!(s.config.width, 450);
    assert_eq!(s.config.height, 400);
    assert_eq!(s.config.format, SurfaceFormat(2));
    assert_eq!(s.config.usage, SurfaceUsage::RenderAttachment);
    assert_eq!(s.config.present_mode, PresentMode::Fifo);
    assert_eq!(s.config.alpha_mode, AlphaMode::Auto);
    assert_eq!(s.pipeline, build_pipeline_plan(SurfaceFormat(2)));
    assert_eq!(s.vertex_buffer.shape, Shape::Pentagon);
    assert_eq!(s.vertex_buffer.vertex_count, 5);
    assert_eq!(s.index_buffer.shape, Shape::Pentagon);
}

#[test]
fn resize_updates_config_and_render_draws() {
    let mut s = State::new(SurfaceFormat(2), WindowSize { width: 450, height: 400 });
    let reconfigure = s.resize(WindowSize { width: 800, height: 600 });
    assert!(reconfigure);
    assert_eq!(s.config.width, 800);
    assert_eq!(s.config.height, 600);
    assert_eq!(s.size, WindowSize { width: 800, height: 600 });
    match s.frame_response(AcquireOutcome::Acquired) {
        FrameAction::Draw(plan) => {
            assert_eq!(plan.first_index, 0);
            assert_eq!(plan.index_count, 9);
            assert_eq!(plan.instance_count, 1);
            assert_eq!(plan.index_format, IndexFormat::Uint16);
            assert!(plan.clear_target);
        }
        other => panic!("expected a draw, got {:?}", other),
    }
    assert_eq!(s.config.width, s.size.width);
    assert_eq!(s.config.height, s.size.height);
}

#[test]
fn resize_to_zero_width_is_a_noop() {
    let mut s = State::new(SurfaceFormat(2), WindowSize { width: 450, height: 400 });
    let before = s.clone();
    let reconfigure = s.resize(WindowSize { width: 0, height: 600 });
    assert!(!reconfigure);
    assert_eq!(s, before);
}

#[test]
fn resize_to_zero_height_is_a_noop() {
    let mut s = State::new(SurfaceFormat(2), WindowSize { width: 450, height: 400 });
    let before = s.clone();
    let reconfigure = s.resize(WindowSize { width: 800, height: 0 });
    assert!(!reconfigure);
    assert_eq!(s, before);
}

#[test]
fn change_shape_replaces_buffers_and_index_count() {
    let mut s = State::new(SurfaceFormat(2), WindowSize { width: 450, height: 400 });
    s.change_shape();
    assert!(!s.pentagon);
    assert_eq!(s.num_indices, 15);
    assert_eq!(s.vertex_buffer.shape, Shape::Alternate);
    assert_eq!(s.vertex_buffer.vertex_count, 7);
    assert_eq!(s.index_buffer.shape, Shape::Alternate);
    assert_eq!(s.index_buffer.bytes.len(), 30);
    s.change_shape();
    assert!(s.pentagon);
    assert_eq!(s.num_indices, 9);
    assert_eq!(s.vertex_buffer.vertex_count, 5);
    assert_eq!(s.index_buffer.bytes.len(), 18);
}

#[test]
fn index_payload_holds_two_bytes_per_index() {
    let s = State::new(SurfaceFormat(2), WindowSize { width: 450, height: 400 });
    assert_eq!(s.index_buffer.bytes.len(), 18);
}

#[test]
fn update_and_input_change_nothing() {
    let mut s = State::new(SurfaceFormat(2), WindowSize { width: 450, height: 400 });
    let before = s.clone();
    s.update();
    assert_eq!(s, before);
    assert!(!s.input(&SessionEvent::OtherInput));
    assert_eq!(s, before);
}

#[test]
fn negotiate_fails_without_an_adapter() {
    let formats = vec![SurfaceFormat(1)];
    let r = negotiate_session(false, false, &formats, false, WindowSize { width: 10, height: 10 });
    assert_eq!(r, Err(SessionInitError::NoCompatibleAdapter));
}

#[test]
fn negotiate_fails_when_the_device_is_denied() {
    let formats = vec![SurfaceFormat(1)];
    let r = negotiate_session(true, false, &formats, false, WindowSize { width: 10, height: 10 });
    assert_eq!(r, Err(SessionInitError::DeviceRequestFailed));
}

#[test]
fn negotiate_builds_the_plan_from_the_first_format() {
    let formats = vec![SurfaceFormat(4), SurfaceFormat(8)];
    let size = WindowSize { width: 450, height: 400 };
    let plan = negotiate_session(true, true, &formats, false, size).unwrap();
    assert_eq!(plan.limits, LimitsProfile::Standard);
    assert_eq!(plan.config, initial_config(SurfaceFormat(4), 450, 400));

    let constrained = negotiate_session(true, true, &formats, true, size).unwrap();
    assert_eq!(constrained.limits, LimitsProfile::DownlevelWebgl2);
}

#[test]
fn limits_profile_follows_the_host() {
    assert_eq!(select_limits(false), LimitsProfile::Standard);
    assert_eq!(select_limits(true), LimitsProfile::DownlevelWebgl2);
}

#[test]
fn first_supported_format_picks_the_first() {
    assert_eq!(first_supported_format(&vec![]), None);
    assert_eq!(
        first_supported_format(&vec![SurfaceFormat(6), SurfaceFormat(7)]),
        Some(SurfaceFormat(6))
    );
}

#[test]
fn link_pipeline_succeeds_without_a_diagnostic_log() {
    let r = link_pipeline(SurfaceFormat(3), None);
    assert_eq!(r, Ok(build_pipeline_plan(SurfaceFormat(3))));
}

#[test]
fn link_pipeline_fails_with_the_backend_log() {
    let log = String::from("vs_main: type mismatch");
    let r = link_pipeline(SurfaceFormat(3), Some(log));
    assert_eq!(
        r,
        Err(SessionInitError::ShaderCompile(String::from("vs_main: type mismatch")))
    );
}
