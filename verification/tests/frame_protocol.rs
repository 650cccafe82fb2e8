use heartscene::frame::{DrawCall, FrameAcquire, FrameAction, FramePlan};
use heartscene::state::State;

#[test]
fn mesh_pipeline_draws_every_index_once() {
    let s = State::new(640, 480);
    // The last pipeline (the indexed mesh) starts active.
    let p = s.frame_plan();
    assert_eq!(p.pipeline_index, 2);
    assert_eq!(
        p.draw,
        DrawCall::Indexed { index_count: s.geometry.index_count(), instance_count: 1 }
    );
    assert_eq!(p.draw, DrawCall::Indexed { index_count: 21, instance_count: 1 });
}

#[test]
fn bufferless_pipelines_draw_three_vertices_once() {
    let mut s = State::new(640, 480);
    s.pipelines.select(0);
    let p0 = s.frame_plan();
    assert_eq!(p0.draw, DrawCall::NonIndexed { vertex_count: 3, instance_count: 1 });
    s.pipelines.select(1);
    let p1 = s.frame_plan();
    assert_eq!(p1.draw, DrawCall::NonIndexed { vertex_count: 3, instance_count: 1 });
}

#[test]
fn plan_carries_the_current_clear_color() {
    let mut s = State::new(200, 100);
    s.colors.on_pointer_move(100, 50, 200, 100);
    let p = s.frame_plan();
    assert_eq!(p.clear, s.colors.color);
    assert_eq!(p.clear.r, 500_000);
}

#[test]
fn ready_renders_the_plan() {
    let s = State::new(320, 240);
    let expected: FramePlan = s.frame_plan();
    match s.render_step(FrameAcquire::Ready) {
        FrameAction::Render(p) => assert_eq!(p, expected),
        other => panic!("expected a render action, got {:?}", other),
    }
}

#[test]
fn lost_surface_reconfigures_with_the_stored_size() {
    let mut s = State::new(320, 240);
    s.resize(800, 600);
    assert_eq!(
        s.render_step(FrameAcquire::Lost),
        FrameAction::Reconfigure { width: 800, height: 600 }
    );
}

#[test]
fn outdated_and_timeout_only_wait_for_the_next_frame() {
    let s = State::new(320, 240);
    assert_eq!(s.render_step(FrameAcquire::Outdated), FrameAction::RetryNextFrame);
    assert_eq!(s.render_step(FrameAcquire::Timeout), FrameAction::RetryNextFrame);
}

#[test]
fn unavailable_surface_is_reported() {
    let s = State::new(320, 240);
    assert_eq!(s.render_step(FrameAcquire::Unavailable), FrameAction::Report);
}
