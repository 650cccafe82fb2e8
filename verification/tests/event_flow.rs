use heartscene::color::COLOR_ONE;
use heartscene::state::{InputEvent, State};
use heartscene::surface::SurfaceConfig;

#[test]
fn resize_with_a_zero_dimension_keeps_the_valid_size() {
    let mut s = State::new(200, 100);
    assert!(!s.resize(0, 50));
    assert_eq!(s.config, SurfaceConfig { width: 200, height: 100 });
    assert!(!s.resize(50, 0));
    assert_eq!(s.config, SurfaceConfig { width: 200, height: 100 });
    assert!(s.resize(300, 200));
    assert_eq!(s.config, SurfaceConfig { width: 300, height: 200 });
}

#[test]
fn standalone_configure_skips_degenerate_sizes() {
    let mut c = SurfaceConfig::new(640, 480);
    assert!(!c.configure(0, 0));
    assert_eq!(c, SurfaceConfig { width: 640, height: 480 });
    assert!(c.configure(1, 1));
    assert_eq!(c, SurfaceConfig { width: 1, height: 1 });
}

#[test]
fn end_to_end_pointer_scroll_press() {
    // White, unlocked, last pipeline active, over a 200 by 100 surface.
    let mut s = State::new(200, 100);
    assert_eq!(s.colors.color.r, COLOR_ONE);
    assert!(!s.colors.locked);
    assert_eq!(s.pipelines.active, s.pipelines.pipeline_count() - 1);

    // Pointer at (100, 50): red and blue become exactly one half.
    assert!(s.input(InputEvent::PointerMoved { x: 100, y: 50 }));
    assert_eq!(s.colors.color.r, 500_000);
    assert_eq!(s.colors.color.b, 500_000);

    // Scrolling up five lines would add a full unit; green pins at one.
    assert!(s.input(InputEvent::ScrollLines { delta: 5 }));
    assert_eq!(s.colors.color.g, COLOR_ONE);

    // The press locks and re-derives red and blue once more.
    assert!(s.input(InputEvent::PrimaryPress));
    assert!(s.colors.locked);
    assert_eq!(s.colors.color.r, 500_000);
    assert_eq!(s.colors.color.b, 500_000);

    // Subsequent pointer moves leave the color untouched.
    let frozen = s.colors.color;
    assert!(s.input(InputEvent::PointerMoved { x: 3, y: 97 }));
    assert!(s.input(InputEvent::PointerMoved { x: 180, y: 20 }));
    assert_eq!(s.colors.color, frozen);
}

#[test]
fn pointer_events_use_the_configured_size() {
    let mut s = State::new(400, 100);
    s.resize(200, 100);
    s.input(InputEvent::PointerMoved { x: 100, y: 50 });
    assert_eq!(s.colors.color.r, 500_000);
}

#[test]
fn pixel_scroll_is_consumed_but_ignored() {
    let mut s = State::new(200, 100);
    let before = s.colors.color;
    assert!(s.input(InputEvent::ScrollPixels));
    assert_eq!(s.colors.color, before);
}

#[test]
fn select_press_cycles_under_the_default_policy() {
    let mut s = State::new(200, 100);
    assert!(s.input(InputEvent::SelectPress));
    assert_eq!(s.pipelines.active, 0);
    assert!(!s.input(InputEvent::SelectRelease));
    assert_eq!(s.pipelines.active, 0);
    assert!(s.input(InputEvent::SelectPress));
    assert!(s.input(InputEvent::SelectPress));
    assert_eq!(s.pipelines.active, 2);
}

#[test]
fn update_changes_nothing() {
    let mut s = State::new(200, 100);
    s.input(InputEvent::PointerMoved { x: 10, y: 20 });
    let color = s.colors.color;
    let active = s.pipelines.active;
    s.update();
    assert_eq!(s.colors.color, color);
    assert_eq!(s.pipelines.active, active);
    assert_eq!(s.config, SurfaceConfig { width: 200, height: 100 });
}
