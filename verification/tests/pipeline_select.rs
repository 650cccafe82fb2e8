use heartscene::pipeline::{PipelineKind, PipelineSet, SelectPolicy};

#[test]
fn fixed_set_is_two_triangles_then_the_mesh() {
    let s = PipelineSet::new(SelectPolicy::Toggle);
    assert_eq!(s.pipeline_count(), 3);
    assert_eq!(s.kinds[0], PipelineKind::NonIndexed);
    assert_eq!(s.kinds[1], PipelineKind::NonIndexed);
    assert_eq!(s.kinds[2], PipelineKind::IndexedMesh);
    assert_eq!(s.active_index(), 2);
    assert_eq!(s.active_kind(), PipelineKind::IndexedMesh);
}

#[test]
fn cycling_count_times_returns_to_the_start() {
    let mut s = PipelineSet::new(SelectPolicy::Toggle);
    let start = s.active_index();
    for _ in 0..s.pipeline_count() {
        s.cycle_next();
    }
    assert_eq!(s.active_index(), start);
}

#[test]
fn n_cycles_from_zero_land_on_n_mod_count() {
    let mut s = PipelineSet::new(SelectPolicy::Toggle);
    s.select(0);
    for n in 1..=7u32 {
        s.cycle_next();
        assert_eq!(s.active_index(), (n % 3) as usize);
    }
}

#[test]
fn select_wraps_by_modulo() {
    let mut s = PipelineSet::new(SelectPolicy::Toggle);
    s.select(7);
    assert_eq!(s.active_index(), 1);
    s.select(3);
    assert_eq!(s.active_index(), 0);
}

#[test]
fn toggle_press_cycles_and_release_is_ignored() {
    let mut s = PipelineSet::new(SelectPolicy::Toggle);
    s.on_select_press();
    assert_eq!(s.active_index(), 0);
    let handled = s.on_select_release();
    assert!(!handled);
    assert_eq!(s.active_index(), 0);
}

#[test]
fn hold_press_selects_alternate_and_release_returns_to_first() {
    let mut s = PipelineSet::new(SelectPolicy::Hold);
    s.on_select_press();
    assert_eq!(s.active_index(), 1);
    let handled = s.on_select_release();
    assert!(handled);
    assert_eq!(s.active_index(), 0);
}
