use renderhost::config::{select_format, SurfaceCaps};
use renderhost::state::{
    AcquisitionOutcome, FrameAction, FrameOutcome, RenderState, UpdateType,
};

fn caps(format_is_srgb: Vec<bool>) -> SurfaceCaps {
    SurfaceCaps {
        format_is_srgb,
        present_mode_count: 3,
        alpha_mode_count: 2,
    }
}

fn state_512() -> RenderState {
    RenderState::new(512, 512, &caps(vec![false, true]))
}

#[test]
fn new_takes_window_size_and_defaults() {
    let s = state_512();
    assert_eq!(s.config_dimensions(), (512, 512));
    assert_eq!(s.size_width, 512);
    assert_eq!(s.size_height, 512);
    assert_eq!(s.config.present_mode, 0);
    assert_eq!(s.config.alpha_mode, 0);
    assert_eq!(s.config.max_queued_frames, 2);
    assert_eq!((s.pointer_x, s.pointer_y), (0, 0));
    assert!(!s.halted);
}

#[test]
fn format_selection_prefers_first_srgb() {
    assert_eq!(select_format(&vec![false, false, true, true]), 2);
    assert_eq!(select_format(&vec![true, false]), 0);
}

#[test]
fn format_selection_falls_back_to_first() {
    assert_eq!(select_format(&vec![false, false, false]), 0);
    let s = RenderState::new(100, 100, &caps(vec![false, false]));
    assert_eq!(s.config.format, 0);
}

#[test]
fn resize_sets_exact_dimensions() {
    let mut s = state_512();
    assert!(s.resize(800, 600));
    assert_eq!(s.config_dimensions(), (800, 600));
    assert_eq!((s.size_width, s.size_height), (800, 600));
}

#[test]
fn resize_zero_width_is_a_noop() {
    let mut s = state_512();
    let before = s;
    assert!(!s.resize(0, 600));
    assert_eq!(s, before);
}

#[test]
fn resize_zero_height_is_a_noop() {
    let mut s = state_512();
    let before = s;
    assert!(!s.resize(800, 0));
    assert_eq!(s, before);
}

#[test]
fn resize_repeated_with_same_size_is_stable() {
    let mut s = state_512();
    assert!(s.resize(640, 480));
    let once = s;
    assert!(s.resize(640, 480));
    assert_eq!(s, once);
}

#[test]
fn clear_color_tracks_pointer_ratio() {
    let mut s = state_512();
    s.update_pointer(128, 384);
    let c = s.clear_color();
    assert_eq!((c.red.num, c.red.den), (128, 512));
    assert_eq!((c.green.num, c.green.den), (384, 512));
    assert_eq!(c.red.num as f64 / c.red.den as f64, 0.25);
    assert_eq!(c.green.num as f64 / c.green.den as f64, 0.75);
    assert_eq!(c.blue.num as f64 / c.blue.den as f64, 0.3);
    assert_eq!(c.alpha.num as f64 / c.alpha.den as f64, 1.0);
}

#[test]
fn clear_color_clamps_pointer_into_surface() {
    let mut s = state_512();
    s.update_pointer(512, 9000);
    let c = s.clear_color();
    assert_eq!(c.red.num, 511);
    assert_eq!(c.green.num, 511);
}

#[test]
fn pointer_midpoint_renders_half_half_scenario() {
    let mut s = state_512();
    s.update_pointer(256, 256);
    let (outcome, action) = s.render_frame(AcquisitionOutcome::Ready);
    assert_eq!(outcome, FrameOutcome::Rendered);
    match action {
        FrameAction::PresentClear(c) => {
            assert_eq!(c.red.num as f64 / c.red.den as f64, 0.5);
            assert_eq!(c.green.num as f64 / c.green.den as f64, 0.5);
            assert_eq!(c.blue.num as f64 / c.blue.den as f64, 0.3);
            assert_eq!(c.alpha.num as f64 / c.alpha.den as f64, 1.0);
        }
        other => panic!("expected a present action, got {:?}", other),
    }
}

#[test]
fn minimize_then_restore_scenario() {
    let mut s = state_512();
    assert!(!s.resize(0, 0));
    assert_eq!(s.config_dimensions(), (512, 512));
    assert!(s.resize(800, 600));
    assert_eq!(s.config_dimensions(), (800, 600));
}

#[test]
fn timeout_skips_and_changes_nothing() {
    let mut s = state_512();
    s.update_pointer(10, 20);
    let before = s;
    let (outcome, action) = s.render_frame(AcquisitionOutcome::Timeout);
    assert_eq!(outcome, FrameOutcome::SkippedTransient);
    assert_eq!(action, FrameAction::Skip);
    assert_eq!(s, before);
}

#[test]
fn outdated_skips_and_changes_nothing() {
    let mut s = state_512();
    s.update_pointer(10, 20);
    let before = s;
    let (outcome, action) = s.render_frame(AcquisitionOutcome::Outdated);
    assert_eq!(outcome, FrameOutcome::SkippedTransient);
    assert_eq!(action, FrameAction::Skip);
    assert_eq!(s, before);
}

#[test]
fn lost_asks_for_reconfiguration_with_cached_size() {
    let mut s = state_512();
    assert!(s.resize(1024, 768));
    let before = s;
    let (outcome, action) = s.render_frame(AcquisitionOutcome::Lost);
    assert_eq!(outcome, FrameOutcome::SkippedTransient);
    assert_eq!(action, FrameAction::Reconfigure(before.config));
    match action {
        FrameAction::Reconfigure(cfg) => {
            assert_eq!((cfg.width, cfg.height), (1024, 768));
        }
        other => panic!("expected a reconfigure action, got {:?}", other),
    }
    assert_eq!(s, before);
}

#[test]
fn out_of_memory_is_fatal_and_halts() {
    let mut s = state_512();
    let (outcome, action) = s.render_frame(AcquisitionOutcome::OutOfMemory);
    assert_eq!(outcome, FrameOutcome::Fatal);
    assert_eq!(action, FrameAction::Skip);
    assert!(s.halted);
}

#[test]
fn ready_frame_leaves_state_unchanged() {
    let mut s = state_512();
    s.update_pointer(31, 47);
    let before = s;
    let (outcome, _) = s.render_frame(AcquisitionOutcome::Ready);
    assert_eq!(outcome, FrameOutcome::Rendered);
    assert_eq!(s, before);
}

#[test]
fn update_stores_position_and_idle_is_a_noop() {
    let mut s = state_512();
    s.update(UpdateType::Pos(40, 50));
    assert_eq!((s.pointer_x, s.pointer_y), (40, 50));
    let before = s;
    s.update(UpdateType::Idle);
    assert_eq!(s, before);
}
