//! Tests for the shared coordination record and satellite snapping.

use ghost_ui::coord::{
    satellite_target, GhostState, SnapConfig, WinState, SNAP_TOLERANCE, UNSNAP_TOLERANCE,
};

fn snapped_state() -> GhostState {
    let mut st = GhostState::new();
    st.set_snap_config(SnapConfig { scaled_extra_offset: [50, 0] });
    st.set_main_pos(100, 100);
    st.set_chat_visible(true);
    st.chat_on_show();
    st
}

#[test]
fn fresh_state_has_documented_defaults() {
    let st = GhostState::new();
    assert_eq!(st.persona().animation, "idle");
    assert_eq!(st.persona().opacity, 1000);
    assert!(st.main_window().visible);
    assert!(!st.chat_visible());
    assert!(st.chat_snapped());
    assert!(!st.callout_visible());
    assert_eq!(st.main_pos(), (0, 0));
}

#[test]
fn snapped_satellite_follows_a_primary_move() {
    let mut st = snapped_state();
    assert_eq!(st.chat_last_set_pos(), (150, 100));

    // The primary window moves from (100, 100) to (140, 100): the next
    // reposition command must target (190, 100).
    st.set_main_pos(140, 100);
    assert_eq!(st.chat_follow(), Some((190, 100)));
    assert_eq!(st.chat_last_set_pos(), (190, 100));

    // Nothing moved since: no reposition is due.
    assert_eq!(st.chat_follow(), None);
}

#[test]
fn a_dragged_satellite_unsnaps_and_is_left_alone() {
    let mut st = snapped_state();

    // Observed far outside the tolerance: the user dragged it away.
    let r = st.chat_on_moved(400, 100, UNSNAP_TOLERANCE, SNAP_TOLERANCE);
    assert_eq!(r, None);
    assert!(!st.chat_snapped());

    // The next primary move must NOT reposition the unsnapped satellite.
    st.set_main_pos(200, 100);
    assert_eq!(st.chat_follow(), None);
}

#[test]
fn a_satellite_dropped_near_its_anchor_snaps_back() {
    let mut st = snapped_state();
    st.chat_on_moved(400, 100, UNSNAP_TOLERANCE, SNAP_TOLERANCE);
    assert!(!st.chat_snapped());

    st.set_main_pos(200, 100); // anchor target becomes (250, 100)
    let r = st.chat_on_moved(255, 95, UNSNAP_TOLERANCE, SNAP_TOLERANCE);
    assert_eq!(r, Some((250, 100)));
    assert!(st.chat_snapped());
    assert_eq!(st.chat_last_set_pos(), (250, 100));
}

#[test]
fn small_drift_within_tolerance_keeps_the_snap() {
    let mut st = snapped_state();
    let r = st.chat_on_moved(158, 105, UNSNAP_TOLERANCE, SNAP_TOLERANCE);
    assert_eq!(r, None);
    assert!(st.chat_snapped());
}

#[test]
fn the_move_echoed_by_a_resize_is_not_a_drag() {
    let mut st = snapped_state();
    st.chat_on_resized();
    assert!(st.chat_just_resized());

    // Far outside the drag tolerance, but right after a resize: the snap
    // holds and the tracked position follows the observation.
    let r = st.chat_on_moved(400, 300, UNSNAP_TOLERANCE, SNAP_TOLERANCE);
    assert_eq!(r, None);
    assert!(st.chat_snapped());
    assert!(!st.chat_just_resized());
    assert_eq!(st.chat_last_set_pos(), (400, 300));
}

#[test]
fn showing_the_chat_window_reacquires_the_anchor() {
    let mut st = GhostState::new();
    st.set_snap_config(SnapConfig { scaled_extra_offset: [10, 20] });
    st.set_main_pos(-30, 40);
    st.set_chat_snapped(false);
    let target = st.chat_on_show();
    assert_eq!(target, (-20, 60));
    assert!(st.chat_snapped());
    assert_eq!(st.chat_last_set_pos(), (-20, 60));
}

#[test]
fn hidden_or_unsnapped_chat_does_not_follow() {
    let mut st = snapped_state();
    st.set_chat_visible(false);
    st.set_main_pos(500, 500);
    assert_eq!(st.chat_follow(), None);
}

#[test]
fn satellite_targets_saturate_instead_of_wrapping() {
    assert_eq!(satellite_target(100, 100, 50, 0), (150, 100));
    assert_eq!(satellite_target(i32::MAX, 0, 1, -1), (i32::MAX, -1));
    assert_eq!(satellite_target(i32::MIN, 5, -10, 0), (i32::MIN, 5));
}

#[test]
fn focus_updates_the_main_window_state() {
    let mut st = GhostState::new();
    st.set_main_focused(true);
    assert_eq!(st.main_window().state, WinState::Focused);
    st.set_main_focused(false);
    assert_eq!(st.main_window().state, WinState::Behind);
    st.set_main_size(640, 480);
    assert_eq!(st.main_size(), (640, 480));
    st.set_persona_animation("talking");
    assert_eq!(st.persona().animation, "talking");
}
