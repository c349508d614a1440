//! Tests for per-window presentation: hit-testing, resize clamping, focus
//! opacity.

use ghost_ui::geom::{clamp_to_max_size, MAX_TEXTURE_SIZE};
use ghost_ui::mask::AlphaMask;
use ghost_ui::presentation::{PresentationConfig, PresentationState};

fn mask_2x2() -> AlphaMask {
    // alpha plane: (0,0)=0  (1,0)=5  (0,1)=10  (1,1)=200, threshold 10
    AlphaMask::new(vec![0, 5, 10, 200], 2, 2).unwrap()
}

#[test]
fn alpha_at_or_below_threshold_is_not_clickable() {
    let m = mask_2x2();
    assert!(!m.hit_test(0, 0, 10));
    assert!(!m.hit_test(1, 0, 10));
    assert!(!m.hit_test(0, 1, 10)); // exactly at the threshold: transparent
    assert!(m.hit_test(1, 1, 10)); // strictly above: clickable
}

#[test]
fn out_of_bounds_is_never_clickable() {
    let m = mask_2x2();
    assert!(!m.hit_test(2, 0, 0));
    assert!(!m.hit_test(0, 2, 0));
    assert!(!m.hit_test(1000, 1000, 0));
}

#[test]
fn mismatched_alpha_plane_is_refused() {
    assert!(AlphaMask::new(vec![1, 2, 3], 2, 2).is_none());
}

#[test]
fn cursor_coordinates_scale_from_window_to_sprite_space() {
    let m = mask_2x2();
    // A 4 x 4 window over the 2 x 2 sprite: (3, 3) lands on sprite (1, 1).
    assert!(m.hit_test_scaled(3, 3, 4, 4, 10));
    assert!(!m.hit_test_scaled(0, 0, 4, 4, 10));
    // A degenerate window is never solid.
    assert!(!m.hit_test_scaled(1, 1, 0, 4, 10));
}

#[test]
fn presentation_hit_testing_drives_click_handling() {
    let config = PresentationConfig { width: 4, height: 4, ..PresentationConfig::default() };
    let mut p = PresentationState::new(config);

    // No sprite loaded: the window counts as fully solid.
    p.handle_cursor_moved(1, 1);
    assert!(p.should_handle_click());

    p.set_mask(mask_2x2());
    p.handle_cursor_moved(3, 3); // sprite pixel (1, 1): solid
    assert!(p.should_handle_click());
    p.handle_cursor_moved(0, 0); // sprite pixel (0, 0): transparent
    assert!(!p.should_handle_click());

    // No cursor position known: clicks pass through.
    p.handle_cursor_left();
    assert!(!p.should_handle_click());
}

#[test]
fn focus_flips_opacity_and_click_through() {
    let mut p = PresentationState::new(PresentationConfig::default());
    assert_eq!(p.opacity(), 500); // starts unfocused

    // Gaining focus with no cursor recorded: transparent under the cursor,
    // so the native click-through flag is asked on.
    let r = p.handle_focus(true);
    assert_eq!(p.opacity(), 1000);
    assert_eq!(r, Some(true));
    assert!(p.is_focused());

    // Losing focus: the window must accept clicks again so it can be
    // refocused.
    let r = p.handle_focus(false);
    assert_eq!(p.opacity(), 500);
    assert_eq!(r, Some(false));
}

#[test]
fn cursor_moves_control_click_through_only_while_focused() {
    let config = PresentationConfig { width: 2, height: 2, ..PresentationConfig::default() };
    let mut p = PresentationState::new(config);
    p.set_mask(mask_2x2());

    // Unfocused: no click-through decision is made.
    assert_eq!(p.handle_cursor_moved(1, 1), None);

    p.handle_focus(true);
    // Focused on a solid pixel: not transparent.
    assert_eq!(p.handle_cursor_moved(1, 1), Some(false));
    // Focused on a transparent pixel: click-through goes on.
    assert_eq!(p.handle_cursor_moved(0, 0), Some(true));
    // Cursor leaves: clicks accepted again.
    assert_eq!(p.handle_cursor_left(), Some(false));
}

#[test]
fn globally_click_through_windows_never_take_clicks() {
    let config = PresentationConfig {
        click_through: true,
        ..PresentationConfig::default()
    };
    let mut p = PresentationState::new(config);
    p.handle_cursor_moved(1, 1);
    assert!(!p.should_handle_click());
    assert_eq!(p.handle_focus(true), None);
}

#[test]
fn oversized_requests_scale_down_proportionally() {
    // Twice the ceiling on the long axis: both axes halve.
    assert_eq!(clamp_to_max_size(4096, 1024, 2048), (2048, 512));
    assert_eq!(clamp_to_max_size(1024, 4096, 2048), (512, 2048));
    // In range: untouched.
    assert_eq!(clamp_to_max_size(1000, 500, 2048), (1000, 500));

    // The pre-resize aspect ratio survives within one pixel of rounding.
    let (w, h) = clamp_to_max_size(3000, 2000, 2048);
    assert_eq!(w, 2048);
    let drift = (h as i64 * 3000 - 2048 * 2000).abs();
    assert!(2 * drift <= 3000);
}

#[test]
fn resize_keeps_the_creation_aspect_ratio() {
    let config = PresentationConfig { width: 200, height: 200, ..PresentationConfig::default() };
    let mut p = PresentationState::new(config);
    assert_eq!(p.last_size(), (200, 200));
    assert_eq!(p.aspect_ratio(), (200, 200));

    // Width moved more: the height is recomputed from the square ratio.
    let out = p.handle_resize(300, 210).unwrap();
    assert_eq!((out.width, out.height), (300, 300));
    assert!(out.corrective);
    assert_eq!(p.last_size(), (300, 300));

    // A matching request needs no correction.
    let out = p.handle_resize(400, 400).unwrap();
    assert_eq!((out.width, out.height), (400, 400));
    assert!(!out.corrective);
}

#[test]
fn zero_sized_resizes_are_ignored() {
    let mut p = PresentationState::new(PresentationConfig::default());
    let before = p.last_size();
    assert!(p.handle_resize(0, 100).is_none());
    assert!(p.handle_resize(100, 0).is_none());
    assert_eq!(p.last_size(), before);
}

#[test]
fn resize_requests_beyond_the_ceiling_are_clamped() {
    let config = PresentationConfig {
        width: 200,
        height: 200,
        maintain_aspect_ratio: false,
        ..PresentationConfig::default()
    };
    let mut p = PresentationState::new(config);
    let out = p.handle_resize(MAX_TEXTURE_SIZE * 2, MAX_TEXTURE_SIZE * 2).unwrap();
    assert_eq!((out.width, out.height), (MAX_TEXTURE_SIZE, MAX_TEXTURE_SIZE));
    assert!(!out.corrective);
}

#[test]
fn opacity_setters_respect_focus_mode() {
    let mut p = PresentationState::new(PresentationConfig::default());
    p.set_opacity_unfocused(250);
    assert_eq!(p.opacity(), 250); // unfocused right now
    p.set_opacity_focused(900);
    assert_eq!(p.opacity(), 250);
    p.handle_focus(true);
    assert_eq!(p.opacity(), 900);

    p.set_focus_opacity_enabled(false);
    p.set_opacity(123);
    assert_eq!(p.opacity(), 123);
    p.set_opacity(5000); // capped at full
    assert_eq!(p.opacity(), 1000);
}
