//! Tests for frame-sequence playback and the multi-state skin.

use ghost_ui::animation::{AnimatedSkin, Animation, AnimationState, PlayMode};
use ghost_ui::skin::SkinData;

fn png_bytes(w: u32, h: u32) -> Vec<u8> {
    let img = image::RgbaImage::from_pixel(w, h, image::Rgba([10, 20, 30, 255]));
    let mut buf = std::io::Cursor::new(Vec::new());
    img.write_to(&mut buf, image::ImageFormat::Png).unwrap();
    buf.into_inner()
}

fn frames(n: usize) -> Vec<SkinData> {
    let bytes = png_bytes(2, 2);
    (0..n).map(|_| SkinData::from_bytes(&bytes).unwrap()).collect()
}

#[test]
fn empty_frame_list_is_rejected() {
    let r = Animation::from_frames(Vec::new(), 24);
    assert!(matches!(r, Err(ghost_ui::skin::SkinError::NotFound(_))));
}

#[test]
fn loop_full_cycle_returns_to_start() {
    // Four frames at 10 fps: one frame every 100 ms.
    let mut anim = Animation::from_frames(frames(4), 10).unwrap();
    assert_eq!(anim.current_frame_index(), 0);

    anim.update(100_000);
    assert_eq!(anim.current_frame_index(), 1);

    // Advancing by exactly 4 * (1 / 10 fps) completes one cycle.
    anim.update(400_000);
    assert_eq!(anim.current_frame_index(), 1);

    anim.reset();
    anim.update(400_000);
    assert_eq!(anim.current_frame_index(), 0);
}

#[test]
fn ping_pong_visits_every_index_without_repeats() {
    let mut anim = Animation::from_frames(frames(3), 10).unwrap();
    anim.set_play_mode(PlayMode::PingPong);

    let mut seen: Vec<usize> = vec![anim.current_frame_index()];
    for _ in 0..6 {
        anim.update(100_000);
        seen.push(anim.current_frame_index());
    }
    assert_eq!(seen, vec![0, 1, 2, 1, 0, 1, 2]);
    for pair in seen.windows(2) {
        let step = (pair[1] as i64 - pair[0] as i64).abs();
        assert_eq!(step, 1);
    }
}

#[test]
fn once_and_hide_shows_nothing_after_the_end() {
    let mut anim = Animation::from_frames(frames(2), 10).unwrap();
    anim.set_play_mode(PlayMode::OnceAndHide);
    assert!(anim.current_skin_data().is_some());

    anim.update(100_000);
    assert_eq!(anim.current_frame_index(), 1);
    assert!(!anim.is_finished());

    anim.update(100_000);
    assert!(anim.is_finished());
    assert!(anim.current_skin_data().is_none());

    // Further advancing is a no-op.
    anim.update(300_000);
    assert_eq!(anim.current_frame_index(), 1);
    assert!(anim.current_skin_data().is_none());
}

#[test]
fn once_stops_at_the_last_frame_but_keeps_showing_it() {
    let mut anim = Animation::from_frames(frames(2), 10).unwrap();
    anim.set_play_mode(PlayMode::Once);
    anim.update(500_000);
    assert!(anim.is_finished());
    assert_eq!(anim.current_frame_index(), 1);
    assert!(anim.current_skin_data().is_some());
}

#[test]
fn single_frame_never_steps() {
    let mut anim = Animation::from_frames(frames(1), 30).unwrap();
    anim.update(10_000_000);
    assert_eq!(anim.current_frame_index(), 0);
    assert!(!anim.is_finished());
}

#[test]
fn dimensions_come_from_the_first_frame() {
    let anim = Animation::from_frames(frames(2), 10).unwrap();
    assert_eq!(anim.dimensions(), Some((2, 2)));
    assert_eq!(anim.frame_count(), 2);
}

#[test]
fn animation_state_names_parse_case_insensitively() {
    assert_eq!(AnimationState::from_str("idle"), AnimationState::Idle);
    assert_eq!(AnimationState::from_str("Talking"), AnimationState::Talking);
    assert_eq!(AnimationState::from_str("talk"), AnimationState::Talking);
    assert_eq!(AnimationState::from_str("THINK"), AnimationState::Thinking);
    assert_eq!(AnimationState::from_str("thinking"), AnimationState::Thinking);
    assert_eq!(AnimationState::from_str("Happy"), AnimationState::Happy);
    assert_eq!(AnimationState::from_str("sad"), AnimationState::Sad);
    assert_eq!(AnimationState::from_str("jumping"), AnimationState::Idle);
}

#[test]
fn animated_skin_switches_states_and_falls_back() {
    let mut skin = AnimatedSkin::new();
    assert_eq!(skin.current_state(), AnimationState::Idle);
    assert!(skin.current_skin_data().is_none());

    skin.add_animation(AnimationState::Idle, Animation::from_frames(frames(2), 10).unwrap());
    skin.add_animation(AnimationState::Talking, Animation::from_frames(frames(2), 10).unwrap());
    assert!(skin.has_state(AnimationState::Idle));
    assert!(skin.has_state(AnimationState::Talking));
    assert!(!skin.has_state(AnimationState::Sad));
    assert_eq!(
        skin.available_states(),
        vec![AnimationState::Idle, AnimationState::Talking],
    );

    // A one-shot run returns to the default state when it ends.
    skin.play_once(AnimationState::Talking);
    assert_eq!(skin.current_state(), AnimationState::Talking);
    skin.update(100_000);
    assert_eq!(skin.current_state(), AnimationState::Talking);
    skin.update(100_000);
    assert_eq!(skin.current_state(), AnimationState::Idle);
    assert!(skin.current_skin_data().is_some());
}

#[test]
fn set_state_to_missing_state_changes_nothing() {
    let mut skin = AnimatedSkin::new();
    skin.add_animation(AnimationState::Idle, Animation::from_frames(frames(2), 10).unwrap());
    skin.set_state(AnimationState::Sad);
    assert_eq!(skin.current_state(), AnimationState::Idle);
}
