//! Tests for the progressive text reveal.

use ghost_ui::text::{TextAnimation, TextAnimator};

#[test]
fn test_text_animator_instant() {
    let animator = TextAnimator::new("Hello World", TextAnimation::Instant);
    assert_eq!(animator.visible_text(), "Hello World");
    assert!(animator.is_complete());
}

#[test]
fn test_text_animator_typewriter() {
    let mut animator = TextAnimator::new("Hello", TextAnimation::Typewriter { cps: 10 });
    assert_eq!(animator.visible_text(), "");
    assert!(!animator.is_complete());

    animator.update(100_000); // 0.1 s: exactly one character due
    assert_eq!(animator.visible_text(), "H");

    animator.update(400_000); // 0.5 s in all: every character due
    assert_eq!(animator.visible_text(), "Hello");
    assert!(animator.is_complete());
}

#[test]
fn test_text_animator_word_by_word() {
    let mut animator = TextAnimator::new("Hello World Test", TextAnimation::WordByWord { wps: 2 });
    assert_eq!(animator.visible_text(), "");

    animator.update(500_000); // 0.5 s: the first word
    assert_eq!(animator.visible_text(), "Hello");

    animator.update(500_000); // 1.0 s: two words
    assert_eq!(animator.visible_text(), "Hello World");
}

#[test]
fn test_text_animator_skip() {
    let mut animator = TextAnimator::new("Hello World", TextAnimation::Typewriter { cps: 1 });
    assert!(!animator.is_complete());

    animator.skip();
    assert_eq!(animator.visible_text(), "Hello World");
    assert!(animator.is_complete());
}

#[test]
fn word_by_word_completes_past_last_word() {
    let mut animator = TextAnimator::new("Hello World Test", TextAnimation::WordByWord { wps: 2 });
    animator.update(2_000_000); // 4 words due, only 3 exist
    assert_eq!(animator.visible_text(), "Hello World Test");
    assert!(animator.is_complete());
}

#[test]
fn stream_hurries_over_spaces_and_lingers_on_punctuation() {
    // Costs in half-periods: 'H' 2, 'i' 2, ' ' 1, then letters 2 each and
    // the final '.' 4.
    let mut animator = TextAnimator::new("Hi there.", TextAnimation::Stream { cps: 10 });
    assert_eq!(animator.visible_text(), "");

    animator.update(200_000); // budget: 4 half-periods, enough for "Hi"
    assert_eq!(animator.visible_text(), "Hi");
    assert!(!animator.is_complete());

    animator.update(550_000); // 0.75 s: 15 half-periods reach "Hi there"
    assert_eq!(animator.visible_text(), "Hi there");
    assert!(!animator.is_complete());

    animator.update(200_000); // 0.95 s: 19 half-periods cover everything
    assert_eq!(animator.visible_text(), "Hi there.");
    assert!(animator.is_complete());
}

#[test]
fn reset_starts_the_reveal_over() {
    let mut animator = TextAnimator::new("abc", TextAnimation::Typewriter { cps: 1 });
    animator.update(2_000_000);
    assert_eq!(animator.visible_text(), "ab");
    animator.reset();
    assert_eq!(animator.visible_text(), "");
    assert!(!animator.is_complete());
}

#[test]
fn set_text_replaces_and_restarts() {
    let mut animator = TextAnimator::new("abc", TextAnimation::Instant);
    assert!(animator.is_complete());
    animator.set_text("longer text");
    assert_eq!(animator.visible_text(), "longer text");
    assert_eq!(animator.full_text(), "longer text");
    assert!(animator.is_complete());
}

#[test]
fn progress_reports_thousandths() {
    let mut animator = TextAnimator::new("abcd", TextAnimation::Typewriter { cps: 1 });
    assert_eq!(animator.progress(), 0);
    animator.update(2_000_000);
    assert_eq!(animator.progress(), 500);
    animator.skip();
    assert_eq!(animator.progress(), 1000);

    let empty = TextAnimator::new("", TextAnimation::Typewriter { cps: 1 });
    assert_eq!(empty.progress(), 1000);
}
