//! Tests for the callout visibility lifecycle.

use ghost_ui::callout::{Callout, CalloutTiming, CalloutType};
use ghost_ui::text::TextAnimation;

#[test]
fn opacity_follows_the_configured_timeline() {
    // delay 0, fade in 150 ms, visible 2 s, fade out 150 ms.
    let mut c = Callout::new().with_duration(2_000_000);
    c.say("Hi");

    assert_eq!(c.opacity(), 0);

    c.update(50_000);
    let o1 = c.opacity();
    c.update(50_000);
    let o2 = c.opacity();
    assert!(0 < o1 && o1 < o2 && o2 < 1000);

    c.update(50_000); // 0.15 s: fully visible
    assert_eq!(c.opacity(), 1000);

    c.update(1_000_000); // 1.15 s: still fully visible
    assert_eq!(c.opacity(), 1000);

    c.update(999_999); // just short of 2 s of full visibility
    assert_eq!(c.opacity(), 1000);

    c.update(1); // 2 s of full visibility: fading out starts
    c.update(75_000);
    let o3 = c.opacity();
    c.update(37_500);
    let o4 = c.opacity();
    assert!(o4 < o3 && o3 < 1000);

    c.update(37_500); // fade out over: hidden
    assert_eq!(c.opacity(), 0);
    assert!(!c.is_visible());
}

#[test]
fn say_think_scream_pick_the_bubble_shape() {
    let mut c = Callout::new();
    c.say("a");
    assert_eq!(c.callout_type(), CalloutType::Talk);
    c.think("b");
    assert_eq!(c.callout_type(), CalloutType::Think);
    c.scream("c");
    assert_eq!(c.callout_type(), CalloutType::Scream);
    assert!(c.is_visible());
}

#[test]
fn delay_keeps_the_callout_hidden_at_first() {
    let mut c = Callout::new().with_delay(500_000);
    c.say("late");
    assert_eq!(c.opacity(), 0);
    assert!(!c.is_visible()); // engaged, but nothing shows yet

    c.update(400_000);
    assert_eq!(c.opacity(), 0);

    c.update(200_000); // past the delay: fading in begins
    c.update(150_000);
    assert_eq!(c.opacity(), 1000);
}

#[test]
fn zero_fades_jump_straight_between_phases() {
    let timing = CalloutTiming { duration: None, delay: 0, fade_in: 0, fade_out: 0 };
    let mut c = Callout::new().with_timing(timing);
    c.say("now");
    assert_eq!(c.opacity(), 1000);

    c.dismiss();
    assert_eq!(c.opacity(), 0);
    assert!(!c.is_visible());
}

#[test]
fn dismiss_starts_the_fade_out_early() {
    let mut c = Callout::new().with_duration(60_000_000);
    c.say("short");
    c.update(150_000);
    assert_eq!(c.opacity(), 1000);

    c.dismiss();
    c.update(75_000);
    let o = c.opacity();
    assert!(0 < o && o < 1000);
    c.update(75_000);
    assert!(!c.is_visible());
}

#[test]
fn callout_reveals_text_while_fading() {
    let mut c = Callout::new().with_text_animation(TextAnimation::Typewriter { cps: 10 });
    c.say("Hello");
    assert_eq!(c.visible_text(), "");
    assert!(!c.is_text_complete());
    assert!(c.is_animating());

    c.update(100_000);
    assert_eq!(c.visible_text(), "H");

    c.skip_animation();
    assert_eq!(c.visible_text(), "Hello");
    assert!(c.is_text_complete());
}

#[test]
fn idle_callout_ignores_updates() {
    let mut c = Callout::new();
    c.update(1_000_000);
    assert_eq!(c.opacity(), 0);
    assert!(!c.is_visible());
    assert_eq!(c.visible_text(), "");
}

#[test]
fn timing_constructors_fill_the_defaults() {
    let t = CalloutTiming::with_duration(5_000_000);
    assert_eq!(t.duration, Some(5_000_000));
    assert_eq!(t.delay, 0);
    assert_eq!(t.fade_in, 150_000);
    assert_eq!(t.fade_out, 150_000);

    let p = CalloutTiming::persistent();
    assert_eq!(p.duration, None);
    assert_eq!(p.fade_in, 150_000);

    let d = CalloutTiming::default();
    assert_eq!(d.duration, None);
    assert_eq!(d.delay, 0);
}

#[test]
fn persistent_callout_stays_visible() {
    let mut c = Callout::new().with_timing(CalloutTiming::persistent());
    c.say("forever");
    c.update(150_000);
    assert_eq!(c.opacity(), 1000);
    c.update(3_600_000_000);
    assert_eq!(c.opacity(), 1000);
    assert!(c.is_visible());
    assert!(!c.is_animating());
}

#[test]
fn builders_configure_shape_and_pacing() {
    let mut c = Callout::new()
        .with_type(CalloutType::Think)
        .with_text_animation(TextAnimation::Instant)
        .with_delay(0)
        .with_duration(1_000_000);
    assert_eq!(c.callout_type(), CalloutType::Think);
    assert_eq!(c.timing().duration, Some(1_000_000));
    c.show_text("ready");
    assert_eq!(c.visible_text(), "ready");
    assert!(c.is_text_complete());
}
