//! Callout bubbles: a time-driven visibility fade around a text reveal.
//!
//! A [`Callout`] is shown with a piece of text, waits out an optional delay,
//! fades in, stays visible (forever or for a configured duration counted
//! from the moment it became fully visible), fades out, and hides.  Its
//! opacity is a pure function of the visibility phase.  All times are whole
//! microseconds; opacity is in thousandths.

use vstd::prelude::*;
use crate::text::{TextAnimation, TextAnimator};

verus! {

/// The shape of a callout bubble.
#[derive(Debug, Clone, Copy, PartialEq, Eq, Structural)]
pub enum CalloutType {
    /// A speech bubble.
    Talk,
    /// A thought bubble.
    Think,
    /// An exclamation bubble.
    Scream,
}

impl Default for CalloutType {
    /// A callout talks unless told otherwise.
    fn default() -> (r: CalloutType)
        ensures
            r == CalloutType::Talk,
    {
        CalloutType::Talk
    }
}

/// When a callout appears, lingers and disappears, in microseconds.
#[derive(Debug, Clone, Copy, PartialEq, Eq)]
pub struct CalloutTiming {
    /// How long the callout stays fully visible; `None` means until hidden
    /// by hand.
    pub duration: Option<u64>,
    /// The wait before the callout starts appearing.
    pub delay: u64,
    /// How long fading in takes.
    pub fade_in: u64,
    /// How long fading out takes.
    pub fade_out: u64,
}

impl Default for CalloutTiming {
    /// Persistent, with no delay and a quick fade on both ends.
    fn default() -> (r: CalloutTiming)
        ensures
            r.duration is None,
            r.delay == 0,
            r.fade_in == 150000,
            r.fade_out == 150000,
    {
        CalloutTiming { duration: None, delay: 0, fade_in: 150000, fade_out: 150000 }
    }
}

impl CalloutTiming {
    /// Default timing that dismisses the callout after `duration_us` of
    /// full visibility.
    pub fn with_duration(duration_us: u64) -> (r: CalloutTiming)
        ensures
            r.duration == Some(duration_us),
            r.delay == 0,
            r.fade_in == 150000,
            r.fade_out == 150000,
    {
        CalloutTiming { duration: Some(duration_us), ..CalloutTiming::default() }
    }

    /// Default timing that stays visible until dismissed by hand.
    pub fn persistent() -> (r: CalloutTiming)
        ensures
            r.duration is None,
            r.delay == 0,
            r.fade_in == 150000,
            r.fade_out == 150000,
    {
        CalloutTiming { duration: None, ..CalloutTiming::default() }
    }
}

/// Where a callout stands in its fade: hidden, fading in with some progress,
/// fully visible, or fading out.  Progress is in microseconds into the fade.
#[derive(Debug, Clone, Copy, PartialEq, Eq, Structural)]
pub enum VisibilityPhase {
    Hidden,
    FadingIn { progress_us: u64 },
    Visible,
    FadingOut { progress_us: u64 },
}

/// The opacity a phase shows, in thousandths: nothing while hidden, the
/// fraction of the fade completed while fading, everything while visible.
pub open spec fn spec_opacity(phase: VisibilityPhase, timing: CalloutTiming) -> nat {
    match phase {
        VisibilityPhase::Hidden => 0,
        VisibilityPhase::FadingIn { progress_us } => (((progress_us as int) * 1000) / (timing.fade_in as int)) as nat,
        VisibilityPhase::Visible => 1000,
        VisibilityPhase::FadingOut { progress_us } => (1000 - ((progress_us as int) * 1000)
            / (timing.fade_out as int)) as nat,
    }
}

/// A callout bubble: visibility fade state around a progressive text
/// reveal.
pub struct Callout {
    callout_type: CalloutType,
    timing: CalloutTiming,
    text_animation: TextAnimation,
    text_animator: Option<TextAnimator>,
    visibility: VisibilityPhase,
    elapsed_us: u64,
    visible_since_us: u64,
    is_visible: bool,
}

impl Callout {
    /// The bubble shape.
    pub closed spec fn spec_type(&self) -> CalloutType {
        self.callout_type
    }

    /// The timing configuration.
    pub closed spec fn spec_timing(&self) -> CalloutTiming {
        self.timing
    }

    /// The text pacing new reveals use.
    pub closed spec fn spec_animation(&self) -> TextAnimation {
        self.text_animation
    }

    /// The reveal of the text last shown, if any was shown yet.
    pub closed spec fn spec_animator(&self) -> Option<TextAnimator> {
        self.text_animator
    }

    /// The visibility phase.
    pub closed spec fn spec_phase(&self) -> VisibilityPhase {
        self.visibility
    }

    /// Microseconds since the callout was last shown.
    pub closed spec fn spec_elapsed(&self) -> nat {
        self.elapsed_us as nat
    }

    /// The `spec_elapsed` value at which the callout last became fully
    /// visible; the auto-hide duration counts from here.
    pub closed spec fn spec_visible_since(&self) -> nat {
        self.visible_since_us as nat
    }

    /// Whether the callout is engaged: shown and not yet fully hidden
    /// again.
    pub closed spec fn spec_is_visible(&self) -> bool {
        self.is_visible
    }

    /// Validity: fade progress stays within a positive fade window, the
    /// visible-since mark does not lie in the future, and the reveal state
    /// is itself valid.
    pub open spec fn wf(&self) -> bool {
        &&& match self.spec_phase() {
            VisibilityPhase::FadingIn { progress_us } => self.spec_timing().fade_in > 0
                && progress_us < self.spec_timing().fade_in,
            VisibilityPhase::FadingOut { progress_us } => self.spec_timing().fade_out > 0
                && progress_us < self.spec_timing().fade_out,
            _ => true,
        }
        &&& self.spec_visible_since() <= self.spec_elapsed()
        &&& match self.spec_animator() {
            Some(a) => a.wf(),
            None => true,
        }
    }

    /// A hidden callout with default shape, timing and pacing.
    pub fn new() -> (r: Callout)
        ensures
            r.wf(),
            r.spec_type() == CalloutType::Talk,
            r.spec_timing().duration is None,
            r.spec_timing().delay == 0,
            r.spec_timing().fade_in == 150000,
            r.spec_timing().fade_out == 150000,
            r.spec_animation() == TextAnimation::Instant,
            r.spec_animator() is None,
            r.spec_phase() == VisibilityPhase::Hidden,
            r.spec_elapsed() == 0,
            !r.spec_is_visible(),
    {
        Callout {
            callout_type: CalloutType::Talk,
            timing: CalloutTiming::default(),
            text_animation: TextAnimation::Instant,
            text_animator: None,
            visibility: VisibilityPhase::Hidden,
            elapsed_us: 0,
            visible_since_us: 0,
            is_visible: false,
        }
    }

    /// The callout with its bubble shape replaced.
    pub fn with_type(self, callout_type: CalloutType) -> (r: Callout)
        requires
            self.wf(),
        ensures
            r.wf(),
            r.spec_type() == callout_type,
            r.spec_timing() == self.spec_timing(),
            r.spec_animation() == self.spec_animation(),
            r.spec_animator() == self.spec_animator(),
            r.spec_phase() == self.spec_phase(),
    {
        Callout { callout_type, ..self }
    }

    /// The callout with its text pacing replaced.
    pub fn with_text_animation(self, animation: TextAnimation) -> (r: Callout)
        requires
            self.wf(),
        ensures
            r.wf(),
            r.spec_animation() == animation,
            r.spec_type() == self.spec_type(),
            r.spec_timing() == self.spec_timing(),
            r.spec_animator() == self.spec_animator(),
            r.spec_phase() == self.spec_phase(),
    {
        Callout { text_animation: animation, ..self }
    }

    /// The callout with its whole timing replaced.
    pub fn with_timing(self, timing: CalloutTiming) -> (r: Callout)
        requires
            self.wf(),
            self.spec_phase() == VisibilityPhase::Hidden,
        ensures
            r.wf(),
            r.spec_timing() == timing,
            r.spec_type() == self.spec_type(),
            r.spec_animation() == self.spec_animation(),
            r.spec_animator() == self.spec_animator(),
            r.spec_phase() == self.spec_phase(),
    {
        Callout { timing, ..self }
    }

    /// The callout set to dismiss itself after `duration_us` of full visibility.
    pub fn with_duration(self, duration_us: u64) -> (r: Callout)
        requires
            self.wf(),
        ensures
            r.wf(),
            r.spec_timing().duration == Some(duration_us),
            r.spec_timing().delay == self.spec_timing().delay,
            r.spec_timing().fade_in == self.spec_timing().fade_in,
            r.spec_timing().fade_out == self.spec_timing().fade_out,
            r.spec_type() == self.spec_type(),
            r.spec_animation() == self.spec_animation(),
            r.spec_animator() == self.spec_animator(),
            r.spec_phase() == self.spec_phase(),
    {
        let timing = CalloutTiming { duration: Some(duration_us), ..self.timing };
        Callout { timing, ..self }
    }

    /// The callout set to wait `delay_us` before appearing.
    pub fn with_delay(self, delay_us: u64) -> (r: Callout)
        requires
            self.wf(),
        ensures
            r.wf(),
            r.spec_timing().delay == delay_us,
            r.spec_timing().duration == self.spec_timing().duration,
            r.spec_timing().fade_in == self.spec_timing().fade_in,
            r.spec_timing().fade_out == self.spec_timing().fade_out,
            r.spec_type() == self.spec_type(),
            r.spec_animation() == self.spec_animation(),
            r.spec_animator() == self.spec_animator(),
            r.spec_phase() == self.spec_phase(),
    {
        let timing = CalloutTiming { delay: delay_us, ..self.timing };
        Callout { timing, ..self }
    }

    /// What showing text leaves behind: a fresh reveal of `text`, the clock
    /// at zero, and the callout waiting out its delay — or already fading
    /// in, or fully visible, when delay and fade-in are zero.
    pub open spec fn spec_shown(&self, ctype: CalloutType, text: Seq<char>, r: &Callout) -> bool {
        &&& r.spec_type() == ctype
        &&& r.spec_timing() == self.spec_timing()
        &&& r.spec_animation() == self.spec_animation()
        &&& (r.spec_animator() matches Some(a) && a.wf() && a.spec_text() == text
            && a.spec_animation() == self.spec_animation() && a.spec_elapsed() == 0
            && a.spec_visible() == (if self.spec_animation() is Instant {
            text.len()
        } else {
            0
        }) && a.spec_complete() == (self.spec_animation() is Instant))
        &&& r.spec_elapsed() == 0
        &&& r.spec_visible_since() == 0
        &&& r.spec_is_visible()
        &&& r.spec_phase() == (if self.spec_timing().delay == 0 {
            if self.spec_timing().fade_in == 0 {
                VisibilityPhase::Visible
            } else {
                VisibilityPhase::FadingIn { progress_us: 0 }
            }
        } else {
            VisibilityPhase::Hidden
        })
    }

    /// Show `text` in a talk bubble.
    pub fn say(&mut self, text: &str)
        requires
            old(self).wf(),
        ensures
            final(self).wf(),
            final(self).spec_type() == CalloutType::Talk,
            old(self).spec_shown(CalloutType::Talk, text@, final(self)),
    {
        self.callout_type = CalloutType::Talk;
        self.show_text(text);
    }

    /// Show `text` in a thought bubble.
    pub fn think(&mut self, text: &str)
        requires
            old(self).wf(),
        ensures
            final(self).wf(),
            final(self).spec_type() == CalloutType::Think,
            old(self).spec_shown(CalloutType::Think, text@, final(self)),
    {
        self.callout_type = CalloutType::Think;
        self.show_text(text);
    }

    /// Show `text` in an exclamation bubble.
    pub fn scream(&mut self, text: &str)
        requires
            old(self).wf(),
        ensures
            final(self).wf(),
            final(self).spec_type() == CalloutType::Scream,
            old(self).spec_shown(CalloutType::Scream, text@, final(self)),
    {
        self.callout_type = CalloutType::Scream;
        self.show_text(text);
    }

    /// Show `text` with the current settings: restart the clock and the
    /// reveal, and enter the phase the delay and fade-in dictate.
    pub fn show_text(&mut self, text: &str)
        requires
            old(self).wf(),
        ensures
            final(self).wf(),
            old(self).spec_shown(old(self).spec_type(), text@, final(self)),
    {
        self.text_animator = Some(TextAnimator::new(text, self.text_animation));
        self.elapsed_us = 0;
        self.visible_since_us = 0;
        self.is_visible = true;
        self.visibility = if self.timing.delay == 0 {
            if self.timing.fade_in == 0 {
                VisibilityPhase::Visible
            } else {
                VisibilityPhase::FadingIn { progress_us: 0 }
            }
        } else {
            VisibilityPhase::Hidden
        };
    }

    /// Dismiss the callout: an engaged callout starts fading out at once —
    /// or disappears outright when no fade-out is configured — whatever its
    /// automatic duration says.
    pub fn dismiss(&mut self)
        requires
            old(self).wf(),
        ensures
            final(self).wf(),
            final(self).spec_type() == old(self).spec_type(),
            final(self).spec_timing() == old(self).spec_timing(),
            final(self).spec_animation() == old(self).spec_animation(),
            final(self).spec_animator() == old(self).spec_animator(),
            final(self).spec_elapsed() == old(self).spec_elapsed(),
            !old(self).spec_is_visible() ==> *final(self) == *old(self),
            old(self).spec_is_visible() ==> {
                if old(self).spec_timing().fade_out == 0 {
                    final(self).spec_phase() == VisibilityPhase::Hidden
                        && !final(self).spec_is_visible()
                } else {
                    final(self).spec_phase() == (VisibilityPhase::FadingOut { progress_us: 0 })
                        && final(self).spec_is_visible()
                }
            },
    {
        if self.is_visible {
            if self.timing.fade_out == 0 {
                self.is_visible = false;
                self.visibility = VisibilityPhase::Hidden;
            } else {
                self.visibility = VisibilityPhase::FadingOut { progress_us: 0 };
            }
        }
    }

    /// The phase after one tick of `delta_us`, entered at `elapsed` (the
    /// clock value after the tick, past the delay): fading in advances and
    /// completes into `Visible`; a fully visible callout with a finite
    /// duration starts fading out once the duration has passed since
    /// `visible_since`; fading out advances and completes into `Hidden`.
    pub open spec fn spec_phase_step(
        timing: CalloutTiming,
        phase: VisibilityPhase,
        delta_us: u64,
        elapsed: nat,
        visible_since: nat,
    ) -> VisibilityPhase {
        match phase {
            VisibilityPhase::Hidden => {
                if timing.fade_in == 0 {
                    VisibilityPhase::Visible
                } else {
                    VisibilityPhase::FadingIn { progress_us: 0 }
                }
            },
            VisibilityPhase::FadingIn { progress_us } => {
                if progress_us + delta_us >= timing.fade_in {
                    VisibilityPhase::Visible
                } else {
                    VisibilityPhase::FadingIn { progress_us: (progress_us + delta_us) as u64 }
                }
            },
            VisibilityPhase::Visible => {
                match timing.duration {
                    Some(d) => {
                        if elapsed - visible_since >= d {
                            if timing.fade_out == 0 {
                                VisibilityPhase::Hidden
                            } else {
                                VisibilityPhase::FadingOut { progress_us: 0 }
                            }
                        } else {
                            VisibilityPhase::Visible
                        }
                    },
                    None => VisibilityPhase::Visible,
                }
            },
            VisibilityPhase::FadingOut { progress_us } => {
                if progress_us + delta_us >= timing.fade_out {
                    VisibilityPhase::Hidden
                } else {
                    VisibilityPhase::FadingOut { progress_us: (progress_us + delta_us) as u64 }
                }
            },
        }
    }

    /// Advance the callout by `delta_us` microseconds: accumulate time, and
    /// once the delay has passed, step the visibility phase and the text
    /// reveal.  A callout that is hidden and not engaged does nothing.
    pub fn update(&mut self, delta_us: u64)
        requires
            old(self).wf(),
        ensures
            final(self).wf(),
            final(self).spec_type() == old(self).spec_type(),
            final(self).spec_timing() == old(self).spec_timing(),
            final(self).spec_animation() == old(self).spec_animation(),
            (!old(self).spec_is_visible() && old(self).spec_phase() == VisibilityPhase::Hidden)
                ==> *final(self) == *old(self),
            (old(self).spec_is_visible() || old(self).spec_phase() != VisibilityPhase::Hidden)
                ==> {
                let e = if old(self).spec_elapsed() + delta_us <= u64::MAX {
                    old(self).spec_elapsed() + delta_us
                } else {
                    u64::MAX as int
                };
                &&& final(self).spec_elapsed() == e
                &&& (e < old(self).spec_timing().delay ==> {
                    &&& final(self).spec_phase() == old(self).spec_phase()
                    &&& final(self).spec_animator() == old(self).spec_animator()
                    &&& final(self).spec_is_visible() == old(self).spec_is_visible()
                    &&& final(self).spec_visible_since() == old(self).spec_visible_since()
                })
                &&& (e >= old(self).spec_timing().delay ==> {
                    let stepped = Self::spec_phase_step(
                        old(self).spec_timing(),
                        old(self).spec_phase(),
                        delta_us,
                        e as nat,
                        old(self).spec_visible_since(),
                    );
                    &&& final(self).spec_phase() == stepped
                    &&& final(self).spec_is_visible() == (old(self).spec_is_visible() && !(
                    old(self).spec_phase() != VisibilityPhase::Hidden && stepped
                        == VisibilityPhase::Hidden))
                    &&& final(self).spec_visible_since() == (if old(self).spec_phase()
                        != VisibilityPhase::Visible && stepped == VisibilityPhase::Visible {
                        e as nat
                    } else {
                        old(self).spec_visible_since()
                    })
                    &&& final(self).spec_animator() == (match old(self).spec_animator() {
                        Some(a) => Some(a.spec_updated(delta_us)),
                        None => None::<TextAnimator>,
                    })
                })
            },
    {
        if !self.is_visible && self.visibility == VisibilityPhase::Hidden {
            return ;
        }
        self.elapsed_us = self.elapsed_us.saturating_add(delta_us);
        if self.elapsed_us < self.timing.delay {
            return ;
        }
        match self.visibility {
            VisibilityPhase::Hidden => {
                if self.timing.fade_in == 0 {
                    self.visibility = VisibilityPhase::Visible;
                    self.visible_since_us = self.elapsed_us;
                } else {
                    self.visibility = VisibilityPhase::FadingIn { progress_us: 0 };
                }
            },
            VisibilityPhase::FadingIn { progress_us } => {
                if delta_us >= self.timing.fade_in || progress_us >= self.timing.fade_in
                    - delta_us {
                    self.visibility = VisibilityPhase::Visible;
                    self.visible_since_us = self.elapsed_us;
                } else {
                    self.visibility = VisibilityPhase::FadingIn {
                        progress_us: progress_us + delta_us,
                    };
                }
            },
            VisibilityPhase::Visible => {
                match self.timing.duration {
                    Some(d) => {
                        if self.elapsed_us - self.visible_since_us >= d {
                            if self.timing.fade_out == 0 {
                                self.visibility = VisibilityPhase::Hidden;
                                self.is_visible = false;
                            } else {
                                self.visibility = VisibilityPhase::FadingOut { progress_us: 0 };
                            }
                        }
                    },
                    None => {},
                }
            },
            VisibilityPhase::FadingOut { progress_us } => {
                if delta_us >= self.timing.fade_out || progress_us >= self.timing.fade_out
                    - delta_us {
                    self.visibility = VisibilityPhase::Hidden;
                    self.is_visible = false;
                } else {
                    self.visibility = VisibilityPhase::FadingOut {
                        progress_us: progress_us + delta_us,
                    };
                }
            },
        }
        match &mut self.text_animator {
            Some(a) => {
                a.update(delta_us);
            },
            None => {},
        }
    }

    /// The current opacity in thousandths, decided by the visibility phase
    /// alone.
    pub fn opacity(&self) -> (r: u32)
        requires
            self.wf(),
        ensures
            r as nat == spec_opacity(self.spec_phase(), self.spec_timing()),
            r <= 1000,
    {
        match self.visibility {
            VisibilityPhase::Hidden => 0,
            VisibilityPhase::FadingIn { progress_us } => {
                proof {
                    crate::geom::lemma_mul_le(progress_us as nat, 1000, u64::MAX as nat, 1000);
                    assert(((progress_us as nat) * 1000) / (self.timing.fade_in as nat) < 1000)
                        by (nonlinear_arith)
                        requires
                            progress_us < self.timing.fade_in,
                            self.timing.fade_in > 0,
                    ;
                }
                let p: u128 = (progress_us as u128) * 1000 / (self.timing.fade_in as u128);
                p as u32
            },
            VisibilityPhase::Visible => 1000,
            VisibilityPhase::FadingOut { progress_us } => {
                proof {
                    crate::geom::lemma_mul_le(progress_us as nat, 1000, u64::MAX as nat, 1000);
                    assert(((progress_us as nat) * 1000) / (self.timing.fade_out as nat) < 1000)
                        by (nonlinear_arith)
                        requires
                            progress_us < self.timing.fade_out,
                            self.timing.fade_out > 0,
                    ;
                }
                let p: u128 = (progress_us as u128) * 1000 / (self.timing.fade_out as u128);
                1000 - (p as u32)
            },
        }
    }

    /// Whether the callout is engaged and showing anything at all.
    pub fn is_visible(&self) -> (r: bool)
        ensures
            r == (self.spec_is_visible() && self.spec_phase() != VisibilityPhase::Hidden),
    {
        self.is_visible && !(self.visibility == VisibilityPhase::Hidden)
    }

    /// Whether anything is still moving: a reveal in progress or a fade
    /// under way.
    pub fn is_animating(&self) -> (r: bool)
        ensures
            r == ((self.spec_animator() matches Some(a) && !a.spec_complete()) || self.spec_phase()
                matches VisibilityPhase::FadingIn { .. } || self.spec_phase()
                matches VisibilityPhase::FadingOut { .. }),
    {
        let text_animating = match &self.text_animator {
            Some(a) => !a.is_complete(),
            None => false,
        };
        let fade_animating = match self.visibility {
            VisibilityPhase::FadingIn { .. } => true,
            VisibilityPhase::FadingOut { .. } => true,
            _ => false,
        };
        text_animating || fade_animating
    }

    /// Whether the text reveal has finished; a callout that never showed
    /// text counts as finished.
    pub fn is_text_complete(&self) -> (r: bool)
        ensures
            r == (match self.spec_animator() {
                Some(a) => a.spec_complete(),
                None => true,
            }),
    {
        match &self.text_animator {
            Some(a) => a.is_complete(),
            None => true,
        }
    }

    /// Reveal the whole text at once.
    pub fn skip_animation(&mut self)
        requires
            old(self).wf(),
        ensures
            final(self).wf(),
            final(self).spec_type() == old(self).spec_type(),
            final(self).spec_timing() == old(self).spec_timing(),
            final(self).spec_animation() == old(self).spec_animation(),
            final(self).spec_phase() == old(self).spec_phase(),
            final(self).spec_elapsed() == old(self).spec_elapsed(),
            final(self).spec_is_visible() == old(self).spec_is_visible(),
            old(self).spec_animator() is None ==> final(self).spec_animator() is None,
            old(self).spec_animator() matches Some(a) ==> (final(self).spec_animator()
                matches Some(b) && b.spec_text() == a.spec_text() && b.spec_visible()
                == a.spec_text().len() && b.spec_complete()),
    {
        match &mut self.text_animator {
            Some(a) => {
                a.skip();
            },
            None => {},
        }
    }

    /// The revealed prefix of the shown text; empty when nothing was shown.
    pub fn visible_text(&self) -> (r: &str)
        requires
            self.wf(),
        ensures
            match self.spec_animator() {
                Some(a) => r@ == a.spec_text().subrange(0, a.spec_visible() as int),
                None => r@ == Seq::<char>::empty(),
            },
    {
        match &self.text_animator {
            Some(a) => a.visible_text(),
            None => {
                proof {
                    reveal_strlit("");
                    assert(""@ =~= Seq::<char>::empty());
                }
                ""
            },
        }
    }

    /// The bubble shape.
    pub fn callout_type(&self) -> (r: CalloutType)
        ensures
            r == self.spec_type(),
    {
        self.callout_type
    }

    /// The timing configuration.
    pub fn timing(&self) -> (r: CalloutTiming)
        ensures
            r == self.spec_timing(),
    {
        self.timing
    }
}

/// Whether the callout window must be redrawn this tick: when a command
/// arrived, when visibility flipped either way, or while anything is still
/// fading or revealing on screen.
pub fn callout_redraw_needed(
    had_commands: bool,
    was_visible: bool,
    is_visible: bool,
    is_animating: bool,
) -> (r: bool)
    ensures
        r == (had_commands || was_visible != is_visible || (is_visible && is_animating)),
{
    had_commands || was_visible != is_visible || (is_visible && is_animating)
}

/// Fading in is monotone: more progress never lowers the opacity, and one
/// more thousandth of the fade window strictly raises it.
pub proof fn lemma_fade_in_monotone(timing: CalloutTiming, p1: u64, p2: u64)
    requires
        timing.fade_in > 0,
        p1 <= p2 < timing.fade_in,
    ensures
        spec_opacity(VisibilityPhase::FadingIn { progress_us: p1 }, timing) <= spec_opacity(
            VisibilityPhase::FadingIn { progress_us: p2 },
            timing,
        ),
        (p2 - p1) * 1000 >= timing.fade_in ==> spec_opacity(
            VisibilityPhase::FadingIn { progress_us: p1 },
            timing,
        ) < spec_opacity(VisibilityPhase::FadingIn { progress_us: p2 }, timing),
{
    let f = timing.fade_in as int;
    vstd::arithmetic::div_mod::lemma_div_is_ordered(p1 as int * 1000, p2 as int * 1000, f);
    if (p2 - p1) * 1000 >= timing.fade_in {
        assert(p2 as int * 1000 >= p1 as int * 1000 + f);
        vstd::arithmetic::div_mod::lemma_div_is_ordered(
            p1 as int * 1000 + f,
            p2 as int * 1000,
            f,
        );
        vstd::arithmetic::div_mod::lemma_hoist_over_denominator(
            p1 as int * 1000,
            1,
            timing.fade_in as nat,
        );
        assert((p1 as int * 1000 + f) / f == p1 as int * 1000 / f + 1);
    }
}

/// Fading out is monotone the other way: more progress never raises the
/// opacity, and one more thousandth of the fade window strictly lowers it.
pub proof fn lemma_fade_out_monotone(timing: CalloutTiming, p1: u64, p2: u64)
    requires
        timing.fade_out > 0,
        p1 <= p2 < timing.fade_out,
    ensures
        spec_opacity(VisibilityPhase::FadingOut { progress_us: p2 }, timing) <= spec_opacity(
            VisibilityPhase::FadingOut { progress_us: p1 },
            timing,
        ),
        (p2 - p1) * 1000 >= timing.fade_out ==> spec_opacity(
            VisibilityPhase::FadingOut { progress_us: p2 },
            timing,
        ) < spec_opacity(VisibilityPhase::FadingOut { progress_us: p1 }, timing),
{
    let f = timing.fade_out as int;
    vstd::arithmetic::div_mod::lemma_div_is_ordered(p1 as int * 1000, p2 as int * 1000, f);
    assert(p1 as int * 1000 / f <= p2 as int * 1000 / f);
    vstd::arithmetic::div_mod::lemma_div_is_ordered(0, p1 as int * 1000, f);
    assert(((p2 as nat) * 1000) / (timing.fade_out as nat) < 1000) by (nonlinear_arith)
        requires
            p2 < timing.fade_out,
            timing.fade_out > 0,
    ;
    if (p2 - p1) * 1000 >= timing.fade_out {
        assert(p2 as int * 1000 >= p1 as int * 1000 + f);
        vstd::arithmetic::div_mod::lemma_div_is_ordered(
            p1 as int * 1000 + f,
            p2 as int * 1000,
            f,
        );
        vstd::arithmetic::div_mod::lemma_hoist_over_denominator(
            p1 as int * 1000,
            1,
            timing.fade_out as nat,
        );
        assert((p1 as int * 1000 + f) / f == p1 as int * 1000 / f + 1);
    }
}

} // verus!
