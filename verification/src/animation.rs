//! Frame-sequence playback: a pure timing and index state machine.
//!
//! An [`Animation`] owns an ordered list of frames and advances a frame index
//! from elapsed wall-clock time, given as whole microseconds.  Time is
//! accumulated in units of `microseconds * fps`: one frame is worth a
//! million such units, so frame boundaries are exact for any whole-number
//! rate and no drift accumulates.

use vstd::prelude::*;
use crate::skin::SkinData;

verus! {

/// Microseconds in a second: one frame period is this many `µs * fps` units.
pub const UNITS_PER_FRAME: u64 = 1000000;

/// How a frame sequence advances past its last frame.
#[derive(Debug, Clone, Copy, PartialEq, Eq, Structural)]
pub enum PlayMode {
    /// Repeat from the first frame forever.
    Loop,
    /// Play once and stop at the last frame.
    Once,
    /// Play once, then show nothing at all.
    OnceAndHide,
    /// Bounce between the first and last frame.
    PingPong,
}

/// One frame step of the playback state `(index, forward, finished)` under
/// `mode` with `count` frames.  A sequence of one frame (or none) never
/// steps.
pub open spec fn step_playback(
    mode: PlayMode,
    count: nat,
    index: nat,
    forward: bool,
    finished: bool,
) -> (nat, bool, bool) {
    if count <= 1 {
        (index, forward, finished)
    } else {
        match mode {
            PlayMode::Loop => (((index + 1) as int % (count as int)) as nat, forward, finished),
            PlayMode::Once | PlayMode::OnceAndHide => {
                if index < count - 1 {
                    (index + 1, forward, finished)
                } else {
                    (index, forward, true)
                }
            },
            PlayMode::PingPong => {
                if forward {
                    if index + 1 >= count {
                        ((count - 2) as nat, false, finished)
                    } else {
                        (index + 1, true, finished)
                    }
                } else {
                    if index == 0 {
                        (1, true, finished)
                    } else {
                        ((index - 1) as nat, false, finished)
                    }
                }
            },
        }
    }
}

/// `n` successive frame steps of the playback state.
pub open spec fn run_playback(
    mode: PlayMode,
    count: nat,
    index: nat,
    forward: bool,
    finished: bool,
    n: nat,
) -> (nat, bool, bool)
    decreases n,
{
    if n == 0 {
        (index, forward, finished)
    } else {
        let prev = run_playback(mode, count, index, forward, finished, (n - 1) as nat);
        step_playback(mode, count, prev.0, prev.1, prev.2)
    }
}

/// A sequence of frames played at a fixed rate under a [`PlayMode`].
pub struct Animation {
    frames: Vec<SkinData>,
    fps: u32,
    play_mode: PlayMode,
    current_frame: usize,
    acc: u64,
    forward: bool,
    finished: bool,
}

impl Animation {
    /// The frames held, in playback order.
    pub closed spec fn spec_frames(&self) -> Seq<SkinData> {
        self.frames@
    }

    /// The number of frames.
    pub open spec fn spec_count(&self) -> nat {
        self.spec_frames().len()
    }

    /// Frames per second.
    pub closed spec fn spec_fps(&self) -> u32 {
        self.fps
    }

    /// The playback mode.
    pub closed spec fn spec_mode(&self) -> PlayMode {
        self.play_mode
    }

    /// The current frame index.
    pub closed spec fn spec_index(&self) -> nat {
        self.current_frame as nat
    }

    /// The time accumulator, in `µs * fps` units, always less than one frame.
    pub closed spec fn spec_acc(&self) -> nat {
        self.acc as nat
    }

    /// The ping-pong direction: `true` while stepping toward the last frame.
    pub closed spec fn spec_forward(&self) -> bool {
        self.forward
    }

    /// Whether a one-shot run has reached its end.
    pub closed spec fn spec_finished(&self) -> bool {
        self.finished
    }

    /// Validity: at least one frame, the index in bounds, and less than one
    /// frame period accumulated.
    pub open spec fn wf(&self) -> bool {
        &&& self.spec_count() >= 1
        &&& self.spec_index() < self.spec_count()
        &&& self.spec_acc() < UNITS_PER_FRAME
    }

    /// Build an animation over pre-loaded frames; refused when no frame is
    /// given, since an empty sequence has no frame to show.
    pub fn from_frames(frames: Vec<SkinData>, fps: u32) -> (r: Result<Animation, crate::skin::SkinError>)
        ensures
            match r {
                Ok(a) => frames@.len() > 0 && a.wf() && a.spec_frames() == frames@ && a.spec_fps()
                    == fps && a.spec_mode() == PlayMode::Loop && a.spec_index() == 0 && a.spec_acc()
                    == 0 && a.spec_forward() && !a.spec_finished(),
                Err(e) => frames@.len() == 0 && e is NotFound,
            },
    {
        if frames.len() == 0 {
            return Err(crate::skin::SkinError::NotFound(String::from_str("No frames provided")));
        }
        Ok(
            Animation {
                frames,
                fps,
                play_mode: PlayMode::Loop,
                current_frame: 0,
                acc: 0,
                forward: true,
                finished: false,
            },
        )
    }

    /// The animation state after accumulating `delta_us` microseconds and
    /// taking every frame step that became due.  A finished animation does
    /// not move.
    pub closed spec fn spec_advanced(self, delta_us: nat) -> Animation {
        if self.finished || self.spec_count() == 0 {
            self
        } else {
            let total = self.spec_acc() + delta_us * self.spec_fps();
            let t = run_playback(
                self.play_mode,
                self.spec_count(),
                self.spec_index(),
                self.forward,
                self.finished,
                ((total / (UNITS_PER_FRAME as int)) as nat),
            );
            Animation {
                frames: self.frames,
                fps: self.fps,
                play_mode: self.play_mode,
                current_frame: t.0 as usize,
                acc: (total % (UNITS_PER_FRAME as int)) as u64,
                forward: t.1,
                finished: t.2,
            }
        }
    }

    /// The animation rewound to its first frame: nothing accumulated,
    /// playing forward, not finished.  Frames, rate and mode are kept.
    pub closed spec fn spec_reset(self) -> Animation {
        Animation { current_frame: 0, acc: 0, forward: true, finished: false, ..self }
    }

    /// The animation with its play mode replaced and all else kept.
    pub closed spec fn spec_with_mode(self, mode: PlayMode) -> Animation {
        Animation { play_mode: mode, ..self }
    }

    /// Accumulate `delta_us` microseconds of elapsed time and step once per
    /// whole frame period that has become due.
    pub fn update(&mut self, delta_us: u32)
        requires
            old(self).wf(),
        ensures
            final(self).wf(),
            *final(self) == old(self).spec_advanced(delta_us as nat),
            final(self).spec_frames() == old(self).spec_frames(),
            final(self).spec_fps() == old(self).spec_fps(),
            final(self).spec_mode() == old(self).spec_mode(),
            old(self).spec_finished() ==> *final(self) == *old(self),
            !old(self).spec_finished() ==> {
                let total = old(self).spec_acc() + delta_us * old(self).spec_fps();
                let t = run_playback(
                    old(self).spec_mode(),
                    old(self).spec_count(),
                    old(self).spec_index(),
                    old(self).spec_forward(),
                    old(self).spec_finished(),
                    ((total / (UNITS_PER_FRAME as int)) as nat),
                );
                &&& final(self).spec_index() == t.0
                &&& final(self).spec_forward() == t.1
                &&& final(self).spec_finished() == t.2
                &&& final(self).spec_acc() == total % (UNITS_PER_FRAME as int)
            },
    {
        if self.finished {
            return;
        }
        proof {
            crate::geom::lemma_u32_mul_fits(delta_us as nat, self.fps as nat);
        }
        let ghost total = self.acc as nat + (delta_us as nat) * (self.fps as nat);
        let mut budget: u64 = self.acc + (delta_us as u64) * (self.fps as u64);
        let ghost steps_total = total / (UNITS_PER_FRAME as nat);
        let ghost k: nat = 0;
        while budget >= UNITS_PER_FRAME
            invariant
                self.wf(),
                self.frames == old(self).frames,
                self.fps == old(self).fps,
                self.play_mode == old(self).play_mode,
                budget as nat + k * (UNITS_PER_FRAME as nat) == total,
                (self.spec_index(), self.spec_forward(), self.spec_finished()) == run_playback(
                    old(self).spec_mode(),
                    old(self).spec_count(),
                    old(self).spec_index(),
                    old(self).spec_forward(),
                    old(self).spec_finished(),
                    k,
                ),
            decreases budget,
    {
            budget = budget - UNITS_PER_FRAME;
            self.step_frame();
            proof {
                k = k + 1;
            }
        }
        self.acc = budget;
        proof {
            vstd::arithmetic::div_mod::lemma_fundamental_div_mod_converse(
                total as int,
                UNITS_PER_FRAME as int,
                k as int,
                budget as int,
            );
            assert(k == total as int / (UNITS_PER_FRAME as int));
            assert(budget == total as int % (UNITS_PER_FRAME as int));
            assert(*self == old(self).spec_advanced(delta_us as nat));
        }
    }

    /// One frame step under the current play mode; a one-frame sequence
    /// never steps.
    fn step_frame(&mut self)
        requires
            old(self).wf(),
        ensures
            final(self).wf(),
            final(self).frames == old(self).frames,
            final(self).fps == old(self).fps,
            final(self).play_mode == old(self).play_mode,
            final(self).acc == old(self).acc,
            (final(self).spec_index(), final(self).spec_forward(), final(self).spec_finished())
                == step_playback(
                old(self).spec_mode(),
                old(self).spec_count(),
                old(self).spec_index(),
                old(self).spec_forward(),
                old(self).spec_finished(),
            ),
    {
        let count = self.frames.len();
        if count <= 1 {
            return;
        }
        match self.play_mode {
            PlayMode::Loop => {
                self.current_frame = (self.current_frame + 1) % count;
            },
            PlayMode::Once | PlayMode::OnceAndHide => {
                if self.current_frame < count - 1 {
                    self.current_frame = self.current_frame + 1;
                } else {
                    self.finished = true;
                }
            },
            PlayMode::PingPong => {
                if self.forward {
                    if self.current_frame + 1 >= count {
                        self.forward = false;
                        self.current_frame = count - 2;
                    } else {
                        self.current_frame = self.current_frame + 1;
                    }
                } else {
                    if self.current_frame == 0 {
                        self.forward = true;
                        self.current_frame = 1;
                    } else {
                        self.current_frame = self.current_frame - 1;
                    }
                }
            },
        }
    }

    /// The frame to show now: the current frame's data, or nothing once a
    /// play-once-and-hide run has finished.
    pub fn current_skin_data(&self) -> (r: Option<&SkinData>)
        requires
            self.wf(),
        ensures
            match r {
                Some(s) => !(self.spec_finished() && self.spec_mode() == PlayMode::OnceAndHide)
                    && *s == self.spec_frames()[self.spec_index() as int],
                None => self.spec_finished() && self.spec_mode() == PlayMode::OnceAndHide,
            },
    {
        if self.finished && self.play_mode == PlayMode::OnceAndHide {
            return None;
        }
        Some(&self.frames[self.current_frame])
    }

    /// Return to the first frame with nothing accumulated, playing forward,
    /// not finished.
    pub fn reset(&mut self)
        requires
            old(self).wf(),
        ensures
            final(self).wf(),
            *final(self) == old(self).spec_reset(),
            final(self).spec_frames() == old(self).spec_frames(),
            final(self).spec_fps() == old(self).spec_fps(),
            final(self).spec_mode() == old(self).spec_mode(),
            final(self).spec_index() == 0,
            final(self).spec_acc() == 0,
            final(self).spec_forward(),
            !final(self).spec_finished(),
    {
        self.current_frame = 0;
        self.acc = 0;
        self.forward = true;
        self.finished = false;
    }

    /// Whether a one-shot run has reached its end.
    pub fn is_finished(&self) -> (r: bool)
        ensures
            r == self.spec_finished(),
    {
        self.finished
    }

    /// The dimensions of the first frame, which all frames are expected to
    /// share.
    pub fn dimensions(&self) -> (r: Option<(u32, u32)>)
        ensures
            match r {
                Some(d) => self.spec_count() > 0 && d.0 == self.spec_frames()[0].spec_width() && d.1
                    == self.spec_frames()[0].spec_height(),
                None => self.spec_count() == 0,
            },
    {
        if self.frames.len() == 0 {
            return None;
        }
        Some(self.frames[0].dimensions())
    }

    /// The number of frames.
    pub fn frame_count(&self) -> (r: usize)
        ensures
            r == self.spec_count(),
    {
        self.frames.len()
    }

    /// The current frame index.
    pub fn current_frame_index(&self) -> (r: usize)
        ensures
            r == self.spec_index(),
    {
        self.current_frame
    }

    /// The playback mode.
    pub fn play_mode(&self) -> (r: PlayMode)
        ensures
            r == self.spec_mode(),
    {
        self.play_mode
    }

    /// Choose how the sequence advances past its last frame.
    pub fn set_play_mode(&mut self, mode: PlayMode)
        ensures
            final(self).wf() == old(self).wf(),
            *final(self) == old(self).spec_with_mode(mode),
            final(self).spec_frames() == old(self).spec_frames(),
            final(self).spec_fps() == old(self).spec_fps(),
            final(self).spec_mode() == mode,
            final(self).spec_index() == old(self).spec_index(),
            final(self).spec_acc() == old(self).spec_acc(),
            final(self).spec_forward() == old(self).spec_forward(),
            final(self).spec_finished() == old(self).spec_finished(),
    {
        self.play_mode = mode;
    }
}

/// In `Loop` mode, `n` steps move the index to `(index + n) mod count` and
/// touch nothing else.
pub proof fn lemma_loop_steps(count: nat, index: nat, forward: bool, finished: bool, n: nat)
    requires
        1 <= count,
        index < count,
        count > 1,
    ensures
        run_playback(PlayMode::Loop, count, index, forward, finished, n) == (
            (((index + n) as int % (count as int)) as nat),
            forward,
            finished,
        ),
    decreases n,
{
    if n == 0 {
        assert((index + 0) as int % (count as int) == index) by {
            vstd::arithmetic::div_mod::lemma_small_mod(index, count);
        };
    } else {
        lemma_loop_steps(count, index, forward, finished, (n - 1) as nat);
        let prev_i = ((index + (n - 1)) % (count as int)) as nat;
        assert(prev_i < count) by {
            vstd::arithmetic::div_mod::lemma_mod_bound((index + (n - 1)) as int, count as int);
        };
        assert((prev_i + 1) as int % (count as int) == (index + n) as int % (count as int)) by {
            vstd::arithmetic::div_mod::lemma_mod_adds(
                (index + (n - 1)) as int,
                1,
                count as int,
            );
            vstd::arithmetic::div_mod::lemma_mod_adds(
                prev_i as int,
                1,
                count as int,
            );
            vstd::arithmetic::div_mod::lemma_mod_twice((index + (n - 1)) as int, count as int);
        };
    }
}

/// Cyclic idempotence of `Loop` playback: advancing a looping sequence of
/// `count` frames by exactly `count` steps — one full cycle, that is by time
/// `count / fps` — returns the index to its starting value.
pub proof fn lemma_loop_full_cycle(count: nat, index: nat, forward: bool, finished: bool)
    requires
        1 <= count,
        index < count,
    ensures
        run_playback(PlayMode::Loop, count, index, forward, finished, count).0 == index,
{
    if count == 1 {
        assert(index == 0);
        let base = run_playback(PlayMode::Loop, 1, 0, forward, finished, 0);
        assert(base == (0 as nat, forward, finished));
        assert(run_playback(PlayMode::Loop, 1, 0, forward, finished, 1) == step_playback(
            PlayMode::Loop,
            1,
            base.0,
            base.1,
            base.2,
        ));
    } else {
        lemma_loop_steps(count, index, forward, finished, count);
        assert((index + count) as int % (count as int) == index) by {
            vstd::arithmetic::div_mod::lemma_mod_add_multiples_vanish(index as int, count as int);
            vstd::arithmetic::div_mod::lemma_small_mod(index, count);
        };
    }
}

/// A finished animation is frozen: accumulating any further time moves
/// nothing.
pub proof fn lemma_finished_animation_is_frozen(a: Animation, delta_us: nat)
    requires
        a.spec_finished(),
    ensures
        a.spec_advanced(delta_us) == a,
{
}

/// A play-once sequence that stands on its last frame finishes on the next
/// step and stays on that frame.
pub proof fn lemma_once_finishes_at_the_end(
    mode: PlayMode,
    count: nat,
    forward: bool,
    finished: bool,
)
    requires
        count >= 2,
        mode == PlayMode::Once || mode == PlayMode::OnceAndHide,
    ensures
        step_playback(mode, count, (count - 1) as nat, forward, finished) == (
            (count - 1) as nat,
            forward,
            true,
        ),
{
}

/// A ping-pong step always moves the index by exactly one frame and stays in
/// bounds: no frame is skipped and no endpoint is shown twice in a row.
pub proof fn lemma_pingpong_adjacent(count: nat, index: nat, forward: bool, finished: bool)
    requires
        count >= 2,
        index < count,
    ensures
        ({
            let s = step_playback(PlayMode::PingPong, count, index, forward, finished);
            &&& s.0 < count
            &&& (s.0 == index + 1 || s.0 + 1 == index)
            &&& s.2 == finished
        }),
{
}


/// A named animation state of a character.
#[derive(Debug, Clone, Copy, PartialEq, Eq, Hash, Structural)]
pub enum AnimationState {
    Idle,
    Talking,
    Thinking,
    Happy,
    Sad,
    Custom(u32),
}

/// The state a name denotes, matched without regard to ASCII case; unknown
/// names fall back to `Idle`.
pub open spec fn spec_animation_state_from_str(s: Seq<char>) -> AnimationState {
    let l = crate::strutil::lower_seq(s);
    if l == crate::strutil::lower_seq("idle"@) {
        AnimationState::Idle
    } else if l == crate::strutil::lower_seq("talking"@) || l == crate::strutil::lower_seq(
        "talk"@,
    ) {
        AnimationState::Talking
    } else if l == crate::strutil::lower_seq("thinking"@) || l == crate::strutil::lower_seq(
        "think"@,
    ) {
        AnimationState::Thinking
    } else if l == crate::strutil::lower_seq("happy"@) {
        AnimationState::Happy
    } else if l == crate::strutil::lower_seq("sad"@) {
        AnimationState::Sad
    } else {
        AnimationState::Idle
    }
}

impl AnimationState {
    /// Parse a state name, ignoring ASCII case; unknown names mean `Idle`.
    pub fn from_str(s: &str) -> (r: AnimationState)
        ensures
            r == spec_animation_state_from_str(s@),
    {
        if crate::strutil::eq_ignore_ascii(s, "idle") {
            AnimationState::Idle
        } else if crate::strutil::eq_ignore_ascii(s, "talking") || crate::strutil::eq_ignore_ascii(
            s,
            "talk",
        ) {
            AnimationState::Talking
        } else if crate::strutil::eq_ignore_ascii(s, "thinking") || crate::strutil::eq_ignore_ascii(
            s,
            "think",
        ) {
            AnimationState::Thinking
        } else if crate::strutil::eq_ignore_ascii(s, "happy") {
            AnimationState::Happy
        } else if crate::strutil::eq_ignore_ascii(s, "sad") {
            AnimationState::Sad
        } else {
            AnimationState::Idle
        }
    }
}

/// A skin with one animation per named state.  Switching states resets the
/// newly active animation; when a one-shot animation finishes, playback
/// returns to a configured default state.
pub struct AnimatedSkin {
    animations: Vec<(AnimationState, Animation)>,
    current_state: AnimationState,
    default_state: AnimationState,
}

impl AnimatedSkin {
    /// The registered `(state, animation)` pairs, in registration order.
    pub closed spec fn spec_entries(&self) -> Seq<(AnimationState, Animation)> {
        self.animations@
    }

    /// The state whose animation is playing.
    pub closed spec fn spec_current_state(&self) -> AnimationState {
        self.current_state
    }

    /// The state playback falls back to when a one-shot animation ends.
    pub closed spec fn spec_default_state(&self) -> AnimationState {
        self.default_state
    }

    /// Whether an animation is registered for `state`.
    pub open spec fn spec_has_state(&self, state: AnimationState) -> bool {
        exists|i: int|
            0 <= i < self.spec_entries().len() && (#[trigger] self.spec_entries()[i]).0 == state
    }

    /// Validity: no state is registered twice, and every animation is valid.
    pub open spec fn wf(&self) -> bool {
        &&& forall|i: int, j: int|
            0 <= i < j < self.spec_entries().len() ==> (#[trigger] self.spec_entries()[i]).0 != (
            #[trigger] self.spec_entries()[j]).0
        &&& forall|i: int|
            0 <= i < self.spec_entries().len() ==> (#[trigger] self.spec_entries()[i]).1.wf()
    }

    /// An empty skin, idle by default.
    pub fn new() -> (r: AnimatedSkin)
        ensures
            r.wf(),
            r.spec_entries().len() == 0,
            r.spec_current_state() == AnimationState::Idle,
            r.spec_default_state() == AnimationState::Idle,
    {
        AnimatedSkin {
            animations: Vec::new(),
            current_state: AnimationState::Idle,
            default_state: AnimationState::Idle,
        }
    }

    /// The position of the animation registered for `state`, if any.
    fn find_index(&self, state: AnimationState) -> (r: Option<usize>)
        ensures
            match r {
                Some(i) => i < self.spec_entries().len() && self.spec_entries()[i as int].0
                    == state,
                None => !self.spec_has_state(state),
            },
    {
        let mut i: usize = 0;
        while i < self.animations.len()
            invariant
                i <= self.spec_entries().len(),
                forall|j: int| 0 <= j < i ==> (#[trigger] self.spec_entries()[j]).0 != state,
            decreases self.spec_entries().len() - i,
        {
            let pair = &self.animations[i];
            if pair.0 == state {
                return Some(i);
            }
            i += 1;
        }
        None
    }

    /// Register `animation` under `state`, replacing what that state held.
    pub fn add_animation(&mut self, state: AnimationState, animation: Animation)
        requires
            old(self).wf(),
            animation.wf(),
        ensures
            final(self).wf(),
            final(self).spec_current_state() == old(self).spec_current_state(),
            final(self).spec_default_state() == old(self).spec_default_state(),
            final(self).spec_has_state(state),
            // an already registered state keeps its position, a new one is
            // appended; every other entry is untouched
            old(self).spec_has_state(state) ==> final(self).spec_entries().len() == old(
                self,
            ).spec_entries().len(),
            !old(self).spec_has_state(state) ==> final(self).spec_entries() == old(
                self,
            ).spec_entries().push((state, animation)),
            forall|i: int|
                0 <= i < old(self).spec_entries().len() && (#[trigger] old(self).spec_entries()[
                i]).0 != state ==> final(self).spec_entries()[i] == old(self).spec_entries()[i],
            forall|i: int|
                0 <= i < old(self).spec_entries().len() && (#[trigger] old(self).spec_entries()[
                i]).0 == state ==> final(self).spec_entries()[i] == (state, animation),
    {
        match self.find_index(state) {
            Some(i) => {
                let ghost pre = self.animations@;
                let _ = self.animations.remove(i);
                self.animations.insert(i, (state, animation));
                proof {
                    assert(self.animations@ =~= pre.update(i as int, (state, animation)));
                    assert((self.spec_entries()[i as int]).0 == state);
                }
            },
            None => {
                let ghost n = self.animations@.len();
                self.animations.push((state, animation));
                proof {
                    assert((self.spec_entries()[n as int]).0 == state);
                }
            },
        }
    }

    /// What the animation registered for `state` becomes when playback
    /// switches to it: rewound to its first frame.
    pub open spec fn spec_rewound(a: Animation) -> Animation {
        a.spec_reset()
    }

    /// A rewound animation set to play through one single run.
    pub open spec fn spec_rewound_once(a: Animation) -> Animation {
        a.spec_reset().spec_with_mode(PlayMode::Once)
    }

    /// Switch playback to `state`: the animation registered for it restarts
    /// from its first frame.  A switch to the state already playing, or to a
    /// state with no animation, changes nothing.
    pub fn set_state(&mut self, state: AnimationState)
        requires
            old(self).wf(),
        ensures
            final(self).wf(),
            final(self).spec_default_state() == old(self).spec_default_state(),
            !(old(self).spec_current_state() != state && old(self).spec_has_state(state))
                ==> *final(self) == *old(self),
            old(self).spec_current_state() != state && old(self).spec_has_state(state) ==> {
                &&& final(self).spec_current_state() == state
                &&& final(self).spec_entries().len() == old(self).spec_entries().len()
                &&& forall|i: int|
                    0 <= i < old(self).spec_entries().len() && (#[trigger] old(
                        self,
                    ).spec_entries()[i]).0 != state ==> final(self).spec_entries()[i] == old(
                        self,
                    ).spec_entries()[i]
                &&& forall|i: int|
                    0 <= i < old(self).spec_entries().len() && (#[trigger] old(
                        self,
                    ).spec_entries()[i]).0 == state ==> final(self).spec_entries()[i] == (
                    state,
                    Self::spec_rewound(old(self).spec_entries()[i].1),
                    )
            },
    {
        if self.current_state != state {
            match self.find_index(state) {
                Some(i) => {
                    let ghost pre = self.animations@;
                    let mut entry = self.animations.remove(i);
                    entry.1.reset();
                    let ghost e = entry;
                    self.animations.insert(i, entry);
                    self.current_state = state;
                    proof {
                        assert(self.animations@ =~= pre.update(i as int, e));
                        assert(e.1 == Self::spec_rewound(pre[i as int].1));
                    }
                },
                None => {},
            }
        }
    }

    /// Advance the animation of the current state by `delta_us` microseconds;
    /// when a one-shot run has finished, switch back to the default state.
    pub fn update(&mut self, delta_us: u32)
        requires
            old(self).wf(),
        ensures
            final(self).wf(),
            final(self).spec_default_state() == old(self).spec_default_state(),
            !old(self).spec_has_state(old(self).spec_current_state())
                ==> *final(self) == *old(self),
            old(self).spec_has_state(old(self).spec_current_state()) ==> {
                &&& final(self).spec_entries().len() == old(self).spec_entries().len()
                &&& forall|i: int|
                    0 <= i < old(self).spec_entries().len() && (#[trigger] old(
                        self,
                    ).spec_entries()[i]).0 == old(self).spec_current_state() ==> {
                        let adv = old(self).spec_entries()[i].1.spec_advanced(delta_us as nat);
                        let switching = adv.spec_finished() && adv.spec_mode() != PlayMode::Loop
                            && old(self).spec_default_state() != old(self).spec_current_state()
                            && old(self).spec_has_state(old(self).spec_default_state());
                        &&& final(self).spec_entries()[i].1 == adv
                        &&& final(self).spec_entries()[i].0 == old(self).spec_entries()[i].0
                        &&& final(self).spec_current_state() == (if switching {
                            old(self).spec_default_state()
                        } else {
                            old(self).spec_current_state()
                        })
                        &&& (!switching ==> forall|j: int|
                            0 <= j < old(self).spec_entries().len() && j != i
                                ==> #[trigger] final(self).spec_entries()[j] == old(
                                self,
                            ).spec_entries()[j])
                        &&& (switching ==> forall|j: int|
                            0 <= j < old(self).spec_entries().len() && j != i ==> {
                                &&& (#[trigger] old(self).spec_entries()[j]).0 != old(
                                    self,
                                ).spec_default_state() ==> final(self).spec_entries()[j] == old(
                                    self,
                                ).spec_entries()[j]
                                &&& old(self).spec_entries()[j].0 == old(
                                    self,
                                ).spec_default_state() ==> final(self).spec_entries()[j] == (
                                old(self).spec_entries()[j].0,
                                Self::spec_rewound(old(self).spec_entries()[j].1),
                                )
                            })
                    }
            },
    {
        let idx = match self.find_index(self.current_state) {
            None => {
                return ;
            },
            Some(i) => i,
        };
        let ghost pre = self.animations@;
        let ghost cur = self.current_state;
        let mut entry = self.animations.remove(idx);
        entry.1.update(delta_us);
        let fin = entry.1.is_finished();
        let mode = entry.1.play_mode();
        let ghost e = entry;
        self.animations.insert(idx, entry);
        proof {
            assert(self.animations@ =~= pre.update(idx as int, e));
            assert(e.0 == pre[idx as int].0);
            assert forall|a: int, b: int|
                0 <= a < b < self.animations@.len() implies (#[trigger] self.animations@[a]).0 != (
            #[trigger] self.animations@[b]).0 by {
                assert(self.animations@[a].0 == pre[a].0);
                assert(self.animations@[b].0 == pre[b].0);
                assert(pre[a].0 != pre[b].0);
            }
            assert(self.wf());
        }
        let ghost mid = *self;
        if fin && !(mode == PlayMode::Loop) {
            let default_state = self.default_state;
            proof {
                let d = default_state;
                if mid.spec_has_state(d) {
                    let w = choose|w: int|
                        0 <= w < mid.spec_entries().len() && (#[trigger] mid.spec_entries()[w]).0
                            == d;
                    assert(old(self).spec_entries()[w].0 == d);
                    assert(old(self).spec_has_state(d));
                }
                if old(self).spec_has_state(d) {
                    let w = choose|w: int|
                        0 <= w < old(self).spec_entries().len() && (#[trigger] old(
                            self,
                        ).spec_entries()[w]).0 == d;
                    assert(mid.spec_entries()[w].0 == d);
                    assert(mid.spec_has_state(d));
                }
            }
            self.set_state(default_state);
        }
        proof {
            let oldv = old(self).spec_entries();
            let def = old(self).spec_default_state();
            let adv = oldv[idx as int].1.spec_advanced(delta_us as nat);
            let switching = adv.spec_finished() && adv.spec_mode() != PlayMode::Loop && def != cur
                && old(self).spec_has_state(def);
            assert forall|i: int|
                0 <= i < oldv.len() && (#[trigger] oldv[i]).0 == cur implies i == idx as int by {
                if i != idx as int {
                    if i < idx as int {
                        assert(oldv[i].0 != oldv[idx as int].0);
                    } else {
                        assert(oldv[idx as int].0 != oldv[i].0);
                    }
                }
            }
            assert(e.1 == adv);
            assert(mid.spec_entries() == pre.update(idx as int, e));
            if switching {
                assert(mid.spec_has_state(def));
                assert(self.spec_current_state() == def);
                assert(self.spec_entries()[idx as int] == mid.spec_entries()[idx as int]);
                assert(self.spec_entries()[idx as int].1 == adv);
                assert forall|j: int| 0 <= j < oldv.len() && j != idx as int implies {
                    &&& ((#[trigger] oldv[j]).0 != def ==> self.spec_entries()[j] == oldv[j])
                    &&& (oldv[j].0 == def ==> self.spec_entries()[j] == (
                        oldv[j].0,
                        Animation::spec_reset(oldv[j].1),
                    ))
                } by {
                    assert(mid.spec_entries()[j] == oldv[j]);
                }
            } else {
                if fin && !(mode == PlayMode::Loop) {
                    // the fallback switch was a no-op: the default state is
                    // the current one, or it has no animation
                    assert(*self == mid);
                }
                assert(self.spec_current_state() == cur);
                assert(self.spec_entries()[idx as int].1 == adv);
                assert forall|j: int|
                    0 <= j < oldv.len() && j != idx as int
                        implies #[trigger] self.spec_entries()[j] == oldv[j] by {
                    assert(mid.spec_entries()[j] == oldv[j]);
                }
            }
        }
    }

    /// The frame to show now: the current state's current frame, or nothing
    /// when no animation is registered for it or its one-shot hide-on-end
    /// run has finished.
    pub fn current_skin_data(&self) -> (r: Option<&SkinData>)
        requires
            self.wf(),
        ensures
            !self.spec_has_state(self.spec_current_state()) ==> r is None,
            forall|i: int|
                0 <= i < self.spec_entries().len() && (#[trigger] self.spec_entries()[i]).0
                    == self.spec_current_state() ==> {
                    let a = self.spec_entries()[i].1;
                    if a.spec_finished() && a.spec_mode() == PlayMode::OnceAndHide {
                        r is None
                    } else {
                        r matches Some(s) && *s == a.spec_frames()[a.spec_index() as int]
                    }
                },
    {
        match self.find_index(self.current_state) {
            None => None,
            Some(i) => self.animations[i].1.current_skin_data(),
        }
    }

    /// The state whose animation is playing.
    pub fn current_state(&self) -> (r: AnimationState)
        ensures
            r == self.spec_current_state(),
    {
        self.current_state
    }

    /// Choose the state playback falls back to when a one-shot animation
    /// ends; ignored unless an animation is registered for it.
    pub fn set_default_state(&mut self, state: AnimationState)
        requires
            old(self).wf(),
        ensures
            final(self).wf(),
            final(self).spec_entries() == old(self).spec_entries(),
            final(self).spec_current_state() == old(self).spec_current_state(),
            final(self).spec_default_state() == (if old(self).spec_has_state(state) {
                state
            } else {
                old(self).spec_default_state()
            }),
    {
        match self.find_index(state) {
            Some(_) => {
                self.default_state = state;
            },
            None => {},
        }
    }

    /// The dimensions of the current state's frames, if it has an animation.
    pub fn dimensions(&self) -> (r: Option<(u32, u32)>)
        requires
            self.wf(),
        ensures
            !self.spec_has_state(self.spec_current_state()) ==> r is None,
            forall|i: int|
                0 <= i < self.spec_entries().len() && (#[trigger] self.spec_entries()[i]).0
                    == self.spec_current_state() ==> (r matches Some(d) && d.0
                    == self.spec_entries()[i].1.spec_frames()[0].spec_width() && d.1
                    == self.spec_entries()[i].1.spec_frames()[0].spec_height()),
    {
        match self.find_index(self.current_state) {
            None => None,
            Some(i) => self.animations[i].1.dimensions(),
        }
    }

    /// Whether an animation is registered for `state`.
    pub fn has_state(&self, state: AnimationState) -> (r: bool)
        ensures
            r == self.spec_has_state(state),
    {
        match self.find_index(state) {
            Some(_) => true,
            None => false,
        }
    }

    /// The states that have an animation, in registration order.
    pub fn available_states(&self) -> (r: Vec<AnimationState>)
        ensures
            r@.len() == self.spec_entries().len(),
            forall|i: int| 0 <= i < r@.len() ==> r@[i] == (#[trigger] self.spec_entries()[i]).0,
    {
        let mut out: Vec<AnimationState> = Vec::new();
        let mut i: usize = 0;
        while i < self.animations.len()
            invariant
                i <= self.spec_entries().len(),
                out@.len() == i,
                forall|j: int| 0 <= j < i ==> out@[j] == (#[trigger] self.spec_entries()[j]).0,
            decreases self.spec_entries().len() - i,
        {
            let pair = &self.animations[i];
            out.push(pair.0);
            i += 1;
        }
        out
    }

    /// Play the animation of `state` once from its beginning, then fall back
    /// to the default state when it ends.
    pub fn play_once(&mut self, state: AnimationState)
        requires
            old(self).wf(),
        ensures
            final(self).wf(),
            final(self).spec_default_state() == old(self).spec_default_state(),
            !old(self).spec_has_state(state) ==> *final(self) == *old(self),
            old(self).spec_has_state(state) ==> {
                &&& final(self).spec_current_state() == state
                &&& final(self).spec_entries().len() == old(self).spec_entries().len()
                &&& forall|i: int|
                    0 <= i < old(self).spec_entries().len() && (#[trigger] old(
                        self,
                    ).spec_entries()[i]).0 != state ==> final(self).spec_entries()[i] == old(
                        self,
                    ).spec_entries()[i]
                &&& forall|i: int|
                    0 <= i < old(self).spec_entries().len() && (#[trigger] old(
                        self,
                    ).spec_entries()[i]).0 == state ==> {
                        let a = old(self).spec_entries()[i].1;
                        final(self).spec_entries()[i] == (state, Self::spec_rewound_once(a))
                    }
            },
    {
        match self.find_index(state) {
            Some(i) => {
                let ghost pre = self.animations@;
                let mut entry = self.animations.remove(i);
                entry.1.reset();
                entry.1.set_play_mode(PlayMode::Once);
                let ghost e = entry;
                self.animations.insert(i, entry);
                self.current_state = state;
                proof {
                    assert(self.animations@ =~= pre.update(i as int, e));
                }
            },
            None => {},
        }
    }
}

} // verus!
