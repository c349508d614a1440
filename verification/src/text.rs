//! Progressive text reveal for callout bubbles.
//!
//! A [`TextAnimator`] exposes a growing prefix of its text as time passes,
//! paced by characters per second, words per second, or a streaming rate
//! that lingers on punctuation and hurries over spaces.  Time is measured in
//! whole microseconds.

use vstd::prelude::*;

verus! {

/// How revealed text is paced.
#[derive(Debug, Clone, Copy, PartialEq, Eq, Structural)]
pub enum TextAnimation {
    /// Show all text immediately.
    Instant,
    /// Reveal one character at a time at `cps` characters per second.
    Typewriter { cps: u32 },
    /// Reveal whole words at `wps` words per second.
    WordByWord { wps: u32 },
    /// Reveal characters at a variable pace around `cps`: half a character's
    /// time for whitespace, double for sentence punctuation.
    Stream { cps: u32 },
}

/// Whether `c` has the White_Space property, the set `char::is_whitespace`
/// goes by.
pub open spec fn is_space_char(c: char) -> bool {
    ||| c == ' '
    ||| c == '\t'
    ||| c == '\n'
    ||| c == '\r'
    ||| c as u32 == 0xb
    ||| c as u32 == 0xc
    ||| c as u32 == 0x85
    ||| c as u32 == 0xa0
    ||| c as u32 == 0x1680
    ||| (0x2000 <= c as u32 && c as u32 <= 0x200a)
    ||| c as u32 == 0x2028
    ||| c as u32 == 0x2029
    ||| c as u32 == 0x202f
    ||| c as u32 == 0x205f
    ||| c as u32 == 0x3000
}

/// Whether `c` is sentence punctuation that streaming lingers on.
pub open spec fn is_pause_char(c: char) -> bool {
    c == '.' || c == ',' || c == '!' || c == '?'
}

/// Whether `c` has the White_Space property.
pub fn is_space_char_exec(c: char) -> (r: bool)
    ensures
        r == is_space_char(c),
{
    let u = c as u32;
    u == 0x20 || u == 0x9 || u == 0xa || u == 0xd || u == 0xb || u == 0xc || u == 0x85 || u == 0xa0
        || u == 0x1680 || (0x2000 <= u && u <= 0x200a) || u == 0x2028 || u == 0x2029 || u == 0x202f
        || u == 0x205f || u == 0x3000
}

/// Whether `c` is sentence punctuation that streaming lingers on.
pub fn is_pause_char_exec(c: char) -> (r: bool)
    ensures
        r == is_pause_char(c),
{
    c == '.' || c == ',' || c == '!' || c == '?'
}

/// The word boundaries of `s` from position `i` on, with `in_word` saying
/// whether position `i` continues a word: for every maximal run of
/// non-whitespace, the character index one past its end.
pub open spec fn word_boundaries_from(s: Seq<char>, i: nat, in_word: bool) -> Seq<usize>
    decreases s.len() - i,
{
    if i >= s.len() {
        if in_word {
            seq![s.len() as usize]
        } else {
            seq![]
        }
    } else if is_space_char(s[i as int]) {
        if in_word {
            seq![i as usize] + word_boundaries_from(s, i + 1, false)
        } else {
            word_boundaries_from(s, i + 1, false)
        }
    } else {
        word_boundaries_from(s, i + 1, true)
    }
}

/// The word boundaries of `s`: for every word, the index one past its end.
pub open spec fn spec_word_boundaries(s: Seq<char>) -> Seq<usize> {
    word_boundaries_from(s, 0, false)
}

/// Every word boundary lies within the text, and past `i` when scanning
/// started there.
proof fn lemma_word_boundaries_bounds(s: Seq<char>, i: nat, in_word: bool)
    requires
        i <= s.len(),
        s.len() <= usize::MAX,
    ensures
        forall|k: int|
            0 <= k < word_boundaries_from(s, i, in_word).len() ==> i <= (
            #[trigger] word_boundaries_from(s, i, in_word)[k]) as nat <= s.len(),
    decreases s.len() - i,
{
    let whole = word_boundaries_from(s, i, in_word);
    if i >= s.len() {
        if in_word {
            assert(whole == seq![s.len() as usize]);
            assert forall|k: int|
                0 <= k < whole.len() implies i <= (#[trigger] whole[k]) as nat <= s.len() by {
                assert(whole[k] == s.len() as usize);
            }
        }
    } else {
        lemma_word_boundaries_bounds(s, i + 1, false);
        lemma_word_boundaries_bounds(s, i + 1, true);
        if is_space_char(s[i as int]) {
            if in_word {
                let rest = word_boundaries_from(s, i + 1, false);
                assert(whole == seq![i as usize] + rest);
                assert forall|k: int|
                    0 <= k < whole.len() implies i <= (#[trigger] whole[k]) as nat <= s.len() by {
                    if k == 0 {
                        assert(whole[0] == i as usize);
                    } else {
                        assert(whole[k] == rest[k - 1]);
                    }
                }
            } else {
                let rest = word_boundaries_from(s, i + 1, false);
                assert(whole == rest);
                assert forall|k: int|
                    0 <= k < whole.len() implies i <= (#[trigger] whole[k]) as nat <= s.len() by {
                    assert(whole[k] == rest[k]);
                }
            }
        } else {
            let rest = word_boundaries_from(s, i + 1, true);
            assert(whole == rest);
            assert forall|k: int|
                0 <= k < whole.len() implies i <= (#[trigger] whole[k]) as nat <= s.len() by {
                assert(whole[k] == rest[k]);
            }
        }
    }
}

/// The streaming time cost of one character, in units of half a character
/// period: whitespace passes in half a period, sentence punctuation takes
/// two periods, anything else one.
pub open spec fn stream_cost(c: char) -> nat {
    if is_space_char(c) {
        1
    } else if is_pause_char(c) {
        4
    } else {
        2
    }
}

/// How many leading characters of `s` a streaming budget covers, scanning
/// from position `i` with `used` cost units already spent.  The budget is in
/// `cost units * 1000000`, so a whole second at rate `cps` is worth
/// `2 * cps * 1000000`.
pub open spec fn stream_visible_from(s: Seq<char>, i: nat, used: nat, budget: nat) -> nat
    decreases s.len() - i,
{
    if i >= s.len() {
        i
    } else if (used + stream_cost(s[i as int])) * 1000000 <= budget {
        stream_visible_from(s, i + 1, used + stream_cost(s[i as int]), budget)
    } else {
        i
    }
}

/// How many leading characters of `s` are revealed after `elapsed_us`
/// microseconds of streaming at `cps` characters per second.
pub open spec fn spec_stream_visible(s: Seq<char>, cps: nat, elapsed_us: nat) -> nat {
    stream_visible_from(s, 0, 0, elapsed_us * (2 * cps))
}

/// The streaming scan never passes the end of the text.
proof fn lemma_stream_visible_bounds(s: Seq<char>, i: nat, used: nat, budget: nat)
    requires
        i <= s.len(),
    ensures
        i <= stream_visible_from(s, i, used, budget) <= s.len(),
    decreases s.len() - i,
{
    if i >= s.len() {
    } else if (used + stream_cost(s[i as int])) * 1000000 <= budget {
        lemma_stream_visible_bounds(s, i + 1, used + stream_cost(s[i as int]), budget);
    } else {
    }
}

/// How many leading characters a typewriter at `cps` characters per second
/// has revealed after `elapsed_us` microseconds, before clamping to the text
/// length.
pub open spec fn spec_typewriter_count(cps: nat, elapsed_us: nat) -> nat {
    (elapsed_us * cps) / 1000000
}

/// How many whole words a word-by-word reveal at `wps` words per second has
/// revealed after `elapsed_us` microseconds.
pub open spec fn spec_word_count(wps: nat, elapsed_us: nat) -> nat {
    (elapsed_us * wps) / 1000000
}

/// Progressive reveal state of one piece of text.
pub struct TextAnimator {
    full_text: String,
    total_chars: usize,
    visible_chars: usize,
    animation: TextAnimation,
    elapsed_us: u64,
    is_complete: bool,
    word_boundaries: Vec<usize>,
}

impl TextAnimator {
    /// The full text being revealed.
    pub closed spec fn spec_text(&self) -> Seq<char> {
        self.full_text@
    }

    /// How many leading characters are revealed.
    pub closed spec fn spec_visible(&self) -> nat {
        self.visible_chars as nat
    }

    /// The reveal pacing.
    pub closed spec fn spec_animation(&self) -> TextAnimation {
        self.animation
    }

    /// Microseconds of reveal time accumulated.
    pub closed spec fn spec_elapsed(&self) -> nat {
        self.elapsed_us as nat
    }

    /// Whether the whole text is revealed for good.
    pub closed spec fn spec_complete(&self) -> bool {
        self.is_complete
    }

    /// The cached word boundaries.
    pub closed spec fn spec_boundaries(&self) -> Seq<usize> {
        self.word_boundaries@
    }

    /// Validity: the cached counts and boundaries belong to the text, and no
    /// more than every character is visible.
    pub open spec fn wf(&self) -> bool {
        &&& self.spec_total() == self.spec_text().len()
        &&& self.spec_visible() <= self.spec_text().len()
        &&& self.spec_boundaries() == spec_word_boundaries(self.spec_text())
    }

    /// The cached total character count equals the text length.
    pub closed spec fn spec_total(&self) -> nat {
        self.total_chars as nat
    }

    /// Compute the word boundaries of `s`: the index one past the end of
    /// each word.
    fn compute_word_boundaries(s: &str) -> (r: Vec<usize>)
        ensures
            r@ == spec_word_boundaries(s@),
    {
        let n = s.unicode_len();
        let mut out: Vec<usize> = Vec::new();
        let mut in_word: bool = false;
        let mut i: usize = 0;
        while i < n
            invariant
                i <= n,
                n == s@.len(),
                out@ + word_boundaries_from(s@, i as nat, in_word) == spec_word_boundaries(s@),
            decreases n - i,
        {
            let c = s.get_char(i);
            if is_space_char_exec(c) {
                if in_word {
                    out.push(i);
                    in_word = false;
                }
            } else {
                in_word = true;
            }
            i += 1;
        }
        if in_word {
            out.push(n);
        }
        proof {
            assert(out@ =~= spec_word_boundaries(s@));
        }
        out
    }

    /// Start revealing `text` under `animation`: nothing is visible yet
    /// unless the pacing is instant, which reveals everything at once.
    pub fn new(text: &str, animation: TextAnimation) -> (r: TextAnimator)
        ensures
            r.wf(),
            r.spec_text() == text@,
            r.spec_animation() == animation,
            r.spec_elapsed() == 0,
            r.spec_visible() == (if animation is Instant {
                text@.len()
            } else {
                0
            }),
            r.spec_complete() == (animation is Instant),
    {
        let total = text.unicode_len();
        let boundaries = Self::compute_word_boundaries(text);
        let visible: usize = match animation {
            TextAnimation::Instant => total,
            _ => 0,
        };
        TextAnimator {
            full_text: text.to_owned(),
            total_chars: total,
            visible_chars: visible,
            animation,
            elapsed_us: 0,
            is_complete: matches!(animation, TextAnimation::Instant),
            word_boundaries: boundaries,
        }
    }

    /// The animator after `delta_us` more microseconds: elapsed time grows
    /// (saturating), and the visible prefix is recomputed under the pacing.
    /// A completed reveal never changes again.
    pub closed spec fn spec_updated(self, delta_us: u64) -> TextAnimator {
        if self.is_complete {
            self
        } else {
            let e: u64 = if self.elapsed_us + delta_us <= u64::MAX {
                (self.elapsed_us + delta_us) as u64
            } else {
                u64::MAX
            };
            let total = self.full_text@.len();
            let vis_comp: (nat, bool) = match self.animation {
                TextAnimation::Instant => (total, true),
                TextAnimation::Typewriter { cps } => {
                    let due = spec_typewriter_count(cps as nat, e as nat);
                    (
                        if due <= total {
                            due
                        } else {
                            total
                        },
                        due >= total,
                    )
                },
                TextAnimation::WordByWord { wps } => {
                    let words = spec_word_count(wps as nat, e as nat);
                    if words == 0 {
                        (0 as nat, false)
                    } else if words > self.word_boundaries@.len() {
                        (total, true)
                    } else {
                        (self.word_boundaries@[words - 1] as nat, false)
                    }
                },
                TextAnimation::Stream { cps } => {
                    let due = spec_stream_visible(self.full_text@, cps as nat, e as nat);
                    (
                        if due <= total {
                            due
                        } else {
                            total
                        },
                        due >= total,
                    )
                },
            };
            TextAnimator {
                elapsed_us: e,
                visible_chars: vis_comp.0 as usize,
                is_complete: vis_comp.1,
                ..self
            }
        }
    }

    /// Accumulate `delta_us` microseconds and recompute how much of the text
    /// is revealed under the pacing.  A completed reveal never changes again.
    pub fn update(&mut self, delta_us: u64)
        requires
            old(self).wf(),
        ensures
            final(self).wf(),
            *final(self) == old(self).spec_updated(delta_us),
            final(self).spec_text() == old(self).spec_text(),
            final(self).spec_animation() == old(self).spec_animation(),
            final(self).spec_boundaries() == old(self).spec_boundaries(),
            old(self).spec_complete() ==> *final(self) == *old(self),
            !old(self).spec_complete() ==> {
                let total = old(self).spec_text().len();
                let e = if old(self).spec_elapsed() + delta_us <= u64::MAX {
                    old(self).spec_elapsed() + delta_us
                } else {
                    u64::MAX as int
                };
                &&& final(self).spec_elapsed() == e
                &&& match old(self).spec_animation() {
                    TextAnimation::Instant => final(self).spec_visible() == total
                        && final(self).spec_complete(),
                    TextAnimation::Typewriter { cps } => {
                        let due = spec_typewriter_count(cps as nat, e as nat);
                        &&& final(self).spec_visible() == (if due <= total {
                            due
                        } else {
                            total
                        })
                        &&& final(self).spec_complete() == (due >= total)
                    },
                    TextAnimation::WordByWord { wps } => {
                        let words = spec_word_count(wps as nat, e as nat);
                        let bounds = old(self).spec_boundaries();
                        if words == 0 {
                            final(self).spec_visible() == 0 && !final(self).spec_complete()
                        } else if words > bounds.len() {
                            final(self).spec_visible() == total && final(self).spec_complete()
                        } else {
                            final(self).spec_visible() == bounds[words - 1] as nat
                                && !final(self).spec_complete()
                        }
                    },
                    TextAnimation::Stream { cps } => {
                        let due = spec_stream_visible(old(self).spec_text(), cps as nat, e as nat);
                        &&& final(self).spec_visible() == (if due <= total {
                            due
                        } else {
                            total
                        })
                        &&& final(self).spec_complete() == (due >= total)
                    },
                }
            },
    {
        if self.is_complete {
            return ;
        }
        self.elapsed_us = self.elapsed_us.saturating_add(delta_us);
        let total = self.total_chars;
        match self.animation {
            TextAnimation::Instant => {
                self.visible_chars = total;
                self.is_complete = true;
            },
            TextAnimation::Typewriter { cps } => {
                proof {
                    crate::geom::lemma_mul_le(
                        self.elapsed_us as nat,
                        cps as nat,
                        u64::MAX as nat,
                        u32::MAX as nat,
                    );
                }
                let due: u128 = (self.elapsed_us as u128) * (cps as u128) / 1000000;
                if due >= total as u128 {
                    self.visible_chars = total;
                    self.is_complete = true;
                } else {
                    self.visible_chars = due as usize;
                }
            },
            TextAnimation::WordByWord { wps } => {
                proof {
                    crate::geom::lemma_mul_le(
                        self.elapsed_us as nat,
                        wps as nat,
                        u64::MAX as nat,
                        u32::MAX as nat,
                    );
                }
                let words: u128 = (self.elapsed_us as u128) * (wps as u128) / 1000000;
                if words == 0 {
                    self.visible_chars = 0;
                } else if words > self.word_boundaries.len() as u128 {
                    self.visible_chars = total;
                    self.is_complete = true;
                } else {
                    let w: usize = (words - 1) as usize;
                    proof {
                        lemma_word_boundaries_bounds(self.full_text@, 0, false);
                    }
                    self.visible_chars = self.word_boundaries[w];
                }
            },
            TextAnimation::Stream { cps } => {
                proof {
                    crate::geom::lemma_mul_le(
                        self.elapsed_us as nat,
                        2 * (cps as nat),
                        u64::MAX as nat,
                        2 * (u32::MAX as nat),
                    );
                }
                let budget: u128 = (self.elapsed_us as u128) * (2 * (cps as u128));
                let n = total;
                let mut i: usize = 0;
                let mut used: u128 = 0;
                let mut over_budget: bool = false;
                while i < n && !over_budget
                    invariant
                        i <= n,
                        n as nat == self.full_text@.len(),
                        used <= 4 * (i as u128),
                        n <= usize::MAX,
                        over_budget ==> stream_visible_from(
                            self.full_text@,
                            i as nat,
                            used as nat,
                            budget as nat,
                        ) == i as nat,
                        stream_visible_from(self.full_text@, i as nat, used as nat, budget as nat)
                            == stream_visible_from(self.full_text@, 0, 0, budget as nat),
                    decreases n - i, (if over_budget { 0int } else { 1int }),
                {
                    let c = self.full_text.as_str().get_char(i);
                    let cost: u128 = if is_space_char_exec(c) {
                        1
                    } else if is_pause_char_exec(c) {
                        4
                    } else {
                        2
                    };
                    proof {
                        crate::geom::lemma_mul_le(
                            (used + cost) as nat,
                            1000000,
                            4 * (usize::MAX as nat) + 4,
                            1000000,
                        );
                    }
                    if (used + cost) * 1000000 <= budget {
                        used = used + cost;
                        i += 1;
                    } else {
                        over_budget = true;
                    }
                }
                proof {
                    lemma_stream_visible_bounds(self.full_text@, 0, 0, budget as nat);
                }
                self.visible_chars = i;
                if self.visible_chars >= total {
                    self.is_complete = true;
                }
            },
        }
    }

    /// The revealed prefix of the text.
    pub fn visible_text(&self) -> (r: &str)
        requires
            self.wf(),
        ensures
            r@ == self.spec_text().subrange(0, self.spec_visible() as int),
    {
        self.full_text.as_str().substring_char(0, self.visible_chars)
    }

    /// The full text, revealed or not.
    pub fn full_text(&self) -> (r: &str)
        ensures
            r@ == self.spec_text(),
    {
        self.full_text.as_str()
    }

    /// Whether the whole text is revealed for good.
    pub fn is_complete(&self) -> (r: bool)
        ensures
            r == self.spec_complete(),
    {
        self.is_complete
    }

    /// Start the reveal over from the beginning.
    pub fn reset(&mut self)
        requires
            old(self).wf(),
        ensures
            final(self).wf(),
            final(self).spec_text() == old(self).spec_text(),
            final(self).spec_animation() == old(self).spec_animation(),
            final(self).spec_boundaries() == old(self).spec_boundaries(),
            final(self).spec_elapsed() == 0,
            final(self).spec_visible() == (if old(self).spec_animation() is Instant {
                old(self).spec_text().len()
            } else {
                0
            }),
            final(self).spec_complete() == (old(self).spec_animation() is Instant),
    {
        self.elapsed_us = 0;
        self.visible_chars = match self.animation {
            TextAnimation::Instant => self.total_chars,
            _ => 0,
        };
        self.is_complete = matches!(self.animation, TextAnimation::Instant);
    }

    /// Replace the text and start the reveal over.
    pub fn set_text(&mut self, text: &str)
        requires
            old(self).wf(),
        ensures
            final(self).wf(),
            final(self).spec_text() == text@,
            final(self).spec_animation() == old(self).spec_animation(),
            final(self).spec_elapsed() == 0,
            final(self).spec_visible() == (if old(self).spec_animation() is Instant {
                text@.len()
            } else {
                0
            }),
            final(self).spec_complete() == (old(self).spec_animation() is Instant),
    {
        self.full_text = text.to_owned();
        self.total_chars = text.unicode_len();
        self.visible_chars = 0;
        self.word_boundaries = Self::compute_word_boundaries(text);
        self.reset();
    }

    /// Reveal everything at once and mark the reveal complete.
    pub fn skip(&mut self)
        requires
            old(self).wf(),
        ensures
            final(self).wf(),
            final(self).spec_text() == old(self).spec_text(),
            final(self).spec_animation() == old(self).spec_animation(),
            final(self).spec_elapsed() == old(self).spec_elapsed(),
            final(self).spec_visible() == old(self).spec_text().len(),
            final(self).spec_complete(),
    {
        self.visible_chars = self.total_chars;
        self.is_complete = true;
    }

    /// How much of the text is revealed, in thousandths; empty text counts
    /// as fully revealed.
    pub fn progress(&self) -> (r: u32)
        requires
            self.wf(),
        ensures
            self.spec_text().len() == 0 ==> r == 1000,
            self.spec_text().len() > 0 ==> r as nat == self.spec_visible() * 1000
                / self.spec_text().len(),
            r <= 1000,
    {
        if self.total_chars == 0 {
            1000
        } else {
            proof {
                assert(
                    (self.spec_visible() * 1000) / self.spec_text().len() <= 1000
                ) by (nonlinear_arith)
                    requires
                        self.spec_visible() <= self.spec_text().len(),
                        self.spec_text().len() > 0,
                ;
            }
            proof {
                crate::geom::lemma_mul_le(
                    self.visible_chars as nat,
                    1000,
                    usize::MAX as nat,
                    1000,
                );
            }
            let v: u128 = (self.visible_chars as u128) * 1000;
            (v / (self.total_chars as u128)) as u32
        }
    }
}

} // verus!
