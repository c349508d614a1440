//! Per-window presentation state: opacity, focus, click-through and size
//! clamping.
//!
//! Each native window owns one [`PresentationState`].  Event handlers feed
//! it focus changes, cursor positions and resize requests; it answers with
//! the window's current opacity, whether clicks should pass through the
//! pixel under the cursor, and the corrected size a resize must settle on.
//! The native calls themselves (setting click-through, issuing a corrective
//! resize) are the caller's to make; this type only decides them.

use vstd::prelude::*;
use vstd::math::{abs, max};
use crate::geom::{clamp_to_max_size, round_div, spec_clamp_to_max_size, MAX_TEXTURE_SIZE};
use crate::mask::{spec_hit_scaled, AlphaMask};

verus! {

/// Per-window presentation configuration.  Opacities are in thousandths;
/// the alpha threshold tells solid sprite pixels (alpha strictly above it)
/// from transparent ones.
#[derive(Debug, Clone)]
pub struct PresentationConfig {
    /// Requested width in pixels.
    pub width: u32,
    /// Requested height in pixels.
    pub height: u32,
    /// Whether the window stays above all others.
    pub always_on_top: bool,
    /// Whether every click passes through the window.
    pub click_through: bool,
    /// Whether the window can be dragged.
    pub draggable: bool,
    /// Window title.
    pub title: String,
    /// Opacity while focused, in thousandths.
    pub opacity_focused: u32,
    /// Opacity while unfocused, in thousandths.
    pub opacity_unfocused: u32,
    /// Whether resizes keep the window's original aspect ratio.
    pub maintain_aspect_ratio: bool,
    /// Whether clicks on transparent sprite pixels pass through.
    pub alpha_hit_test: bool,
    /// Sprite pixels with alpha at or below this are transparent.
    pub alpha_threshold: u8,
    /// Whether focus changes the window's opacity.
    pub focus_opacity_enabled: bool,
}

impl Default for PresentationConfig {
    /// A draggable, always-on-top 200 x 200 window with pixel-accurate
    /// click-through and focus-driven opacity.
    fn default() -> (r: PresentationConfig)
        ensures
            r.width == 200 && r.height == 200,
            r.always_on_top && !r.click_through && r.draggable,
            r.opacity_focused == 1000 && r.opacity_unfocused == 500,
            r.maintain_aspect_ratio && r.alpha_hit_test && r.alpha_threshold == 10,
            r.focus_opacity_enabled,
    {
        PresentationConfig {
            width: 200,
            height: 200,
            always_on_top: true,
            click_through: false,
            draggable: true,
            title: String::from_str("Ghost"),
            opacity_focused: 1000,
            opacity_unfocused: 500,
            maintain_aspect_ratio: true,
            alpha_hit_test: true,
            alpha_threshold: 10,
            focus_opacity_enabled: true,
        }
    }
}

/// What a resize request settles on: the size the window must take, and
/// whether that differs from the cleanly clamped request so that a
/// corrective native resize must be issued to keep the aspect ratio.
#[derive(Debug, Clone, Copy, PartialEq, Eq, Structural)]
pub struct ResizeOutcome {
    /// The final width and height.
    pub width: u32,
    /// The final height.
    pub height: u32,
    /// Whether the aspect-ratio correction changed the clamped request, so
    /// the window itself must be re-sized to match.
    pub corrective: bool,
}

/// A proportionally scaled dimension: `a * b / d` rounded to the nearest
/// pixel, clipped to the `u32` range, and at least one pixel.
pub open spec fn spec_scaled_dim(a: nat, b: nat, d: nat) -> nat
    recommends
        d > 0,
{
    let q = round_div(a * b, d);
    let clipped = if q > u32::MAX {
        u32::MAX as nat
    } else {
        q
    };
    if clipped == 0 {
        1
    } else {
        clipped
    }
}

/// The state of one window's opacity, focus, click-through and size.
pub struct PresentationState {
    config: PresentationConfig,
    aspect_w: u32,
    aspect_h: u32,
    last_size: (u32, u32),
    cursor: Option<(u32, u32)>,
    mask: Option<AlphaMask>,
    is_focused: bool,
    current_opacity: u32,
}

impl PresentationState {
    /// The configuration.
    pub closed spec fn spec_config(&self) -> PresentationConfig {
        self.config
    }

    /// The aspect ratio fixed at creation, as a width / height pixel pair.
    pub closed spec fn spec_aspect(&self) -> (u32, u32) {
        (self.aspect_w, self.aspect_h)
    }

    /// The last accepted window size.
    pub closed spec fn spec_last_size(&self) -> (u32, u32) {
        self.last_size
    }

    /// The last known cursor position, in window pixels.
    pub closed spec fn spec_cursor(&self) -> Option<(u32, u32)> {
        self.cursor
    }

    /// The alpha mask of the loaded sprite, if one is loaded.
    pub closed spec fn spec_mask(&self) -> Option<AlphaMask> {
        self.mask
    }

    /// Whether the window has the focus.
    pub closed spec fn spec_focused(&self) -> bool {
        self.is_focused
    }

    /// The current opacity, in thousandths.
    pub closed spec fn spec_opacity(&self) -> u32 {
        self.current_opacity
    }

    /// Validity: a positive aspect ratio and a valid mask.
    pub open spec fn wf(&self) -> bool {
        &&& self.spec_aspect().0 > 0
        &&& self.spec_aspect().1 > 0
        &&& match self.spec_mask() {
            Some(m) => m.wf(),
            None => true,
        }
    }

    /// The opacity the focus state dictates: the focused or unfocused
    /// configured value when focus-driven opacity is on.
    pub open spec fn spec_focus_opacity(config: PresentationConfig, focused: bool) -> u32 {
        if focused {
            config.opacity_focused
        } else {
            config.opacity_unfocused
        }
    }

    /// Build the state for a window requested at the configured size: the
    /// size is clamped to the texture ceiling, and the clamped size fixes
    /// the aspect ratio for all later resizes.  Zero-sized axes count one
    /// pixel toward the ratio.  The window starts unfocused.
    pub fn new(config: PresentationConfig) -> (r: PresentationState)
        requires
            config.width > 0,
            config.height > 0,
        ensures
            r.wf(),
            r.spec_config() == config,
            r.spec_last_size().0 as nat == spec_clamp_to_max_size(
                config.width as nat,
                config.height as nat,
                MAX_TEXTURE_SIZE as nat,
            ).0,
            r.spec_last_size().1 as nat == spec_clamp_to_max_size(
                config.width as nat,
                config.height as nat,
                MAX_TEXTURE_SIZE as nat,
            ).1,
            r.spec_aspect().0 as nat == max(1, r.spec_last_size().0 as int) as nat,
            r.spec_aspect().1 as nat == max(1, r.spec_last_size().1 as int) as nat,
            r.spec_cursor() is None,
            r.spec_mask() is None,
            !r.spec_focused(),
            r.spec_opacity() == (if config.focus_opacity_enabled {
                config.opacity_unfocused
            } else {
                config.opacity_focused
            }),
    {
        let (cw, ch) = clamp_to_max_size(config.width, config.height, MAX_TEXTURE_SIZE);
        let aspect_w = if cw == 0 {
            1
        } else {
            cw
        };
        let aspect_h = if ch == 0 {
            1
        } else {
            ch
        };
        let current_opacity = if config.focus_opacity_enabled {
            config.opacity_unfocused
        } else {
            config.opacity_focused
        };
        PresentationState {
            config,
            aspect_w,
            aspect_h,
            last_size: (cw, ch),
            cursor: None,
            mask: None,
            is_focused: false,
            current_opacity,
        }
    }

    /// Load the sprite's alpha mask used for pixel-accurate hit-testing.
    pub fn set_mask(&mut self, mask: AlphaMask)
        requires
            old(self).wf(),
            mask.wf(),
        ensures
            final(self).wf(),
            final(self).spec_mask() matches Some(m) && m == mask,
            final(self).spec_config() == old(self).spec_config(),
            final(self).spec_aspect() == old(self).spec_aspect(),
            final(self).spec_last_size() == old(self).spec_last_size(),
            final(self).spec_cursor() == old(self).spec_cursor(),
            final(self).spec_focused() == old(self).spec_focused(),
            final(self).spec_opacity() == old(self).spec_opacity(),
    {
        self.mask = Some(mask);
    }

    /// Drop the sprite's alpha mask; the window then counts as fully solid.
    pub fn clear_mask(&mut self)
        requires
            old(self).wf(),
        ensures
            final(self).wf(),
            final(self).spec_mask() is None,
            final(self).spec_config() == old(self).spec_config(),
            final(self).spec_aspect() == old(self).spec_aspect(),
            final(self).spec_last_size() == old(self).spec_last_size(),
            final(self).spec_cursor() == old(self).spec_cursor(),
            final(self).spec_focused() == old(self).spec_focused(),
            final(self).spec_opacity() == old(self).spec_opacity(),
    {
        self.mask = None;
    }

    /// Whether the cursor rests on a solid sprite pixel: its position is
    /// scaled from window pixels into sprite pixels and looked up in the
    /// mask.  No cursor or a degenerate window means transparent; no mask
    /// means solid.
    pub open spec fn spec_hit_at_cursor(&self) -> bool {
        match self.spec_cursor() {
            None => false,
            Some(c) => match self.spec_mask() {
                None => true,
                Some(m) => spec_hit_scaled(
                    m.spec_alpha(),
                    m.spec_width() as nat,
                    m.spec_height() as nat,
                    c.0 as nat,
                    c.1 as nat,
                    self.spec_last_size().0 as nat,
                    self.spec_last_size().1 as nat,
                    self.spec_config().alpha_threshold,
                ),
            },
        }
    }

    /// Whether the cursor rests on a solid sprite pixel.
    fn hit_test_at_cursor(&self) -> (r: bool)
        requires
            self.wf(),
        ensures
            r == self.spec_hit_at_cursor(),
    {
        match self.cursor {
            None => false,
            Some(c) => match &self.mask {
                None => true,
                Some(m) => m.hit_test_scaled(
                    c.0,
                    c.1,
                    self.last_size.0,
                    self.last_size.1,
                    self.config.alpha_threshold,
                ),
            },
        }
    }

    /// Whether the native click-through flag is under pixel-accurate
    /// control: the per-pixel test runs only when it is enabled and the
    /// window is not globally click-through.
    pub open spec fn spec_alpha_controlled(&self) -> bool {
        self.spec_config().alpha_hit_test && !self.spec_config().click_through
    }

    /// Take a focus change.  When focus drives opacity, the opacity flips
    /// to the configured value.  The returned flag, if any, must be applied
    /// to the native click-through state: an unfocused window always
    /// accepts clicks (so the user can focus it again), a focused one
    /// passes clicks through exactly where the sprite is transparent.
    pub fn handle_focus(&mut self, focused: bool) -> (r: Option<bool>)
        requires
            old(self).wf(),
        ensures
            final(self).wf(),
            final(self).spec_config() == old(self).spec_config(),
            final(self).spec_aspect() == old(self).spec_aspect(),
            final(self).spec_last_size() == old(self).spec_last_size(),
            final(self).spec_cursor() == old(self).spec_cursor(),
            final(self).spec_mask() == old(self).spec_mask(),
            final(self).spec_focused() == focused,
            final(self).spec_opacity() == (if old(self).spec_config().focus_opacity_enabled {
                Self::spec_focus_opacity(old(self).spec_config(), focused)
            } else {
                old(self).spec_opacity()
            }),
            r == (if old(self).spec_alpha_controlled() {
                if !focused {
                    Some(false)
                } else {
                    Some(!final(self).spec_hit_at_cursor())
                }
            } else {
                None::<bool>
            }),
    {
        self.is_focused = focused;
        if self.config.focus_opacity_enabled {
            self.current_opacity = if focused {
                self.config.opacity_focused
            } else {
                self.config.opacity_unfocused
            };
        }
        if self.config.alpha_hit_test && !self.config.click_through {
            if !focused {
                Some(false)
            } else {
                let transparent = !self.hit_test_at_cursor();
                Some(transparent)
            }
        } else {
            None
        }
    }

    /// Take a cursor move, in window pixels.  While focused and under
    /// pixel-accurate control, the returned flag tells whether the pixel
    /// now under the cursor is transparent and the native click-through
    /// state must follow it; unfocused windows are left clickable.
    pub fn handle_cursor_moved(&mut self, x: u32, y: u32) -> (r: Option<bool>)
        requires
            old(self).wf(),
        ensures
            final(self).wf(),
            final(self).spec_config() == old(self).spec_config(),
            final(self).spec_aspect() == old(self).spec_aspect(),
            final(self).spec_last_size() == old(self).spec_last_size(),
            final(self).spec_mask() == old(self).spec_mask(),
            final(self).spec_focused() == old(self).spec_focused(),
            final(self).spec_opacity() == old(self).spec_opacity(),
            final(self).spec_cursor() == Some((x, y)),
            r == (if old(self).spec_alpha_controlled() && old(self).spec_focused() {
                Some(!final(self).spec_hit_at_cursor())
            } else {
                None::<bool>
            }),
    {
        self.cursor = Some((x, y));
        if self.config.alpha_hit_test && !self.config.click_through && self.is_focused {
            let transparent = !self.hit_test_at_cursor();
            Some(transparent)
        } else {
            None
        }
    }

    /// Take the cursor leaving the window: the position is forgotten, and a
    /// focused window under pixel-accurate control goes back to accepting
    /// clicks.
    pub fn handle_cursor_left(&mut self) -> (r: Option<bool>)
        requires
            old(self).wf(),
        ensures
            final(self).wf(),
            final(self).spec_config() == old(self).spec_config(),
            final(self).spec_aspect() == old(self).spec_aspect(),
            final(self).spec_last_size() == old(self).spec_last_size(),
            final(self).spec_mask() == old(self).spec_mask(),
            final(self).spec_focused() == old(self).spec_focused(),
            final(self).spec_opacity() == old(self).spec_opacity(),
            final(self).spec_cursor() is None,
            r == (if old(self).spec_alpha_controlled() && old(self).spec_focused() {
                Some(false)
            } else {
                None::<bool>
            }),
    {
        self.cursor = None;
        if self.config.alpha_hit_test && !self.config.click_through && self.is_focused {
            Some(false)
        } else {
            None
        }
    }

    /// Whether a click at the current cursor position is the window's to
    /// handle: never for a globally click-through window, always when
    /// pixel-accurate testing is off, else exactly on solid sprite pixels.
    pub fn should_handle_click(&self) -> (r: bool)
        requires
            self.wf(),
        ensures
            r == (if self.spec_config().click_through {
                false
            } else if !self.spec_config().alpha_hit_test {
                true
            } else {
                self.spec_hit_at_cursor()
            }),
    {
        if self.config.click_through {
            return false;
        }
        if !self.config.alpha_hit_test {
            return true;
        }
        self.hit_test_at_cursor()
    }

    /// The size a resize request settles on: the request clamped to the
    /// texture ceiling; then, when the aspect ratio is maintained, the axis
    /// that moved less is recomputed from the fixed ratio and the result is
    /// clamped once more.
    pub open spec fn spec_resize_outcome(&self, w: u32, h: u32) -> (nat, nat) {
        let clamped = spec_clamp_to_max_size(w as nat, h as nat, MAX_TEXTURE_SIZE as nat);
        if self.spec_config().maintain_aspect_ratio {
            let wd = abs(clamped.0 - self.spec_last_size().0 as int);
            let hd = abs(clamped.1 - self.spec_last_size().1 as int);
            let kept = if wd > hd {
                (
                    clamped.0,
                    spec_scaled_dim(clamped.0, self.spec_aspect().1 as nat, self.spec_aspect().0 as nat),
                )
            } else {
                (
                    spec_scaled_dim(clamped.1, self.spec_aspect().0 as nat, self.spec_aspect().1 as nat),
                    clamped.1,
                )
            };
            spec_clamp_to_max_size(kept.0, kept.1, MAX_TEXTURE_SIZE as nat)
        } else {
            clamped
        }
    }

    /// Take a resize request.  A zero-sized request is ignored outright (a
    /// zero-sized surface is invalid).  Otherwise the request is clamped
    /// and aspect-corrected, the corrected size is recorded, and the
    /// outcome names it together with whether a corrective native resize
    /// is owed because the correction changed the clamped request.
    pub fn handle_resize(&mut self, width: u32, height: u32) -> (r: Option<ResizeOutcome>)
        requires
            old(self).wf(),
        ensures
            final(self).wf(),
            final(self).spec_config() == old(self).spec_config(),
            final(self).spec_aspect() == old(self).spec_aspect(),
            final(self).spec_cursor() == old(self).spec_cursor(),
            final(self).spec_mask() == old(self).spec_mask(),
            final(self).spec_focused() == old(self).spec_focused(),
            final(self).spec_opacity() == old(self).spec_opacity(),
            (width == 0 || height == 0) ==> r is None && final(self).spec_last_size() == old(
                self,
            ).spec_last_size(),
            (width > 0 && height > 0) ==> {
                let out = old(self).spec_resize_outcome(width, height);
                let clamped = spec_clamp_to_max_size(
                    width as nat,
                    height as nat,
                    MAX_TEXTURE_SIZE as nat,
                );
                &&& r matches Some(o) && o.width as nat == out.0 && o.height as nat == out.1
                    && o.corrective == (old(self).spec_config().maintain_aspect_ratio && (out.0
                    != clamped.0 || out.1 != clamped.1))
                &&& final(self).spec_last_size().0 as nat == out.0
                &&& final(self).spec_last_size().1 as nat == out.1
            },
    {
        if width == 0 || height == 0 {
            return None;
        }
        let (cw, ch) = clamp_to_max_size(width, height, MAX_TEXTURE_SIZE);
        let (kw, kh): (u32, u32) = if self.config.maintain_aspect_ratio {
            let wd: u64 = if cw >= self.last_size.0 {
                (cw - self.last_size.0) as u64
            } else {
                (self.last_size.0 - cw) as u64
            };
            let hd: u64 = if ch >= self.last_size.1 {
                (ch - self.last_size.1) as u64
            } else {
                (self.last_size.1 - ch) as u64
            };
            if wd > hd {
                (cw, Self::scaled_dim(cw, self.aspect_h, self.aspect_w))
            } else {
                (Self::scaled_dim(ch, self.aspect_w, self.aspect_h), ch)
            }
        } else {
            (cw, ch)
        };
        let (fw, fh): (u32, u32) = if self.config.maintain_aspect_ratio {
            clamp_to_max_size(kw, kh, MAX_TEXTURE_SIZE)
        } else {
            (kw, kh)
        };
        let corrective = self.config.maintain_aspect_ratio && (fw != cw || fh != ch);
        self.last_size = (fw, fh);
        Some(ResizeOutcome { width: fw, height: fh, corrective })
    }

    /// `a * b / d` rounded to the nearest pixel, clipped to `u32`, at least
    /// one.
    fn scaled_dim(a: u32, b: u32, d: u32) -> (r: u32)
        requires
            d > 0,
        ensures
            r as nat == spec_scaled_dim(a as nat, b as nat, d as nat),
    {
        proof {
            crate::geom::lemma_u32_mul_fits(a as nat, b as nat);
        }
        let num: u128 = (a as u128) * (b as u128) * 2 + (d as u128);
        let den: u128 = 2 * (d as u128);
        let q: u128 = num / den;
        let clipped: u32 = if q > u32::MAX as u128 {
            u32::MAX
        } else {
            q as u32
        };
        if clipped == 0 {
            1
        } else {
            clipped
        }
    }

    /// Override the current opacity, in thousandths, capped at full.
    pub fn set_opacity(&mut self, opacity: u32)
        requires
            old(self).wf(),
        ensures
            final(self).wf(),
            final(self).spec_config() == old(self).spec_config(),
            final(self).spec_aspect() == old(self).spec_aspect(),
            final(self).spec_last_size() == old(self).spec_last_size(),
            final(self).spec_cursor() == old(self).spec_cursor(),
            final(self).spec_mask() == old(self).spec_mask(),
            final(self).spec_focused() == old(self).spec_focused(),
            final(self).spec_opacity() == (if opacity <= 1000 {
                opacity
            } else {
                1000
            }),
    {
        self.current_opacity = if opacity <= 1000 {
            opacity
        } else {
            1000
        };
    }

    /// Replace the focused opacity; a focused window under focus-driven
    /// opacity shows it at once.
    pub fn set_opacity_focused(&mut self, opacity: u32)
        requires
            old(self).wf(),
        ensures
            final(self).wf(),
            final(self).spec_config().opacity_focused == (if opacity <= 1000 {
                opacity
            } else {
                1000
            }),
            final(self).spec_config().opacity_unfocused == old(
                self,
            ).spec_config().opacity_unfocused,
            final(self).spec_aspect() == old(self).spec_aspect(),
            final(self).spec_last_size() == old(self).spec_last_size(),
            final(self).spec_cursor() == old(self).spec_cursor(),
            final(self).spec_mask() == old(self).spec_mask(),
            final(self).spec_focused() == old(self).spec_focused(),
            final(self).spec_opacity() == (if old(self).spec_focused() && old(
                self,
            ).spec_config().focus_opacity_enabled {
                final(self).spec_config().opacity_focused
            } else {
                old(self).spec_opacity()
            }),
    {
        self.config.opacity_focused = if opacity <= 1000 {
            opacity
        } else {
            1000
        };
        if self.is_focused && self.config.focus_opacity_enabled {
            self.current_opacity = self.config.opacity_focused;
        }
    }

    /// Replace the unfocused opacity; an unfocused window under
    /// focus-driven opacity shows it at once.
    pub fn set_opacity_unfocused(&mut self, opacity: u32)
        requires
            old(self).wf(),
        ensures
            final(self).wf(),
            final(self).spec_config().opacity_unfocused == (if opacity <= 1000 {
                opacity
            } else {
                1000
            }),
            final(self).spec_config().opacity_focused == old(self).spec_config().opacity_focused,
            final(self).spec_aspect() == old(self).spec_aspect(),
            final(self).spec_last_size() == old(self).spec_last_size(),
            final(self).spec_cursor() == old(self).spec_cursor(),
            final(self).spec_mask() == old(self).spec_mask(),
            final(self).spec_focused() == old(self).spec_focused(),
            final(self).spec_opacity() == (if !old(self).spec_focused() && old(
                self,
            ).spec_config().focus_opacity_enabled {
                final(self).spec_config().opacity_unfocused
            } else {
                old(self).spec_opacity()
            }),
    {
        self.config.opacity_unfocused = if opacity <= 1000 {
            opacity
        } else {
            1000
        };
        if !self.is_focused && self.config.focus_opacity_enabled {
            self.current_opacity = self.config.opacity_unfocused;
        }
    }

    /// Turn focus-driven opacity on or off; turning it on applies the value
    /// for the current focus state at once.
    pub fn set_focus_opacity_enabled(&mut self, enabled: bool)
        requires
            old(self).wf(),
        ensures
            final(self).wf(),
            final(self).spec_config().focus_opacity_enabled == enabled,
            final(self).spec_aspect() == old(self).spec_aspect(),
            final(self).spec_last_size() == old(self).spec_last_size(),
            final(self).spec_cursor() == old(self).spec_cursor(),
            final(self).spec_mask() == old(self).spec_mask(),
            final(self).spec_focused() == old(self).spec_focused(),
            final(self).spec_opacity() == (if enabled {
                Self::spec_focus_opacity(old(self).spec_config(), old(self).spec_focused())
            } else {
                old(self).spec_opacity()
            }),
    {
        self.config.focus_opacity_enabled = enabled;
        if enabled {
            self.current_opacity = if self.is_focused {
                self.config.opacity_focused
            } else {
                self.config.opacity_unfocused
            };
        }
    }

    /// Choose whether resizes keep the original aspect ratio.
    pub fn set_maintain_aspect_ratio(&mut self, maintain: bool)
        requires
            old(self).wf(),
        ensures
            final(self).wf(),
            final(self).spec_config().maintain_aspect_ratio == maintain,
            final(self).spec_aspect() == old(self).spec_aspect(),
            final(self).spec_last_size() == old(self).spec_last_size(),
            final(self).spec_cursor() == old(self).spec_cursor(),
            final(self).spec_mask() == old(self).spec_mask(),
            final(self).spec_focused() == old(self).spec_focused(),
            final(self).spec_opacity() == old(self).spec_opacity(),
    {
        self.config.maintain_aspect_ratio = maintain;
    }

    /// Choose the alpha threshold below which sprite pixels count as
    /// transparent.
    pub fn set_alpha_threshold(&mut self, threshold: u8)
        requires
            old(self).wf(),
        ensures
            final(self).wf(),
            final(self).spec_config().alpha_threshold == threshold,
            final(self).spec_aspect() == old(self).spec_aspect(),
            final(self).spec_last_size() == old(self).spec_last_size(),
            final(self).spec_cursor() == old(self).spec_cursor(),
            final(self).spec_mask() == old(self).spec_mask(),
            final(self).spec_focused() == old(self).spec_focused(),
            final(self).spec_opacity() == old(self).spec_opacity(),
    {
        self.config.alpha_threshold = threshold;
    }

    /// Whether the window can be dragged.
    pub fn is_draggable(&self) -> (r: bool)
        ensures
            r == self.spec_config().draggable,
    {
        self.config.draggable
    }

    /// Whether the window has the focus.
    pub fn is_focused(&self) -> (r: bool)
        ensures
            r == self.spec_focused(),
    {
        self.is_focused
    }

    /// The current opacity, in thousandths.
    pub fn opacity(&self) -> (r: u32)
        ensures
            r == self.spec_opacity(),
    {
        self.current_opacity
    }

    /// The aspect ratio fixed at creation, as a width / height pixel pair.
    pub fn aspect_ratio(&self) -> (r: (u32, u32))
        ensures
            r == self.spec_aspect(),
    {
        (self.aspect_w, self.aspect_h)
    }

    /// The last accepted window size.
    pub fn last_size(&self) -> (r: (u32, u32))
        ensures
            r == self.spec_last_size(),
    {
        self.last_size
    }
}

} // verus!
