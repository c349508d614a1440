//! Chat-window placement configuration and anchor parsing.
//!
//! The chat window docks to one side of the primary window; an anchor
//! keyword picks the side, an alignment keyword picks where along that side,
//! and a pixel offset shifts the result.  Keywords are matched without
//! regard to ASCII case, and unknown keywords fall back to documented
//! defaults.

use vstd::prelude::*;
use crate::strutil::{eq_ignore_ascii, lower_seq};

verus! {

/// Half of `d`, rounded toward zero, as Rust's integer division does.
pub open spec fn spec_half_toward_zero(d: int) -> int {
    if d >= 0 {
        d / 2
    } else {
        -((-d) / 2)
    }
}

/// Half of `d`, rounded toward zero.
pub fn half_toward_zero(d: i64) -> (r: i64)
    requires
        i64::MIN < d,
    ensures
        r as int == spec_half_toward_zero(d as int),
{
    if d >= 0 {
        d / 2
    } else {
        let m: i64 = -d;
        -(m / 2)
    }
}

/// Where the chat window sits relative to the primary window.
#[derive(Debug, Clone)]
pub struct ChatConfig {
    /// Anchor side: `left`, `right`, `top` or `bottom`.
    pub anchor: String,
    /// Pixel offset applied after anchoring.
    pub offset: [i32; 2],
    /// Alignment along the anchored side: `top`/`center`/`bottom` for a
    /// side anchor, `left`/`center`/`right` for a top or bottom anchor.
    pub align: String,
    /// Chat window size in pixels.
    pub size: [u32; 2],
}

/// The default chat anchor side.
pub fn default_chat_anchor() -> (r: String)
    ensures
        r@ == "right"@,
{
    String::from_str("right")
}

/// The default chat alignment.
pub fn default_chat_align() -> (r: String)
    ensures
        r@ == "bottom"@,
{
    String::from_str("bottom")
}

/// The default chat window size.
pub fn default_chat_size() -> (r: [u32; 2])
    ensures
        r[0] == 400,
        r[1] == 500,
{
    [400, 500]
}

impl Default for ChatConfig {
    /// Docked to the lower right of the primary window at 400 x 500.
    fn default() -> (r: ChatConfig)
        ensures
            r.anchor@ == "right"@,
            r.align@ == "bottom"@,
            r.offset == [0i32, 0i32],
            r.size == [400u32, 500u32],
    {
        ChatConfig {
            anchor: default_chat_anchor(),
            offset: [0, 0],
            align: default_chat_align(),
            size: default_chat_size(),
        }
    }
}

/// The offset `calculate_offset` owes: the anchor keyword gives a base
/// corner, the alignment keyword slides the window along the anchored side,
/// and the configured pixel offset is added on top.  Unknown anchors dock
/// right; unknown alignments fall to the bottom (side anchors) or the left
/// (top and bottom anchors).
pub open spec fn spec_calculate_offset(cfg: ChatConfig, main_w: int, main_h: int) -> (int, int) {
    let cw = cfg.size[0] as int;
    let ch = cfg.size[1] as int;
    let a = lower_seq(cfg.anchor@);
    let g = lower_seq(cfg.align@);
    let left = a == lower_seq("left"@);
    let right = a == lower_seq("right"@);
    let top = a == lower_seq("top"@);
    let bottom = a == lower_seq("bottom"@);
    let base = if left {
        (-cw, 0int)
    } else if right {
        (main_w, 0int)
    } else if top {
        (0int, -ch)
    } else if bottom {
        (0int, main_h)
    } else {
        (main_w, 0int)
    };
    let align_off = if left || right {
        if g == lower_seq("top"@) {
            0int
        } else if g == lower_seq("center"@) {
            spec_half_toward_zero(main_h - ch)
        } else {
            main_h - ch
        }
    } else if top || bottom {
        if g == lower_seq("left"@) {
            0int
        } else if g == lower_seq("center"@) {
            spec_half_toward_zero(main_w - cw)
        } else if g == lower_seq("right"@) {
            main_w - cw
        } else {
            0int
        }
    } else {
        0int
    };
    if top || bottom {
        (align_off + cfg.offset[0], base.1 + cfg.offset[1])
    } else {
        (base.0 + cfg.offset[0], align_off + cfg.offset[1])
    }
}

impl ChatConfig {
    /// Where the chat window sits relative to the primary window's origin,
    /// given the primary window's size in pixels.
    pub fn calculate_offset(&self, main_width: u32, main_height: u32) -> (r: [i32; 2])
        requires
            main_width <= i32::MAX,
            main_height <= i32::MAX,
            self.size[0] <= i32::MAX,
            self.size[1] <= i32::MAX,
            i32::MIN <= spec_calculate_offset(*self, main_width as int, main_height as int).0
                <= i32::MAX,
            i32::MIN <= spec_calculate_offset(*self, main_width as int, main_height as int).1
                <= i32::MAX,
        ensures
            r[0] as int == spec_calculate_offset(*self, main_width as int, main_height as int).0,
            r[1] as int == spec_calculate_offset(*self, main_width as int, main_height as int).1,
    {
        let cw: i64 = self.size[0] as i64;
        let ch: i64 = self.size[1] as i64;
        let mw: i64 = main_width as i64;
        let mh: i64 = main_height as i64;
        let left = eq_ignore_ascii(self.anchor.as_str(), "left");
        let right = eq_ignore_ascii(self.anchor.as_str(), "right");
        let top = eq_ignore_ascii(self.anchor.as_str(), "top");
        let bottom = eq_ignore_ascii(self.anchor.as_str(), "bottom");
        let (base_x, base_y): (i64, i64) = if left {
            (-cw, 0)
        } else if right {
            (mw, 0)
        } else if top {
            (0, -ch)
        } else if bottom {
            (0, mh)
        } else {
            (mw, 0)
        };
        let align_off: i64 = if left || right {
            if eq_ignore_ascii(self.align.as_str(), "top") {
                0
            } else if eq_ignore_ascii(self.align.as_str(), "center") {
                half_toward_zero(mh - ch)
            } else {
                mh - ch
            }
        } else if top || bottom {
            if eq_ignore_ascii(self.align.as_str(), "left") {
                0
            } else if eq_ignore_ascii(self.align.as_str(), "center") {
                half_toward_zero(mw - cw)
            } else if eq_ignore_ascii(self.align.as_str(), "right") {
                mw - cw
            } else {
                0
            }
        } else {
            0
        };
        let off0: i64 = self.offset[0] as i64;
        let off1: i64 = self.offset[1] as i64;
        let (x, y): (i64, i64) = if top || bottom {
            (align_off + off0, base_y + off1)
        } else {
            (base_x + off0, align_off + off1)
        };
        [x as i32, y as i32]
    }
}

/// A nine-way anchor on the skin, used to place callouts.
#[derive(Debug, Clone, Copy, PartialEq, Eq, Structural)]
pub enum Anchor {
    TopLeft,
    TopCenter,
    TopRight,
    CenterLeft,
    CenterCenter,
    CenterRight,
    BottomLeft,
    BottomCenter,
    BottomRight,
}

/// The anchor a name denotes, matched without regard to ASCII case; unknown
/// names fall back to the top right.
pub open spec fn spec_anchor_from_str(s: Seq<char>) -> Anchor {
    let l = lower_seq(s);
    if l == lower_seq("top-left"@) || l == lower_seq("topleft"@) {
        Anchor::TopLeft
    } else if l == lower_seq("top-center"@) || l == lower_seq("topcenter"@) || l == lower_seq(
        "top"@,
    ) {
        Anchor::TopCenter
    } else if l == lower_seq("top-right"@) || l == lower_seq("topright"@) {
        Anchor::TopRight
    } else if l == lower_seq("center-left"@) || l == lower_seq("centerleft"@) || l == lower_seq(
        "left"@,
    ) {
        Anchor::CenterLeft
    } else if l == lower_seq("center-center"@) || l == lower_seq("centercenter"@) || l
        == lower_seq("center"@) {
        Anchor::CenterCenter
    } else if l == lower_seq("center-right"@) || l == lower_seq("centerright"@) || l == lower_seq(
        "right"@,
    ) {
        Anchor::CenterRight
    } else if l == lower_seq("bottom-left"@) || l == lower_seq("bottomleft"@) {
        Anchor::BottomLeft
    } else if l == lower_seq("bottom-center"@) || l == lower_seq("bottomcenter"@) || l
        == lower_seq("bottom"@) {
        Anchor::BottomCenter
    } else if l == lower_seq("bottom-right"@) || l == lower_seq("bottomright"@) {
        Anchor::BottomRight
    } else {
        Anchor::TopRight
    }
}

impl Anchor {
    /// Parse an anchor name, ignoring ASCII case; unknown names mean the
    /// top right.
    pub fn from_str(s: &str) -> (r: Anchor)
        ensures
            r == spec_anchor_from_str(s@),
    {
        if eq_ignore_ascii(s, "top-left") || eq_ignore_ascii(s, "topleft") {
            Anchor::TopLeft
        } else if eq_ignore_ascii(s, "top-center") || eq_ignore_ascii(s, "topcenter")
            || eq_ignore_ascii(s, "top") {
            Anchor::TopCenter
        } else if eq_ignore_ascii(s, "top-right") || eq_ignore_ascii(s, "topright") {
            Anchor::TopRight
        } else if eq_ignore_ascii(s, "center-left") || eq_ignore_ascii(s, "centerleft")
            || eq_ignore_ascii(s, "left") {
            Anchor::CenterLeft
        } else if eq_ignore_ascii(s, "center-center") || eq_ignore_ascii(s, "centercenter")
            || eq_ignore_ascii(s, "center") {
            Anchor::CenterCenter
        } else if eq_ignore_ascii(s, "center-right") || eq_ignore_ascii(s, "centerright")
            || eq_ignore_ascii(s, "right") {
            Anchor::CenterRight
        } else if eq_ignore_ascii(s, "bottom-left") || eq_ignore_ascii(s, "bottomleft") {
            Anchor::BottomLeft
        } else if eq_ignore_ascii(s, "bottom-center") || eq_ignore_ascii(s, "bottomcenter")
            || eq_ignore_ascii(s, "bottom") {
            Anchor::BottomCenter
        } else if eq_ignore_ascii(s, "bottom-right") || eq_ignore_ascii(s, "bottomright") {
            Anchor::BottomRight
        } else {
            Anchor::TopRight
        }
    }

    /// The anchor position as a fraction of the skin size, in halves: 0 is
    /// the near edge, 1 the middle, 2 the far edge.
    pub fn as_half_fraction(&self) -> (r: (u32, u32))
        ensures
            r.0 <= 2 && r.1 <= 2,
            r == (match *self {
                Anchor::TopLeft => (0u32, 0u32),
                Anchor::TopCenter => (1u32, 0u32),
                Anchor::TopRight => (2u32, 0u32),
                Anchor::CenterLeft => (0u32, 1u32),
                Anchor::CenterCenter => (1u32, 1u32),
                Anchor::CenterRight => (2u32, 1u32),
                Anchor::BottomLeft => (0u32, 2u32),
                Anchor::BottomCenter => (1u32, 2u32),
                Anchor::BottomRight => (2u32, 2u32),
            }),
    {
        match *self {
            Anchor::TopLeft => (0, 0),
            Anchor::TopCenter => (1, 0),
            Anchor::TopRight => (2, 0),
            Anchor::CenterLeft => (0, 1),
            Anchor::CenterCenter => (1, 1),
            Anchor::CenterRight => (2, 1),
            Anchor::BottomLeft => (0, 2),
            Anchor::BottomCenter => (1, 2),
            Anchor::BottomRight => (2, 2),
        }
    }
}

/// The point of the skin an anchor names, in pixels: each axis at its near
/// edge, middle, or far edge.
pub open spec fn spec_anchor_point(anchor: Anchor, skin_w: nat, skin_h: nat) -> (int, int) {
    let hx: nat = match anchor {
        Anchor::TopLeft | Anchor::CenterLeft | Anchor::BottomLeft => 0,
        Anchor::TopCenter | Anchor::CenterCenter | Anchor::BottomCenter => 1,
        Anchor::TopRight | Anchor::CenterRight | Anchor::BottomRight => 2,
    };
    let hy: nat = match anchor {
        Anchor::TopLeft | Anchor::TopCenter | Anchor::TopRight => 0,
        Anchor::CenterLeft | Anchor::CenterCenter | Anchor::CenterRight => 1,
        Anchor::BottomLeft | Anchor::BottomCenter | Anchor::BottomRight => 2,
    };
    ((skin_w * hx / 2) as int, (skin_h * hy / 2) as int)
}

/// Where the callout window sits relative to the primary window's origin:
/// the anchor point on the skin, shifted by the configured pixel offset and
/// clamped into the `i32` range.
pub fn calculate_callout_offset(
    anchor: Anchor,
    skin_width: u32,
    skin_height: u32,
    offset_x: i32,
    offset_y: i32,
) -> (r: (i32, i32))
    requires
        skin_width <= i32::MAX,
        skin_height <= i32::MAX,
    ensures
        r.0 as int == crate::coord::spec_sat_add(
            spec_anchor_point(anchor, skin_width as nat, skin_height as nat).0,
            offset_x as int,
        ),
        r.1 as int == crate::coord::spec_sat_add(
            spec_anchor_point(anchor, skin_width as nat, skin_height as nat).1,
            offset_y as int,
        ),
{
    let (hx, hy) = anchor.as_half_fraction();
    proof {
        crate::geom::lemma_mul_le(skin_width as nat, hx as nat, i32::MAX as nat, 2);
        crate::geom::lemma_mul_le(skin_height as nat, hy as nat, i32::MAX as nat, 2);
        vstd::arithmetic::div_mod::lemma_div_is_ordered(
            (skin_width as nat * hx as nat) as int,
            (i32::MAX as nat * 2) as int,
            2,
        );
        vstd::arithmetic::div_mod::lemma_div_is_ordered(
            (skin_height as nat * hy as nat) as int,
            (i32::MAX as nat * 2) as int,
            2,
        );
        vstd::arithmetic::div_mod::lemma_div_multiples_vanish(i32::MAX as int, 2);
        assert((i32::MAX as nat * 2) as int == 2 * (i32::MAX as int));
    }
    let bx: u64 = (skin_width as u64) * (hx as u64) / 2;
    let by: u64 = (skin_height as u64) * (hy as u64) / 2;
    (
        crate::coord::sat_add_i32(bx as i32, offset_x),
        crate::coord::sat_add_i32(by as i32, offset_y),
    )
}

/// The default callout text animation name.
pub fn default_animation() -> (r: String)
    ensures
        r@ == "typewriter"@,
{
    String::from_str("typewriter")
}

/// The default button style name.
pub fn default_button_style() -> (r: String)
    ensures
        r@ == "default"@,
{
    String::from_str("default")
}

/// Why a configuration could not be loaded.
#[derive(Debug)]
pub enum ConfigError {
    /// The file could not be read.
    Io(String),
    /// The file's contents could not be parsed.
    Parse(String),
}

impl ConfigError {
    /// A human-readable description of the failure.
    pub fn message(&self) -> &String {
        match self {
            ConfigError::Io(m) => m,
            ConfigError::Parse(m) => m,
        }
    }
}

} // verus!
