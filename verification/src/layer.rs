//! Placement enums for overlay layers: text alignment and layer anchors.
//!
//! Layers are extra images drawn over the skin; their configuration names an
//! anchor on the skin and how any caption is aligned inside the layer.
//! Names are matched without regard to ASCII case.

use vstd::prelude::*;
use crate::strutil::{eq_ignore_ascii, lower_seq};

verus! {

/// Horizontal alignment of a layer caption.
#[derive(Debug, Clone, Copy, PartialEq, Eq, Structural)]
pub enum TextAlign {
    Left,
    Center,
    Right,
}

impl Default for TextAlign {
    /// Captions are centered unless told otherwise.
    fn default() -> (r: TextAlign)
        ensures
            r == TextAlign::Center,
    {
        TextAlign::Center
    }
}

/// The alignment a name denotes, matched without regard to ASCII case;
/// unknown names mean centered.
pub open spec fn spec_text_align_from_str(s: Seq<char>) -> TextAlign {
    let l = lower_seq(s);
    if l == lower_seq("left"@) {
        TextAlign::Left
    } else if l == lower_seq("center"@) {
        TextAlign::Center
    } else if l == lower_seq("right"@) {
        TextAlign::Right
    } else {
        TextAlign::Center
    }
}

impl TextAlign {
    /// Parse an alignment name, ignoring ASCII case; unknown names mean
    /// centered.
    pub fn from_str(s: &str) -> (r: TextAlign)
        ensures
            r == spec_text_align_from_str(s@),
    {
        if eq_ignore_ascii(s, "left") {
            TextAlign::Left
        } else if eq_ignore_ascii(s, "center") {
            TextAlign::Center
        } else if eq_ignore_ascii(s, "right") {
            TextAlign::Right
        } else {
            TextAlign::Center
        }
    }
}

/// Vertical alignment of a layer caption.
#[derive(Debug, Clone, Copy, PartialEq, Eq, Structural)]
pub enum TextVAlign {
    Top,
    Center,
    Bottom,
}

impl Default for TextVAlign {
    /// Captions are centered unless told otherwise.
    fn default() -> (r: TextVAlign)
        ensures
            r == TextVAlign::Center,
    {
        TextVAlign::Center
    }
}

/// The vertical alignment a name denotes, matched without regard to ASCII
/// case; unknown names mean centered.
pub open spec fn spec_text_valign_from_str(s: Seq<char>) -> TextVAlign {
    let l = lower_seq(s);
    if l == lower_seq("top"@) {
        TextVAlign::Top
    } else if l == lower_seq("center"@) {
        TextVAlign::Center
    } else if l == lower_seq("bottom"@) {
        TextVAlign::Bottom
    } else {
        TextVAlign::Center
    }
}

impl TextVAlign {
    /// Parse a vertical alignment name, ignoring ASCII case; unknown names
    /// mean centered.
    pub fn from_str(s: &str) -> (r: TextVAlign)
        ensures
            r == spec_text_valign_from_str(s@),
    {
        if eq_ignore_ascii(s, "top") {
            TextVAlign::Top
        } else if eq_ignore_ascii(s, "center") {
            TextVAlign::Center
        } else if eq_ignore_ascii(s, "bottom") {
            TextVAlign::Bottom
        } else {
            TextVAlign::Center
        }
    }
}

/// Where a layer is anchored on the skin.
#[derive(Debug, Clone, Copy, PartialEq, Eq, Structural)]
pub enum LayerAnchor {
    TopLeft,
    TopCenter,
    TopRight,
    CenterLeft,
    Center,
    CenterRight,
    BottomLeft,
    BottomCenter,
    BottomRight,
}

/// The default layer anchor name.
pub fn default_layer_anchor() -> (r: String)
    ensures
        r@ == "bottom-center"@,
{
    String::from_str("bottom-center")
}

/// The default layer caption alignment name.
pub fn default_layer_text_align() -> (r: String)
    ensures
        r@ == "center"@,
{
    String::from_str("center")
}

/// The default layer caption vertical alignment name.
pub fn default_layer_text_valign() -> (r: String)
    ensures
        r@ == "center"@,
{
    String::from_str("center")
}

/// The layer anchor a name denotes, matched without regard to ASCII case;
/// unknown names mean the bottom center.
pub open spec fn spec_layer_anchor_from_str(s: Seq<char>) -> LayerAnchor {
    let l = lower_seq(s);
    if l == lower_seq("top-left"@) || l == lower_seq("topleft"@) {
        LayerAnchor::TopLeft
    } else if l == lower_seq("top-center"@) || l == lower_seq("topcenter"@) || l == lower_seq(
        "top"@,
    ) {
        LayerAnchor::TopCenter
    } else if l == lower_seq("top-right"@) || l == lower_seq("topright"@) {
        LayerAnchor::TopRight
    } else if l == lower_seq("center-left"@) || l == lower_seq("centerleft"@) || l == lower_seq(
        "left"@,
    ) {
        LayerAnchor::CenterLeft
    } else if l == lower_seq("center-center"@) || l == lower_seq("centercenter"@) || l
        == lower_seq("center"@) {
        LayerAnchor::Center
    } else if l == lower_seq("center-right"@) || l == lower_seq("centerright"@) || l == lower_seq(
        "right"@,
    ) {
        LayerAnchor::CenterRight
    } else if l == lower_seq("bottom-left"@) || l == lower_seq("bottomleft"@) {
        LayerAnchor::BottomLeft
    } else if l == lower_seq("bottom-center"@) || l == lower_seq("bottomcenter"@) || l
        == lower_seq("bottom"@) {
        LayerAnchor::BottomCenter
    } else if l == lower_seq("bottom-right"@) || l == lower_seq("bottomright"@) {
        LayerAnchor::BottomRight
    } else {
        LayerAnchor::BottomCenter
    }
}

impl LayerAnchor {
    /// Parse a layer anchor name, ignoring ASCII case; unknown names mean
    /// the bottom center.
    pub fn from_str(s: &str) -> (r: LayerAnchor)
        ensures
            r == spec_layer_anchor_from_str(s@),
    {
        if eq_ignore_ascii(s, "top-left") || eq_ignore_ascii(s, "topleft") {
            LayerAnchor::TopLeft
        } else if eq_ignore_ascii(s, "top-center") || eq_ignore_ascii(s, "topcenter")
            || eq_ignore_ascii(s, "top") {
            LayerAnchor::TopCenter
        } else if eq_ignore_ascii(s, "top-right") || eq_ignore_ascii(s, "topright") {
            LayerAnchor::TopRight
        } else if eq_ignore_ascii(s, "center-left") || eq_ignore_ascii(s, "centerleft")
            || eq_ignore_ascii(s, "left") {
            LayerAnchor::CenterLeft
        } else if eq_ignore_ascii(s, "center-center") || eq_ignore_ascii(s, "centercenter")
            || eq_ignore_ascii(s, "center") {
            LayerAnchor::Center
        } else if eq_ignore_ascii(s, "center-right") || eq_ignore_ascii(s, "centerright")
            || eq_ignore_ascii(s, "right") {
            LayerAnchor::CenterRight
        } else if eq_ignore_ascii(s, "bottom-left") || eq_ignore_ascii(s, "bottomleft") {
            LayerAnchor::BottomLeft
        } else if eq_ignore_ascii(s, "bottom-center") || eq_ignore_ascii(s, "bottomcenter")
            || eq_ignore_ascii(s, "bottom") {
            LayerAnchor::BottomCenter
        } else if eq_ignore_ascii(s, "bottom-right") || eq_ignore_ascii(s, "bottomright") {
            LayerAnchor::BottomRight
        } else {
            LayerAnchor::BottomCenter
        }
    }

    /// The anchor position as a fraction of the parent size, in halves: 0
    /// is the near edge, 1 the middle, 2 the far edge.
    pub fn as_half_fraction(&self) -> (r: (u32, u32))
        ensures
            r.0 <= 2 && r.1 <= 2,
            r == (match *self {
                LayerAnchor::TopLeft => (0u32, 0u32),
                LayerAnchor::TopCenter => (1u32, 0u32),
                LayerAnchor::TopRight => (2u32, 0u32),
                LayerAnchor::CenterLeft => (0u32, 1u32),
                LayerAnchor::Center => (1u32, 1u32),
                LayerAnchor::CenterRight => (2u32, 1u32),
                LayerAnchor::BottomLeft => (0u32, 2u32),
                LayerAnchor::BottomCenter => (1u32, 2u32),
                LayerAnchor::BottomRight => (2u32, 2u32),
            }),
    {
        match *self {
            LayerAnchor::TopLeft => (0, 0),
            LayerAnchor::TopCenter => (1, 0),
            LayerAnchor::TopRight => (2, 0),
            LayerAnchor::CenterLeft => (0, 1),
            LayerAnchor::Center => (1, 1),
            LayerAnchor::CenterRight => (2, 1),
            LayerAnchor::BottomLeft => (0, 2),
            LayerAnchor::BottomCenter => (1, 2),
            LayerAnchor::BottomRight => (2, 2),
        }
    }
}

} // verus!
