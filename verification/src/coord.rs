//! Shared cross-window coordination state and the satellite snap protocol.
//!
//! One [`GhostState`] record is the single source of truth that every window
//! controller reads and writes: the primary window's live position and
//! size, each satellite's visibility and snap state, and the configured
//! anchor offset.  Satellites are kept glued to the primary window purely by
//! event-driven repositioning: the functions here decide, from observed move
//! events, when a satellite was dragged away (unsnap), when it came close
//! enough to reattach (snap), and where a snapped satellite must be placed.
//! Positions saturate at the `i32` range instead of wrapping.

use vstd::prelude::*;

verus! {

/// How far (in physical pixels, on either axis) an observed position may
/// drift from the last programmatic one before it counts as a user drag.
pub const UNSNAP_TOLERANCE: i64 = 10;

/// How close (in physical pixels, on both axes) a dragged satellite must
/// come to its anchor point to snap back on.
pub const SNAP_TOLERANCE: i64 = 30;

/// `a + b` clamped into the `i32` range.
pub open spec fn spec_sat_add(a: int, b: int) -> int {
    if a + b > i32::MAX {
        i32::MAX as int
    } else if a + b < i32::MIN {
        i32::MIN as int
    } else {
        a + b
    }
}

/// Whether `a` lies more than `tol` away from `b`.
pub open spec fn spec_beyond(a: int, b: int, tol: int) -> bool {
    a - b > tol || b - a > tol
}

/// `a + b` clamped into the `i32` range.
pub fn sat_add_i32(a: i32, b: i32) -> (r: i32)
    ensures
        r as int == spec_sat_add(a as int, b as int),
{
    let s: i64 = a as i64 + b as i64;
    if s > i32::MAX as i64 {
        i32::MAX
    } else if s < i32::MIN as i64 {
        i32::MIN
    } else {
        s as i32
    }
}

/// A window's position and size in physical pixels.
#[derive(Clone, Copy, Debug, PartialEq, Eq, Structural)]
pub struct Rect {
    pub x: i32,
    pub y: i32,
    pub width: u32,
    pub height: u32,
}

impl Default for Rect {
    /// A zero-sized rectangle at the origin.
    fn default() -> (r: Rect)
        ensures
            r.x == 0 && r.y == 0 && r.width == 0 && r.height == 0,
    {
        Rect { x: 0, y: 0, width: 0, height: 0 }
    }
}

/// Whether a window is focused, open but behind, or not running.
#[derive(Clone, Copy, Debug, PartialEq, Eq, Structural)]
pub enum WinState {
    Focused,
    Behind,
    NotRunning,
}

/// The character the overlay currently presents.
#[derive(Clone, Debug)]
pub struct PersonaState {
    /// The persona's display name.
    pub name: String,
    /// The name of the animation state being played.
    pub animation: String,
    /// The persona's opacity, in thousandths.
    pub opacity: u32,
}

/// The shared view of one window.
#[derive(Clone, Copy, Debug)]
pub struct WindowState {
    /// Position and size.
    pub rect: Rect,
    /// Opacity in thousandths.
    pub opacity: u32,
    /// Focus state.
    pub state: WinState,
    /// Whether the window is shown at all.
    pub visible: bool,
    /// Whether the window is glued to the primary window.
    pub snapped: bool,
    /// The last position set programmatically, for drag detection.
    pub last_set_pos: (i32, i32),
    /// Set for one move event after a resize, so that the move the platform
    /// fires alongside the resize is not mistaken for a user drag.
    pub just_resized: bool,
}

/// The configured offset of the extra (chat) window from the primary
/// window's origin, pre-scaled to physical pixels.
#[derive(Clone, Copy, Debug)]
pub struct SnapConfig {
    pub scaled_extra_offset: [i32; 2],
}

/// The shared coordination record: the one place every window controller
/// reads the primary position from and writes its own state to.
pub struct GhostState {
    persona: PersonaState,
    main_window: WindowState,
    chat_window: WindowState,
    callout_window: WindowState,
    snap_config: SnapConfig,
}

impl GhostState {
    /// The persona state.
    pub closed spec fn spec_persona(&self) -> PersonaState {
        self.persona
    }

    /// The primary window's shared state.
    pub closed spec fn spec_main(&self) -> WindowState {
        self.main_window
    }

    /// The chat window's shared state.
    pub closed spec fn spec_chat(&self) -> WindowState {
        self.chat_window
    }

    /// The callout window's shared state.
    pub closed spec fn spec_callout(&self) -> WindowState {
        self.callout_window
    }

    /// The snap configuration.
    pub closed spec fn spec_snap_config(&self) -> SnapConfig {
        self.snap_config
    }

    /// Where a snapped chat window belongs: the primary window's origin
    /// plus the configured offset, clamped into the `i32` range.
    pub open spec fn spec_chat_target(&self) -> (int, int) {
        (
            spec_sat_add(self.spec_main().rect.x as int, self.spec_snap_config().scaled_extra_offset[0] as int),
            spec_sat_add(self.spec_main().rect.y as int, self.spec_snap_config().scaled_extra_offset[1] as int),
        )
    }

    /// A fresh record: an idle persona at full opacity, a visible primary
    /// window, and hidden, snapped chat and callout windows.
    pub fn new() -> (r: GhostState)
        ensures
            r.spec_persona().animation@ == "idle"@,
            r.spec_persona().name@ == Seq::<char>::empty(),
            r.spec_persona().opacity == 1000,
            r.spec_main().visible && !r.spec_main().snapped && r.spec_main().state
                == WinState::NotRunning,
            r.spec_main().rect == (Rect { x: 0, y: 0, width: 0, height: 0 }),
            !r.spec_chat().visible && r.spec_chat().snapped && r.spec_chat().last_set_pos == (
                0i32,
                0i32,
            ) && !r.spec_chat().just_resized,
            r.spec_chat().rect == (Rect { x: 0, y: 0, width: 0, height: 0 }),
            !r.spec_callout().visible && r.spec_callout().snapped,
            r.spec_snap_config().scaled_extra_offset[0] == 0
                && r.spec_snap_config().scaled_extra_offset[1] == 0,
    {
        let zero_rect = Rect { x: 0, y: 0, width: 0, height: 0 };
        GhostState {
            persona: PersonaState {
                name: String::new(),
                animation: String::from_str("idle"),
                opacity: 1000,
            },
            main_window: WindowState {
                rect: zero_rect,
                opacity: 1000,
                state: WinState::NotRunning,
                visible: true,
                snapped: false,
                last_set_pos: (0, 0),
                just_resized: false,
            },
            chat_window: WindowState {
                rect: zero_rect,
                opacity: 1000,
                state: WinState::NotRunning,
                visible: false,
                snapped: true,
                last_set_pos: (0, 0),
                just_resized: false,
            },
            callout_window: WindowState {
                rect: zero_rect,
                opacity: 1000,
                state: WinState::NotRunning,
                visible: false,
                snapped: true,
                last_set_pos: (0, 0),
                just_resized: false,
            },
            snap_config: SnapConfig { scaled_extra_offset: [0, 0] },
        }
    }

    /// The persona state.
    pub fn persona(&self) -> (r: &PersonaState)
        ensures
            *r == self.spec_persona(),
    {
        &self.persona
    }

    /// Record the persona's animation state name.
    pub fn set_persona_animation(&mut self, animation: &str)
        ensures
            final(self).spec_persona().animation@ == animation@,
            final(self).spec_persona().name == old(self).spec_persona().name,
            final(self).spec_persona().opacity == old(self).spec_persona().opacity,
            final(self).spec_main() == old(self).spec_main(),
            final(self).spec_chat() == old(self).spec_chat(),
            final(self).spec_callout() == old(self).spec_callout(),
            final(self).spec_snap_config() == old(self).spec_snap_config(),
    {
        self.persona.animation = animation.to_owned();
    }

    /// Record the persona's opacity, in thousandths.
    pub fn set_persona_opacity(&mut self, opacity: u32)
        ensures
            final(self).spec_persona().opacity == opacity,
            final(self).spec_persona().name == old(self).spec_persona().name,
            final(self).spec_persona().animation == old(self).spec_persona().animation,
            final(self).spec_main() == old(self).spec_main(),
            final(self).spec_chat() == old(self).spec_chat(),
            final(self).spec_callout() == old(self).spec_callout(),
            final(self).spec_snap_config() == old(self).spec_snap_config(),
    {
        self.persona.opacity = opacity;
    }

    /// The primary window's shared state.
    pub fn main_window(&self) -> (r: WindowState)
        ensures
            r == self.spec_main(),
    {
        self.main_window
    }

    /// The primary window's position.
    pub fn main_pos(&self) -> (r: (i32, i32))
        ensures
            r.0 == self.spec_main().rect.x,
            r.1 == self.spec_main().rect.y,
    {
        (self.main_window.rect.x, self.main_window.rect.y)
    }

    /// The primary window's size.
    pub fn main_size(&self) -> (r: (u32, u32))
        ensures
            r.0 == self.spec_main().rect.width,
            r.1 == self.spec_main().rect.height,
    {
        (self.main_window.rect.width, self.main_window.rect.height)
    }

    /// Record the primary window's position.
    pub fn set_main_pos(&mut self, x: i32, y: i32)
        ensures
            final(self).spec_main().rect.x == x,
            final(self).spec_main().rect.y == y,
            final(self).spec_main().rect.width == old(self).spec_main().rect.width,
            final(self).spec_main().rect.height == old(self).spec_main().rect.height,
            final(self).spec_main().opacity == old(self).spec_main().opacity,
            final(self).spec_main().state == old(self).spec_main().state,
            final(self).spec_main().visible == old(self).spec_main().visible,
            final(self).spec_main().snapped == old(self).spec_main().snapped,
            final(self).spec_main().last_set_pos == old(self).spec_main().last_set_pos,
            final(self).spec_main().just_resized == old(self).spec_main().just_resized,
            final(self).spec_persona() == old(self).spec_persona(),
            final(self).spec_chat() == old(self).spec_chat(),
            final(self).spec_callout() == old(self).spec_callout(),
            final(self).spec_snap_config() == old(self).spec_snap_config(),
    {
        self.main_window.rect.x = x;
        self.main_window.rect.y = y;
    }

    /// Record the primary window's size.
    pub fn set_main_size(&mut self, w: u32, h: u32)
        ensures
            final(self).spec_main().rect.width == w,
            final(self).spec_main().rect.height == h,
            final(self).spec_main().rect.x == old(self).spec_main().rect.x,
            final(self).spec_main().rect.y == old(self).spec_main().rect.y,
            final(self).spec_main().opacity == old(self).spec_main().opacity,
            final(self).spec_main().state == old(self).spec_main().state,
            final(self).spec_main().visible == old(self).spec_main().visible,
            final(self).spec_main().snapped == old(self).spec_main().snapped,
            final(self).spec_main().last_set_pos == old(self).spec_main().last_set_pos,
            final(self).spec_main().just_resized == old(self).spec_main().just_resized,
            final(self).spec_persona() == old(self).spec_persona(),
            final(self).spec_chat() == old(self).spec_chat(),
            final(self).spec_callout() == old(self).spec_callout(),
            final(self).spec_snap_config() == old(self).spec_snap_config(),
    {
        self.main_window.rect.width = w;
        self.main_window.rect.height = h;
    }

    /// Record the primary window's focus state.
    pub fn set_main_state(&mut self, state: WinState)
        ensures
            final(self).spec_main().state == state,
            final(self).spec_main().rect == old(self).spec_main().rect,
            final(self).spec_main().opacity == old(self).spec_main().opacity,
            final(self).spec_main().visible == old(self).spec_main().visible,
            final(self).spec_main().snapped == old(self).spec_main().snapped,
            final(self).spec_main().last_set_pos == old(self).spec_main().last_set_pos,
            final(self).spec_main().just_resized == old(self).spec_main().just_resized,
            final(self).spec_persona() == old(self).spec_persona(),
            final(self).spec_chat() == old(self).spec_chat(),
            final(self).spec_callout() == old(self).spec_callout(),
            final(self).spec_snap_config() == old(self).spec_snap_config(),
    {
        self.main_window.state = state;
    }

    /// Record the primary window's opacity, in thousandths.
    pub fn set_main_opacity(&mut self, opacity: u32)
        ensures
            final(self).spec_main().opacity == opacity,
            final(self).spec_main().rect == old(self).spec_main().rect,
            final(self).spec_main().state == old(self).spec_main().state,
            final(self).spec_main().visible == old(self).spec_main().visible,
            final(self).spec_main().snapped == old(self).spec_main().snapped,
            final(self).spec_main().last_set_pos == old(self).spec_main().last_set_pos,
            final(self).spec_main().just_resized == old(self).spec_main().just_resized,
            final(self).spec_persona() == old(self).spec_persona(),
            final(self).spec_chat() == old(self).spec_chat(),
            final(self).spec_callout() == old(self).spec_callout(),
            final(self).spec_snap_config() == old(self).spec_snap_config(),
    {
        self.main_window.opacity = opacity;
    }

    /// Record whether the primary window has focus.
    pub fn set_main_focused(&mut self, focused: bool)
        ensures
            final(self).spec_main().state == (if focused {
                WinState::Focused
            } else {
                WinState::Behind
            }),
            final(self).spec_main().rect == old(self).spec_main().rect,
            final(self).spec_main().opacity == old(self).spec_main().opacity,
            final(self).spec_main().visible == old(self).spec_main().visible,
            final(self).spec_main().snapped == old(self).spec_main().snapped,
            final(self).spec_main().last_set_pos == old(self).spec_main().last_set_pos,
            final(self).spec_main().just_resized == old(self).spec_main().just_resized,
            final(self).spec_persona() == old(self).spec_persona(),
            final(self).spec_chat() == old(self).spec_chat(),
            final(self).spec_callout() == old(self).spec_callout(),
            final(self).spec_snap_config() == old(self).spec_snap_config(),
    {
        self.main_window.state = if focused {
            WinState::Focused
        } else {
            WinState::Behind
        };
    }

    /// The chat window's shared state.
    pub fn chat_window(&self) -> (r: WindowState)
        ensures
            r == self.spec_chat(),
    {
        self.chat_window
    }

    /// Whether the chat window is shown.
    pub fn chat_visible(&self) -> (r: bool)
        ensures
            r == self.spec_chat().visible,
    {
        self.chat_window.visible
    }

    /// Whether the chat window is glued to the primary window.
    pub fn chat_snapped(&self) -> (r: bool)
        ensures
            r == self.spec_chat().snapped,
    {
        self.chat_window.snapped
    }

    /// Record whether the chat window is shown.
    pub fn set_chat_visible(&mut self, v: bool)
        ensures
            final(self).spec_chat().visible == v,
            final(self).spec_chat().rect == old(self).spec_chat().rect,
            final(self).spec_chat().opacity == old(self).spec_chat().opacity,
            final(self).spec_chat().state == old(self).spec_chat().state,
            final(self).spec_chat().snapped == old(self).spec_chat().snapped,
            final(self).spec_chat().last_set_pos == old(self).spec_chat().last_set_pos,
            final(self).spec_chat().just_resized == old(self).spec_chat().just_resized,
            final(self).spec_persona() == old(self).spec_persona(),
            final(self).spec_main() == old(self).spec_main(),
            final(self).spec_callout() == old(self).spec_callout(),
            final(self).spec_snap_config() == old(self).spec_snap_config(),
    {
        self.chat_window.visible = v;
    }

    /// Record whether the chat window is glued to the primary window.
    pub fn set_chat_snapped(&mut self, v: bool)
        ensures
            final(self).spec_chat().snapped == v,
            final(self).spec_chat().rect == old(self).spec_chat().rect,
            final(self).spec_chat().opacity == old(self).spec_chat().opacity,
            final(self).spec_chat().state == old(self).spec_chat().state,
            final(self).spec_chat().visible == old(self).spec_chat().visible,
            final(self).spec_chat().last_set_pos == old(self).spec_chat().last_set_pos,
            final(self).spec_chat().just_resized == old(self).spec_chat().just_resized,
            final(self).spec_persona() == old(self).spec_persona(),
            final(self).spec_main() == old(self).spec_main(),
            final(self).spec_callout() == old(self).spec_callout(),
            final(self).spec_snap_config() == old(self).spec_snap_config(),
    {
        self.chat_window.snapped = v;
    }

    /// Record the chat window's position.
    pub fn set_chat_pos(&mut self, x: i32, y: i32)
        ensures
            final(self).spec_chat().rect.x == x,
            final(self).spec_chat().rect.y == y,
            final(self).spec_chat().rect.width == old(self).spec_chat().rect.width,
            final(self).spec_chat().rect.height == old(self).spec_chat().rect.height,
            final(self).spec_chat().opacity == old(self).spec_chat().opacity,
            final(self).spec_chat().state == old(self).spec_chat().state,
            final(self).spec_chat().visible == old(self).spec_chat().visible,
            final(self).spec_chat().snapped == old(self).spec_chat().snapped,
            final(self).spec_chat().last_set_pos == old(self).spec_chat().last_set_pos,
            final(self).spec_chat().just_resized == old(self).spec_chat().just_resized,
            final(self).spec_persona() == old(self).spec_persona(),
            final(self).spec_main() == old(self).spec_main(),
            final(self).spec_callout() == old(self).spec_callout(),
            final(self).spec_snap_config() == old(self).spec_snap_config(),
    {
        self.chat_window.rect.x = x;
        self.chat_window.rect.y = y;
    }

    /// The last chat position that was set programmatically.
    pub fn chat_last_set_pos(&self) -> (r: (i32, i32))
        ensures
            r == self.spec_chat().last_set_pos,
    {
        self.chat_window.last_set_pos
    }

    /// Record the last chat position that was set programmatically.
    pub fn set_chat_last_set_pos(&mut self, x: i32, y: i32)
        ensures
            final(self).spec_chat().last_set_pos == (x, y),
            final(self).spec_chat().rect == old(self).spec_chat().rect,
            final(self).spec_chat().opacity == old(self).spec_chat().opacity,
            final(self).spec_chat().state == old(self).spec_chat().state,
            final(self).spec_chat().visible == old(self).spec_chat().visible,
            final(self).spec_chat().snapped == old(self).spec_chat().snapped,
            final(self).spec_chat().just_resized == old(self).spec_chat().just_resized,
            final(self).spec_persona() == old(self).spec_persona(),
            final(self).spec_main() == old(self).spec_main(),
            final(self).spec_callout() == old(self).spec_callout(),
            final(self).spec_snap_config() == old(self).spec_snap_config(),
    {
        self.chat_window.last_set_pos = (x, y);
    }

    /// Whether a resize was just recorded for the chat window.
    pub fn chat_just_resized(&self) -> (r: bool)
        ensures
            r == self.spec_chat().just_resized,
    {
        self.chat_window.just_resized
    }

    /// Record that the chat window was just resized, so that the next move
    /// event is not mistaken for a user drag.
    pub fn set_chat_just_resized(&mut self, v: bool)
        ensures
            final(self).spec_chat().just_resized == v,
            final(self).spec_chat().rect == old(self).spec_chat().rect,
            final(self).spec_chat().opacity == old(self).spec_chat().opacity,
            final(self).spec_chat().state == old(self).spec_chat().state,
            final(self).spec_chat().visible == old(self).spec_chat().visible,
            final(self).spec_chat().snapped == old(self).spec_chat().snapped,
            final(self).spec_chat().last_set_pos == old(self).spec_chat().last_set_pos,
            final(self).spec_persona() == old(self).spec_persona(),
            final(self).spec_main() == old(self).spec_main(),
            final(self).spec_callout() == old(self).spec_callout(),
            final(self).spec_snap_config() == old(self).spec_snap_config(),
    {
        self.chat_window.just_resized = v;
    }

    /// Whether the callout window is shown.
    pub fn callout_visible(&self) -> (r: bool)
        ensures
            r == self.spec_callout().visible,
    {
        self.callout_window.visible
    }

    /// Record whether the callout window is shown.
    pub fn set_callout_visible(&mut self, v: bool)
        ensures
            final(self).spec_callout().visible == v,
            final(self).spec_callout().rect == old(self).spec_callout().rect,
            final(self).spec_callout().opacity == old(self).spec_callout().opacity,
            final(self).spec_callout().state == old(self).spec_callout().state,
            final(self).spec_callout().snapped == old(self).spec_callout().snapped,
            final(self).spec_callout().last_set_pos == old(self).spec_callout().last_set_pos,
            final(self).spec_callout().just_resized == old(self).spec_callout().just_resized,
            final(self).spec_persona() == old(self).spec_persona(),
            final(self).spec_main() == old(self).spec_main(),
            final(self).spec_chat() == old(self).spec_chat(),
            final(self).spec_snap_config() == old(self).spec_snap_config(),
    {
        self.callout_window.visible = v;
    }

    /// The snap configuration.
    pub fn snap_config(&self) -> (r: SnapConfig)
        ensures
            r == self.spec_snap_config(),
    {
        self.snap_config
    }

    /// Replace the snap configuration.
    pub fn set_snap_config(&mut self, config: SnapConfig)
        ensures
            final(self).spec_snap_config() == config,
            final(self).spec_persona() == old(self).spec_persona(),
            final(self).spec_main() == old(self).spec_main(),
            final(self).spec_chat() == old(self).spec_chat(),
            final(self).spec_callout() == old(self).spec_callout(),
    {
        self.snap_config = config;
    }

    /// Where a snapped chat window belongs right now.
    pub fn chat_target(&self) -> (r: (i32, i32))
        ensures
            r.0 as int == self.spec_chat_target().0,
            r.1 as int == self.spec_chat_target().1,
    {
        let (mx, my) = self.main_pos();
        let off = self.snap_config.scaled_extra_offset;
        (sat_add_i32(mx, off[0]), sat_add_i32(my, off[1]))
    }

    /// Reattach the chat window on becoming visible: force it snapped and
    /// re-acquire the anchor position rather than trusting stale placement.
    /// Returns where the window must be moved.
    pub fn chat_on_show(&mut self) -> (r: (i32, i32))
        ensures
            r.0 as int == old(self).spec_chat_target().0,
            r.1 as int == old(self).spec_chat_target().1,
            final(self).spec_chat().snapped,
            final(self).spec_chat().last_set_pos == r,
            final(self).spec_chat().rect == old(self).spec_chat().rect,
            final(self).spec_chat().opacity == old(self).spec_chat().opacity,
            final(self).spec_chat().state == old(self).spec_chat().state,
            final(self).spec_chat().visible == old(self).spec_chat().visible,
            final(self).spec_chat().just_resized == old(self).spec_chat().just_resized,
            final(self).spec_persona() == old(self).spec_persona(),
            final(self).spec_main() == old(self).spec_main(),
            final(self).spec_callout() == old(self).spec_callout(),
            final(self).spec_snap_config() == old(self).spec_snap_config(),
    {
        let target = self.chat_target();
        self.chat_window.snapped = true;
        self.chat_window.last_set_pos = target;
        target
    }

    /// Follow the primary window: a visible, snapped chat window whose
    /// anchor target moved away from the last set position must be
    /// repositioned onto the target; anything else stays put.  Returns the
    /// reposition target, if one is due.
    pub fn chat_follow(&mut self) -> (r: Option<(i32, i32)>)
        ensures
            final(self).spec_persona() == old(self).spec_persona(),
            final(self).spec_main() == old(self).spec_main(),
            final(self).spec_callout() == old(self).spec_callout(),
            final(self).spec_snap_config() == old(self).spec_snap_config(),
            ({
                let t = old(self).spec_chat_target();
                let due = old(self).spec_chat().visible && old(self).spec_chat().snapped && !(
                t.0 == old(self).spec_chat().last_set_pos.0 as int && t.1 == old(
                    self,
                ).spec_chat().last_set_pos.1 as int);
                if due {
                    &&& r matches Some(p) && p.0 as int == t.0 && p.1 as int == t.1
                    &&& final(self).spec_chat().last_set_pos.0 as int == t.0
                    &&& final(self).spec_chat().last_set_pos.1 as int == t.1
                    &&& final(self).spec_chat().rect == old(self).spec_chat().rect
                    &&& final(self).spec_chat().snapped == old(self).spec_chat().snapped
                    &&& final(self).spec_chat().visible == old(self).spec_chat().visible
                    &&& final(self).spec_chat().opacity == old(self).spec_chat().opacity
                    &&& final(self).spec_chat().state == old(self).spec_chat().state
                    &&& final(self).spec_chat().just_resized == old(self).spec_chat().just_resized
                } else {
                    r is None && final(self).spec_chat() == old(self).spec_chat()
                }
            }),
    {
        if self.chat_window.visible && self.chat_window.snapped {
            let target = self.chat_target();
            let last = self.chat_window.last_set_pos;
            if target.0 != last.0 || target.1 != last.1 {
                self.chat_window.last_set_pos = target;
                return Some(target);
            }
        }
        None
    }

    /// Judge an observed chat-window move.  Right after a resize the move
    /// is the platform's own echo: clear the mark and keep the tracked
    /// position current.  Otherwise a snapped window that drifted beyond
    /// `unsnap_tolerance` from the last set position was dragged by the
    /// user and comes unsnapped, and an unsnapped window dropped within
    /// `snap_tolerance` of its anchor point snaps back on.  Returns where
    /// the window must be moved, if anywhere.
    pub fn chat_on_moved(&mut self, x: i32, y: i32, unsnap_tolerance: i64, snap_tolerance: i64)
        -> (r: Option<(i32, i32)>)
        ensures
            final(self).spec_persona() == old(self).spec_persona(),
            final(self).spec_main() == old(self).spec_main(),
            final(self).spec_callout() == old(self).spec_callout(),
            final(self).spec_snap_config() == old(self).spec_snap_config(),
            final(self).spec_chat().rect == old(self).spec_chat().rect,
            final(self).spec_chat().opacity == old(self).spec_chat().opacity,
            final(self).spec_chat().state == old(self).spec_chat().state,
            final(self).spec_chat().visible == old(self).spec_chat().visible,
            old(self).spec_chat().just_resized ==> {
                &&& r is None
                &&& !final(self).spec_chat().just_resized
                &&& final(self).spec_chat().snapped == old(self).spec_chat().snapped
                &&& final(self).spec_chat().last_set_pos == (if old(self).spec_chat().snapped {
                    (x, y)
                } else {
                    old(self).spec_chat().last_set_pos
                })
            },
            !old(self).spec_chat().just_resized ==> {
                &&& final(self).spec_chat().just_resized == old(self).spec_chat().just_resized
                &&& (old(self).spec_chat().snapped ==> {
                    let dragged_away = spec_beyond(
                        x as int,
                        old(self).spec_chat().last_set_pos.0 as int,
                        unsnap_tolerance as int,
                    ) || spec_beyond(
                        y as int,
                        old(self).spec_chat().last_set_pos.1 as int,
                        unsnap_tolerance as int,
                    );
                    &&& r is None
                    &&& final(self).spec_chat().snapped == !dragged_away
                    &&& final(self).spec_chat().last_set_pos == old(self).spec_chat().last_set_pos
                })
                &&& (!old(self).spec_chat().snapped ==> {
                    let t = old(self).spec_chat_target();
                    let near_anchor = !spec_beyond(x as int, t.0, snap_tolerance as int)
                        && !spec_beyond(y as int, t.1, snap_tolerance as int);
                    if near_anchor {
                        &&& r matches Some(p) && p.0 as int == t.0 && p.1 as int == t.1
                        &&& final(self).spec_chat().snapped
                        &&& final(self).spec_chat().last_set_pos.0 as int == t.0
                        &&& final(self).spec_chat().last_set_pos.1 as int == t.1
                    } else {
                        &&& r is None
                        &&& !final(self).spec_chat().snapped
                        &&& final(self).spec_chat().last_set_pos == old(
                            self,
                        ).spec_chat().last_set_pos
                    }
                })
            },
    {
        if self.chat_window.just_resized {
            self.chat_window.just_resized = false;
            if self.chat_window.snapped {
                self.chat_window.last_set_pos = (x, y);
            }
            return None;
        }
        if self.chat_window.snapped {
            let last = self.chat_window.last_set_pos;
            let dx: i64 = x as i64 - last.0 as i64;
            let dy: i64 = y as i64 - last.1 as i64;
            if dx > unsnap_tolerance || -dx > unsnap_tolerance || dy > unsnap_tolerance || -dy
                > unsnap_tolerance {
                self.chat_window.snapped = false;
            }
            None
        } else {
            let target = self.chat_target();
            let dx: i64 = x as i64 - target.0 as i64;
            let dy: i64 = y as i64 - target.1 as i64;
            if dx <= snap_tolerance && -dx <= snap_tolerance && dy <= snap_tolerance && -dy
                <= snap_tolerance {
                self.chat_window.snapped = true;
                self.chat_window.last_set_pos = target;
                Some(target)
            } else {
                None
            }
        }
    }

    /// Record a chat-window resize: the next observed move event is the
    /// platform's echo of it, not a user drag.
    pub fn chat_on_resized(&mut self)
        ensures
            final(self).spec_chat().just_resized,
            final(self).spec_chat().rect == old(self).spec_chat().rect,
            final(self).spec_chat().opacity == old(self).spec_chat().opacity,
            final(self).spec_chat().state == old(self).spec_chat().state,
            final(self).spec_chat().visible == old(self).spec_chat().visible,
            final(self).spec_chat().snapped == old(self).spec_chat().snapped,
            final(self).spec_chat().last_set_pos == old(self).spec_chat().last_set_pos,
            final(self).spec_persona() == old(self).spec_persona(),
            final(self).spec_main() == old(self).spec_main(),
            final(self).spec_callout() == old(self).spec_callout(),
            final(self).spec_snap_config() == old(self).spec_snap_config(),
    {
        self.chat_window.just_resized = true;
    }
}

/// How a callout window is placed next to the primary window: its offset
/// from the primary window's origin and its own size.
#[derive(Debug, Clone, Copy)]
pub struct CalloutWindowConfig {
    /// Offset from the primary window's origin, in pixels.
    pub offset: [i32; 2],
    /// The callout window's width and height.
    pub size: (u32, u32),
}

/// Where any satellite glued at `(offset_x, offset_y)` belongs once the
/// primary window stands at `(main_x, main_y)`.
pub fn satellite_target(main_x: i32, main_y: i32, offset_x: i32, offset_y: i32) -> (r: (i32, i32))
    ensures
        r.0 as int == spec_sat_add(main_x as int, offset_x as int),
        r.1 as int == spec_sat_add(main_y as int, offset_y as int),
{
    (sat_add_i32(main_x, offset_x), sat_add_i32(main_y, offset_y))
}

} // verus!
