//! Identifiers and states for the small interactive elements drawn over a
//! window: buttons and labels.
//!
//! Buttons declared in configuration are addressed by a stable numeric
//! identifier derived from their configured name by a small polynomial
//! hash, so that the renderer and the action dispatcher agree on which
//! button was clicked.

use vstd::prelude::*;
use vstd::string::StringSliceAdditionalSpecFns;

verus! {

/// Coordinate origin for element positioning.
#[derive(Debug, Clone, Copy, PartialEq, Eq, Structural)]
pub enum Origin {
    /// The window's top-left corner, as screen coordinates go.
    TopLeft,
    /// The window's bottom-left corner.
    BottomLeft,
}

impl Default for Origin {
    /// Elements are placed from the bottom left unless told otherwise.
    fn default() -> (r: Origin)
        ensures
            r == Origin::BottomLeft,
    {
        Origin::BottomLeft
    }
}

/// A button's identifier.
#[derive(Debug, Clone, Copy, PartialEq, Eq, Hash, Structural)]
pub struct ButtonId(pub u32);

impl ButtonId {
    /// Wrap a raw identifier.
    pub fn new(id: u32) -> (r: ButtonId)
        ensures
            r.0 == id,
    {
        ButtonId(id)
    }
}

/// A button's visual state.
#[derive(Debug, Clone, Copy, PartialEq, Eq, Structural)]
pub enum ButtonState {
    Normal,
    Hover,
    Pressed,
}

impl Default for ButtonState {
    /// Buttons start out plain.
    fn default() -> (r: ButtonState)
        ensures
            r == ButtonState::Normal,
    {
        ButtonState::Normal
    }
}

/// A label's identifier.
#[derive(Debug, Clone, Copy, PartialEq, Eq, Hash, Structural)]
pub struct LabelId(pub u32);

impl LabelId {
    /// Wrap a raw identifier.
    pub fn new(id: u32) -> (r: LabelId)
        ensures
            r.0 == id,
    {
        LabelId(id)
    }
}

/// A label's font style.
#[derive(Debug, Clone, Copy, PartialEq, Eq, Structural)]
pub enum FontStyle {
    Normal,
    Bold,
    Italic,
}

impl Default for FontStyle {
    /// Labels are set in the plain face unless told otherwise.
    fn default() -> (r: FontStyle)
        ensures
            r == FontStyle::Normal,
    {
        FontStyle::Normal
    }
}

/// The 32-bit polynomial hash of a byte sequence with base 31: each byte is
/// folded in as `hash * 31 + byte`, wrapping modulo 2^32.
pub open spec fn spec_name_hash(bytes: Seq<u8>) -> nat
    decreases bytes.len(),
{
    if bytes.len() == 0 {
        0
    } else {
        ((spec_name_hash(bytes.drop_last()) * 31 + bytes.last()) % 0x100000000) as nat
    }
}

/// The button identifier a configured name denotes: the polynomial hash of
/// its UTF-8 bytes.
pub fn button_id_from_string(s: &str) -> (r: ButtonId)
    ensures
        r.0 as nat == spec_name_hash(s.spec_bytes()),
{
    let bytes = s.as_bytes();
    let n = bytes.len();
    let mut acc: u64 = 0;
    let mut i: usize = 0;
    while i < n
        invariant
            i <= n,
            n == bytes@.len(),
            bytes@ == s.spec_bytes(),
            acc < 0x100000000,
            acc as nat == spec_name_hash(bytes@.take(i as int)),
        decreases n - i,
    {
        let b = bytes[i];
        acc = (acc * 31 + b as u64) % 0x100000000;
        proof {
            assert(bytes@.take(i as int + 1).drop_last() =~= bytes@.take(i as int));
            assert(bytes@.take(i as int + 1).last() == bytes@[i as int]);
        }
        i += 1;
    }
    proof {
        assert(bytes@.take(n as int) =~= bytes@);
    }
    ButtonId(acc as u32)
}

/// The button identifier a configured name denotes.
pub fn get_button_id(name: &str) -> (r: ButtonId)
    ensures
        r.0 as nat == spec_name_hash(name.spec_bytes()),
{
    button_id_from_string(name)
}

} // verus!
