//! Per-pixel alpha masks for pixel-accurate click-through hit-testing.
//!
//! A mask holds one alpha byte per sprite pixel, row-major from the top-left.
//! Hit-testing asks whether the pixel under a cursor is "solid": alpha above
//! a threshold.  Out-of-bounds coordinates are transparent by design, so a
//! click outside the sprite always passes through.

use vstd::prelude::*;

verus! {

/// Whether the pixel at `(x, y)` of a `w` x `h` alpha plane is solid: in
/// bounds, backed by data, and with alpha strictly above `threshold`.
pub open spec fn spec_hit(alpha: Seq<u8>, w: nat, h: nat, x: nat, y: nat, threshold: u8) -> bool {
    if x >= w || y >= h {
        false
    } else if y * w + x >= alpha.len() {
        false
    } else {
        alpha[(y * w + x) as int] > threshold
    }
}

/// Whether a cursor at `(cx, cy)` inside a `ww` x `wh` window lands on a
/// solid pixel of the mask, after scaling window coordinates down to mask
/// coordinates.  A degenerate window is never solid.
pub open spec fn spec_hit_scaled(
    alpha: Seq<u8>,
    w: nat,
    h: nat,
    cx: nat,
    cy: nat,
    ww: nat,
    wh: nat,
    threshold: u8,
) -> bool {
    if ww == 0 || wh == 0 {
        false
    } else {
        spec_hit(alpha, w, h, cx * w / ww, cy * h / wh, threshold)
    }
}

/// The hit-test verdict is decided by the threshold alone: a pixel whose
/// alpha is at or below the threshold is never clickable, one strictly
/// above it always is, and out-of-bounds coordinates are never clickable.
pub proof fn lemma_hit_threshold(alpha: Seq<u8>, w: nat, h: nat, x: nat, y: nat, threshold: u8)
    ensures
        (x >= w || y >= h) ==> !spec_hit(alpha, w, h, x, y, threshold),
        (x < w && y < h && y * w + x < alpha.len() && alpha[(y * w + x) as int] <= threshold)
            ==> !spec_hit(alpha, w, h, x, y, threshold),
        (x < w && y < h && y * w + x < alpha.len() && alpha[(y * w + x) as int] > threshold)
            ==> spec_hit(alpha, w, h, x, y, threshold),
{
}

/// An immutable per-sprite alpha plane used only for hit-testing.
pub struct AlphaMask {
    alpha: Vec<u8>,
    width: u32,
    height: u32,
}

impl AlphaMask {
    /// The alpha bytes, row-major top-to-bottom.
    pub closed spec fn spec_alpha(&self) -> Seq<u8> {
        self.alpha@
    }

    /// Mask width in sprite pixels.
    pub closed spec fn spec_width(&self) -> u32 {
        self.width
    }

    /// Mask height in sprite pixels.
    pub closed spec fn spec_height(&self) -> u32 {
        self.height
    }

    /// One alpha byte exists for every pixel.
    pub open spec fn wf(&self) -> bool {
        self.spec_alpha().len() == (self.spec_width() as nat) * (self.spec_height() as nat)
    }

    /// Build a mask from an alpha plane; refused unless the plane holds
    /// exactly one byte per pixel.
    pub fn new(alpha: Vec<u8>, width: u32, height: u32) -> (r: Option<AlphaMask>)
        ensures
            match r {
                Some(m) => m.wf() && m.spec_alpha() == alpha@ && m.spec_width() == width
                    && m.spec_height() == height,
                None => alpha@.len() != (width as nat) * (height as nat),
            },
    {
        proof {
            assert((width as nat) * (height as nat) < 0x10000000000000000) by (nonlinear_arith)
                requires
                    (width as nat) < 0x100000000,
                    (height as nat) < 0x100000000,
            ;
        }
        let expected: u64 = (width as u64) * (height as u64);
        if alpha.len() as u64 == expected {
            Some(AlphaMask { alpha, width, height })
        } else {
            None
        }
    }

    /// Mask width in sprite pixels.
    pub fn width(&self) -> (r: u32)
        ensures
            r == self.spec_width(),
    {
        self.width
    }

    /// Mask height in sprite pixels.
    pub fn height(&self) -> (r: u32)
        ensures
            r == self.spec_height(),
    {
        self.height
    }

    /// Whether the pixel at `(x, y)` in sprite coordinates is solid: alpha
    /// strictly above `threshold`.  Out-of-bounds pixels are transparent.
    pub fn hit_test(&self, x: u32, y: u32, threshold: u8) -> (r: bool)
        ensures
            r == spec_hit(
                self.spec_alpha(),
                self.spec_width() as nat,
                self.spec_height() as nat,
                x as nat,
                y as nat,
                threshold,
            ),
    {
        if x >= self.width || y >= self.height {
            return false;
        }
        proof {
            crate::geom::lemma_u32_mul_fits(y as nat, self.width as nat);
        }
        let index: u64 = (y as u64) * (self.width as u64) + (x as u64);
        if index >= self.alpha.len() as u64 {
            return false;
        }
        self.alpha[index as usize] > threshold
    }

    /// Whether a cursor at `(cx, cy)` in the physical pixels of a `win_w` x
    /// `win_h` window lands on a solid sprite pixel, scaling the cursor from
    /// window space into sprite space by the ratio of the two sizes.
    pub fn hit_test_scaled(&self, cx: u32, cy: u32, win_w: u32, win_h: u32, threshold: u8) -> (r:
        bool)
        ensures
            r == spec_hit_scaled(
                self.spec_alpha(),
                self.spec_width() as nat,
                self.spec_height() as nat,
                cx as nat,
                cy as nat,
                win_w as nat,
                win_h as nat,
                threshold,
            ),
    {
        if win_w == 0 || win_h == 0 {
            return false;
        }
        proof {
            assert((cx as nat) * (self.spec_width() as nat) < 0x10000000000000000)
                by (nonlinear_arith)
                requires
                    (cx as nat) < 0x100000000,
                    (self.spec_width() as nat) < 0x100000000,
            ;
            assert((cy as nat) * (self.spec_height() as nat) < 0x10000000000000000)
                by (nonlinear_arith)
                requires
                    (cy as nat) < 0x100000000,
                    (self.spec_height() as nat) < 0x100000000,
            ;
        }
        let sx: u64 = (cx as u64) * (self.width as u64) / (win_w as u64);
        let sy: u64 = (cy as u64) * (self.height as u64) / (win_h as u64);
        if sx >= self.width as u64 || sy >= self.height as u64 {
            // The scaled coordinate fits in sprite space only when it is in
            // bounds; anything else is transparent, as spec_hit agrees.
            return false;
        }
        self.hit_test(sx as u32, sy as u32, threshold)
    }
}

} // verus!
