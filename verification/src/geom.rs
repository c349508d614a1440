//! Window-size clamping against the GPU texture ceiling.
//!
//! A window surface may not exceed the texture size the GPU guarantees; an
//! oversized request is scaled down so that the longer axis lands exactly on
//! the ceiling and the shorter axis keeps the requested aspect ratio up to
//! integer rounding.

use vstd::prelude::*;

verus! {

/// Conservative ceiling on a window surface dimension, in physical pixels.
/// Kept well under what most GPUs support so that surface creation never
/// fails on common hardware.
pub const MAX_TEXTURE_SIZE: u32 = 2048;

/// The product of two values below 2^32 fits in 64 bits.
pub proof fn lemma_u32_mul_fits(a: nat, b: nat)
    requires
        a < 0x100000000,
        b < 0x100000000,
    ensures
        a * b <= 0xfffffffe00000001,
{
    assert(a * b <= 0xfffffffe00000001) by (nonlinear_arith)
        requires
            a < 0x100000000,
            b < 0x100000000,
    ;
}

/// Multiplication is monotone: factors bounded above bound the product.
pub proof fn lemma_mul_le(a: nat, b: nat, c: nat, d: nat)
    requires
        a <= c,
        b <= d,
    ensures
        a * b <= c * d,
{
    assert(a * b <= c * d) by (nonlinear_arith)
        requires
            a <= c,
            b <= d,
    ;
}

/// Division rounded to the nearest integer (halves round up): `round(a / b)`.
pub open spec fn round_div(a: nat, b: nat) -> nat
    recommends
        b > 0,
{
    (2 * a + b) / (2 * b)
}

/// The dimensions `clamp_to_max_size` owes: a request already inside the
/// ceiling is kept; otherwise the longer axis is set to `max` and the other
/// axis is scaled in proportion, rounded to the nearest pixel.
pub open spec fn spec_clamp_to_max_size(w: nat, h: nat, max: nat) -> (nat, nat)
    recommends
        w > 0,
        h > 0,
{
    if w <= max && h <= max {
        (w, h)
    } else if w > h {
        (max, if round_div(max * h, w) <= max { round_div(max * h, w) } else { max })
    } else {
        (if round_div(max * w, h) <= max { round_div(max * w, h) } else { max }, max)
    }
}

/// Clamp `(width, height)` to fit within `max_size` on both axes while
/// keeping the aspect ratio of the oversized request.
pub fn clamp_to_max_size(width: u32, height: u32, max_size: u32) -> (r: (u32, u32))
    requires
        width > 0 || height > 0,
    ensures
        (r.0 as nat, r.1 as nat) == spec_clamp_to_max_size(
            width as nat,
            height as nat,
            max_size as nat,
        ),
{
    if width <= max_size && height <= max_size {
        return (width, height);
    }

    if width > height {
        assert(width >= 1);
        proof {
            assert((max_size as nat) * (height as nat) < 0x10000000000000000) by (nonlinear_arith)
                requires
                    (max_size as nat) < 0x100000000,
                    (height as nat) < 0x100000000,
            ;
        }
        let num: u128 = (max_size as u128) * (height as u128) * 2 + (width as u128);
        let den: u128 = 2 * (width as u128);
        assert(num as nat == 2 * ((max_size as nat) * (height as nat)) + width as nat);
        let q: u128 = num / den;
        assert(q as nat == round_div((max_size as nat) * (height as nat), width as nat));
        let new_height: u32 = if q <= max_size as u128 {
            q as u32
        } else {
            max_size
        };
        (max_size, new_height)
    } else {
        assert(height >= 1);
        proof {
            assert((max_size as nat) * (width as nat) < 0x10000000000000000) by (nonlinear_arith)
                requires
                    (max_size as nat) < 0x100000000,
                    (width as nat) < 0x100000000,
            ;
        }
        let num: u128 = (max_size as u128) * (width as u128) * 2 + (height as u128);
        let den: u128 = 2 * (height as u128);
        assert(num as nat == 2 * ((max_size as nat) * (width as nat)) + height as nat);
        let q: u128 = num / den;
        assert(q as nat == round_div((max_size as nat) * (width as nat), height as nat));
        let new_width: u32 = if q <= max_size as u128 {
            q as u32
        } else {
            max_size
        };
        (new_width, max_size)
    }
}

/// Bounds on the proportional scaling of the short side: with long side `l`
/// scaled onto `m`, the rounded short side `q` stays within half a pixel of
/// the exact ratio (as a cross product) and never exceeds `m`.
proof fn lemma_round_div_bound(m: nat, s: nat, l: nat)
    requires
        0 < m,
        0 < s <= l,
    ensures
        2 * (round_div(m * s, l) * l) <= 2 * (m * s) + l,
        2 * (m * s) <= 2 * (round_div(m * s, l) * l) + l,
        round_div(m * s, l) <= m,
{
    let q = round_div(m * s, l);
    let a = 2 * (m * s) + l;
    let b = 2 * l;
    vstd::arithmetic::div_mod::lemma_fundamental_div_mod(a as int, b as int);
    vstd::arithmetic::div_mod::lemma_mod_bound(a as int, b as int);
    assert(a == b * (a / b) + a % b);
    assert(0 <= a % b < b);
    assert(q == a / b);
    assert(2 * (q * l) == b * (a / b)) by (nonlinear_arith)
        requires
            q == a / b,
            b == 2 * l,
    ;
    assert(2 * (q * l) <= a);
    assert(a < 2 * (q * l) + 2 * l);
    // q <= m: the scaled short side cannot pass the ceiling.
    assert(2 * (m * s) + l <= 2 * (m * l) + l) by (nonlinear_arith)
        requires
            s <= l,
            m > 0,
    ;
    assert(2 * (m * l) + l < 2 * ((m + 1) * l)) by (nonlinear_arith)
        requires
            l > 0,
    ;
    assert(q * l < (m + 1) * l);
    assert(q <= m) by (nonlinear_arith)
        requires
            q * l < (m + 1) * l,
            l > 0,
    ;
}

/// A request that exceeds the ceiling on either axis is scaled down
/// proportionally: both clamped axes fit under `max`, and the cross products
/// `clamped_short * long` and `max * short` differ by at most half of `long`,
/// so the pre-resize aspect ratio is preserved within one pixel of rounding.
pub proof fn lemma_clamp_preserves_aspect(w: nat, h: nat, max: nat)
    requires
        0 < max,
        0 < w,
        0 < h,
        max < w || max < h,
    ensures
        spec_clamp_to_max_size(w, h, max).0 <= max,
        spec_clamp_to_max_size(w, h, max).1 <= max,
        w > h ==> spec_clamp_to_max_size(w, h, max).0 == max && 2 * (spec_clamp_to_max_size(
            w,
            h,
            max,
        ).1 * w) <= 2 * (max * h) + w && 2 * (max * h) <= 2 * (spec_clamp_to_max_size(w, h, max).1
            * w) + w,
        w <= h ==> spec_clamp_to_max_size(w, h, max).1 == max && 2 * (spec_clamp_to_max_size(
            w,
            h,
            max,
        ).0 * h) <= 2 * (max * w) + h && 2 * (max * w) <= 2 * (spec_clamp_to_max_size(w, h, max).0
            * h) + h,
{
    if w > h {
        lemma_round_div_bound(max, h, w);
    } else {
        lemma_round_div_bound(max, w, h);
    }
}

} // verus!
