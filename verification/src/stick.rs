//! The deadzone normalizer: converts a raw analog-stick pair into a
//! deadzone-compensated vector.
//!
//! The normalizer is radial: the Euclidean length of the raw pair is
//! compared against the deadzone, so diagonal input is not distorted by a
//! square "dead box".  Inside the deadzone the stick counts as centered;
//! outside it the raw vector is rescaled to ramp smoothly from zero at the
//! deadzone boundary to full scale at the physical maximum.
//!
//! Results are fixed-point: a component of [`NORM_ONE`] stands for 1.0.

use vstd::arithmetic::div_mod::{lemma_div_by_multiple, lemma_div_is_ordered};
use vstd::prelude::*;

verus! {

/// Fixed-point unit: a normalized component of this value stands for 1.0.
pub const NORM_ONE: i32 = 65536;

/// The squared Euclidean length of the raw pair.
pub open spec fn spec_len_sq(x: int, y: int) -> int {
    x * x + y * y
}

/// The deadzone clamped to [0, 32766]; negative or full-scale deadzones
/// would make the scaling degenerate.
pub open spec fn spec_clamp_deadzone(d: int) -> int {
    if d < 0 {
        0
    } else if d > 32766 {
        32766
    } else {
        d
    }
}

/// The integer square root: the largest `r` with `r * r <= n`.
pub open spec fn spec_sqrt_floor(n: nat) -> nat
    decreases n,
{
    if n == 0 {
        0
    } else {
        let s = spec_sqrt_floor((n - 1) as nat);
        if (s + 1) * (s + 1) <= n {
            s + 1
        } else {
            s
        }
    }
}

pub proof fn lemma_sqrt_floor_bounds(n: nat)
    ensures
        spec_sqrt_floor(n) * spec_sqrt_floor(n) <= n,
        n < (spec_sqrt_floor(n) + 1) * (spec_sqrt_floor(n) + 1),
    decreases n,
{
    reveal_with_fuel(spec_sqrt_floor, 2);
    let r = spec_sqrt_floor(n);
    if n > 0 {
        lemma_sqrt_floor_bounds((n - 1) as nat);
        let s = spec_sqrt_floor((n - 1) as nat);
        if (s + 1) * (s + 1) <= n {
            assert(r == s + 1);
            assert(n - 1 < (s + 1) * (s + 1));
            assert(n < (s + 2) * (s + 2)) by (nonlinear_arith)
                requires
                    n <= (s + 1) * (s + 1),
            ;
            assert(r * r <= n);
            assert(n < (r + 1) * (r + 1));
        } else {
            assert(r == s);
            assert(r * r <= n);
            assert(n < (r + 1) * (r + 1));
        }
    } else {
        assert(r == 0);
        assert(r * r <= n);
        assert(n < (r + 1) * (r + 1)) by (nonlinear_arith)
            requires
                n == 0,
                r == 0,
        ;
    }
}

/// The integer square root is the only `a` with `a² <= n < (a+1)²`.
pub proof fn lemma_sqrt_floor_unique(n: nat, a: nat)
    requires
        a * a <= n,
        n < (a + 1) * (a + 1),
    ensures
        a == spec_sqrt_floor(n),
{
    let s = spec_sqrt_floor(n);
    lemma_sqrt_floor_bounds(n);
    assert(a == s) by (nonlinear_arith)
        requires
            a * a <= n,
            n < (a + 1) * (a + 1),
            s * s <= n,
            n < (s + 1) * (s + 1),
    ;
}

/// The integer square root of `n`, computed by bisection.
pub fn isqrt(n: u32) -> (r: u32)
    ensures
        r == spec_sqrt_floor(n as nat),
        r * r <= n,
{
    let mut lo: u32 = 0;
    let mut hi: u32 = 65536;
    while lo + 1 < hi
        invariant
            lo < hi <= 65536,
            (lo as int) * (lo as int) <= n as int,
            (n as int) < (hi as int) * (hi as int),
        decreases hi - lo,
    {
        let mid = lo + (hi - lo) / 2;
        proof {
            assert((mid as int) * (mid as int) <= 65535 * 65535) by (nonlinear_arith)
                requires
                    0 <= mid as int <= 65535,
            ;
        }
        if mid * mid <= n {
            lo = mid;
        } else {
            hi = mid;
        }
    }
    proof {
        lemma_sqrt_floor_unique(n as nat, lo as nat);
    }
    lo
}

/// The deadzone clamped to its valid range [0, 32766].
pub fn clamp_deadzone(deadzone: i16) -> (r: i16)
    ensures
        r as int == spec_clamp_deadzone(deadzone as int),
        0 <= r <= 32766,
{
    if deadzone < 0 {
        0
    } else if deadzone > 32766 {
        32766
    } else {
        deadzone
    }
}

/// The squared Euclidean length of the raw pair; it fits in 32 bits.
pub fn stick_length_squared(raw: (i16, i16)) -> (r: u32)
    ensures
        r as int == spec_len_sq(raw.0 as int, raw.1 as int),
        r as int <= 0x8000_0000,
{
    let x = raw.0 as i64;
    let y = raw.1 as i64;
    proof {
        assert(0 <= x * x <= 0x4000_0000 && 0 <= y * y <= 0x4000_0000) by (nonlinear_arith)
            requires
                -0x8000 <= x <= 0x7fff,
                -0x8000 <= y <= 0x7fff,
        ;
    }
    (x * x + y * y) as u32
}

/// The integer Euclidean length of the raw pair.
pub fn stick_length(raw: (i16, i16)) -> (r: u32)
    ensures
        r == spec_sqrt_floor(spec_len_sq(raw.0 as int, raw.1 as int) as nat),
{
    isqrt(stick_length_squared(raw))
}

/// One normalized component in fixed-point, for a stick outside the
/// deadzone: `v` is the raw axis value, `l >= 1` the integer length of the
/// raw vector, `d` the clamped deadzone.  The magnitude is
/// `|v| * (min(l, 32767) - d) * NORM_ONE / (l * (32767 - d))`, rounded
/// toward zero, with `v`'s sign restored.
pub open spec fn spec_scaled(v: int, l: int, d: int) -> int {
    let lc = if l > 32767 {
        32767
    } else {
        l
    };
    let mag = ((if v >= 0 {
        v
    } else {
        -v
    }) * (lc - d) * 65536) / (l * (32767 - d));
    if v >= 0 {
        mag
    } else {
        -mag
    }
}

/// The fixed-point radial deadzone normalization of a raw pair.
pub open spec fn spec_normalize_fixed(x: int, y: int, d: int) -> (int, int) {
    let dc = spec_clamp_deadzone(d);
    let l = spec_sqrt_floor(spec_len_sq(x, y) as nat) as int;
    if spec_len_sq(x, y) <= dc * dc {
        (0, 0)
    } else {
        (spec_scaled(x, l, dc), spec_scaled(y, l, dc))
    }
}

/// One component of the normalization, outside the deadzone.
fn scaled_component(v: i16, l: u32, dc: i16) -> (r: i32)
    requires
        1 <= l as int,
        l as int <= 46341,
        0 <= dc as int <= 32766,
        dc as int <= l as int,
        (v as int) * (v as int) <= (l as int) * (l as int) + 2 * (l as int),
    ensures
        r as int == spec_scaled(v as int, l as int, dc as int),
        -65536 <= r as int <= 65536,
{
    let mag: u64 = if v >= 0 {
        v as u64
    } else {
        (-(v as i32)) as u64
    };
    proof {
        assert(mag as int <= l as int) by (nonlinear_arith)
            requires
                (v as int) * (v as int) <= (l as int) * (l as int) + 2 * (l as int),
                mag as int == if v as int >= 0 {
                    v as int
                } else {
                    -(v as int)
                },
                0 <= l as int,
        ;
    }
    let lc: u64 = if l > 32767 {
        32767
    } else {
        l as u64
    };
    let lcd: u64 = lc - dc as u64;
    proof {
        assert(mag as int * lcd as int <= 46341 * 32767) by (nonlinear_arith)
            requires
                0 <= mag as int <= 46341,
                0 <= lcd as int <= 32767,
        ;
        assert((l as int) * (32767 - dc as int) <= 46341 * 32767 && (l as int) * (32767
            - dc as int) >= 1) by (nonlinear_arith)
            requires
                1 <= l as int <= 46341,
                0 <= dc as int <= 32766,
        ;
    }
    let num: u64 = mag * lcd * 65536;
    let den: u64 = (l as u64) * (32767 - dc as u64);
    proof {
        assert(num as int <= den as int * 65536) by (nonlinear_arith)
            requires
                mag as int <= l as int,
                lcd as int <= 32767 - dc as int,
                0 <= mag as int,
                0 <= lcd as int,
                0 <= dc as int <= 32766,
                1 <= l as int,
                num as int == mag as int * lcd as int * 65536,
                den as int == l as int * (32767 - dc as int),
        ;
        lemma_div_is_ordered(num as int, den as int * 65536, den as int);
        lemma_div_by_multiple(65536, den as int);
    }
    let q: u64 = num / den;
    if v >= 0 {
        q as i32
    } else {
        -(q as i32)
    }
}

/// Normalizes a raw stick pair with the given deadzone, in fixed point.
///
/// The deadzone is clamped to [0, 32766].  Whenever the Euclidean length of
/// the raw pair is at most the clamped deadzone — in particular for the
/// centered pair `(0, 0)`, with any deadzone — the result is exactly
/// `(0, 0)`.  Otherwise the result is the raw vector scaled to ramp from
/// zero at the deadzone boundary to `NORM_ONE` at full scale.
pub fn normalize_fixed(raw: (i16, i16), deadzone: i16) -> (r: (i32, i32))
    ensures
        (r.0 as int, r.1 as int) == spec_normalize_fixed(
            raw.0 as int,
            raw.1 as int,
            deadzone as int,
        ),
        spec_len_sq(raw.0 as int, raw.1 as int) <= spec_clamp_deadzone(deadzone as int)
            * spec_clamp_deadzone(deadzone as int) ==> r == (0i32, 0i32),
        -65536 <= r.0 as int <= 65536,
        -65536 <= r.1 as int <= 65536,
{
    let dc = clamp_deadzone(deadzone);
    let len_sq = stick_length_squared(raw);
    proof {
        assert(0 <= (dc as int) * (dc as int) <= 32766 * 32766) by (nonlinear_arith)
            requires
                0 <= dc as int <= 32766,
        ;
    }
    if len_sq <= (dc as u32) * (dc as u32) {
        return (0, 0);
    }
    let l = isqrt(len_sq);
    proof {
        let lsq = len_sq as int;
        let li = l as int;
        lemma_sqrt_floor_bounds(len_sq as nat);
        assert(1 <= li && li <= 46341 && dc as int <= li && (raw.0 as int) * (raw.0 as int) <= li
            * li + 2 * li && (raw.1 as int) * (raw.1 as int) <= li * li + 2 * li)
            by (nonlinear_arith)
            requires
                li * li <= lsq,
                lsq < (li + 1) * (li + 1),
                0 <= li,
                (dc as int) * (dc as int) < lsq,
                0 <= dc as int <= 32766,
                lsq == (raw.0 as int) * (raw.0 as int) + (raw.1 as int) * (raw.1 as int),
                lsq <= 0x8000_0000,
        ;
    }
    let nx = scaled_component(raw.0, l, dc);
    let ny = scaled_component(raw.1, l, dc);
    (nx, ny)
}

/// A centered stick is unaffected by the deadzone: normalizing `(0, 0)`
/// yields `(0, 0)` for every deadzone.
pub proof fn lemma_normalize_centered(d: int)
    ensures
        spec_normalize_fixed(0, 0, d) == (0int, 0int),
{
    assert(spec_clamp_deadzone(d) * spec_clamp_deadzone(d) >= 0) by (nonlinear_arith);
}

/// Any raw pair whose Euclidean length lies within the deadzone normalizes
/// to exactly `(0, 0)`.
pub proof fn lemma_normalize_within_deadzone(x: int, y: int, d: int)
    requires
        spec_len_sq(x, y) <= spec_clamp_deadzone(d) * spec_clamp_deadzone(d),
    ensures
        spec_normalize_fixed(x, y, d) == (0int, 0int),
{
}

} // verus!
