//! Fixed-point arithmetic for the engine. Times are milliseconds; gains and
//! transition progress are fractions scaled by [`UNIT`], so a gain of `1.0`
//! is `UNIT` and the maximum master volume of `2.0` is `MAX_VOLUME`.

use vstd::prelude::*;

verus! {

/// Fixed-point representation of `1.0`.
pub const UNIT: u64 = 10000;

/// Fixed-point representation of `2.0`, the largest master volume the
/// engine stores (a boost of up to +6 dB).
pub const MAX_VOLUME: u64 = 20000;

/// What a requested gain is clamped to before it is stored: the fixed-point
/// image of `clamp(g, 0.0, 2.0)`.
pub open spec fn clamped_volume(g: int) -> u64 {
    if g < 0 {
        0u64
    } else if g > MAX_VOLUME {
        MAX_VOLUME
    } else {
        g as u64
    }
}

/// Clamp a requested gain (fixed-point, possibly negative or oversized)
/// into the stored volume range `[0, MAX_VOLUME]`.
pub fn clamp_volume(g: i64) -> (v: u64)
    ensures
        v == clamped_volume(g as int),
        v <= MAX_VOLUME,
{
    if g < 0 {
        0
    } else if g > MAX_VOLUME as i64 {
        MAX_VOLUME
    } else {
        g as u64
    }
}

/// The floor of the square root of `x`, defined by counting up.
pub open spec fn sqrt_floor(x: nat) -> nat
    decreases x,
{
    if x == 0 {
        0
    } else {
        let r = sqrt_floor((x - 1) as nat);
        if (r + 1) * (r + 1) <= x {
            r + 1
        } else {
            r
        }
    }
}

/// `sqrt_floor(x)` really is the floor of the square root:
/// `sqrt_floor(x)^2 <= x < (sqrt_floor(x) + 1)^2`.
pub proof fn lemma_sqrt_floor_bounds(x: nat)
    ensures
        sqrt_floor(x) * sqrt_floor(x) <= x,
        x < (sqrt_floor(x) + 1) * (sqrt_floor(x) + 1),
    decreases x,
{
    let s = sqrt_floor(x);
    if x > 0 {
        lemma_sqrt_floor_bounds((x - 1) as nat);
        let r = sqrt_floor((x - 1) as nat);
        assert(r * r <= x - 1);
        assert(x - 1 < (r + 1) * (r + 1));
        if (r + 1) * (r + 1) <= x {
            assert(s == r + 1);
            assert(s * s <= x) by (nonlinear_arith)
                requires
                    s == r + 1,
                    (r + 1) * (r + 1) <= x,
            ;
            assert(x < (s + 1) * (s + 1)) by (nonlinear_arith)
                requires
                    s == r + 1,
                    x - 1 < (r + 1) * (r + 1),
            ;
        } else {
            assert(s == r);
            assert(s * s <= x) by (nonlinear_arith)
                requires
                    s == r,
                    r * r <= x - 1,
            ;
            assert(x < (s + 1) * (s + 1)) by (nonlinear_arith)
                requires
                    s == r,
                    !((r + 1) * (r + 1) <= x),
            ;
        }
    } else {
        assert(s == 0);
        assert(x < (s + 1) * (s + 1)) by (nonlinear_arith)
            requires
                s == 0,
                x == 0,
        ;
    }
}

/// Any `r` with `r^2 <= x < (r + 1)^2` equals `sqrt_floor(x)`.
pub proof fn lemma_sqrt_floor_unique(x: nat, r: nat)
    requires
        r * r <= x,
        x < (r + 1) * (r + 1),
    ensures
        r == sqrt_floor(x),
{
    lemma_sqrt_floor_bounds(x);
    let s = sqrt_floor(x);
    if r < s {
        assert((r + 1) * (r + 1) <= s * s) by (nonlinear_arith)
            requires
                r + 1 <= s,
        ;
    }
    if s < r {
        assert((s + 1) * (s + 1) <= r * r) by (nonlinear_arith)
            requires
                s + 1 <= r,
        ;
    }
}

/// Integer square root by binary search: the largest `r` with `r * r <= x`.
pub fn isqrt(x: u64) -> (r: u64)
    ensures
        r == sqrt_floor(x as nat),
        r * r <= x,
        (x as int) < (r + 1) * (r + 1),
{
    let mut lo: u64 = 0;
    let mut hi: u64 = 4294967296;
    proof {
        assert((hi as int) * (hi as int) > x as int) by (nonlinear_arith)
            requires
                hi == 4294967296u64,
                x <= u64::MAX,
        ;
    }
    while lo + 1 < hi
        invariant
            lo < hi,
            hi <= 4294967296,
            (lo as int) * (lo as int) <= x as int,
            (x as int) < (hi as int) * (hi as int),
        decreases hi - lo,
    {
        let mid: u64 = lo + (hi - lo) / 2;
        proof {
            assert((mid as int) * (mid as int) <= (4294967295int) * (4294967295int))
                by (nonlinear_arith)
                requires
                    mid <= 4294967295u64,
            ;
        }
        if mid * mid <= x {
            lo = mid;
        } else {
            hi = mid;
        }
    }
    proof {
        lemma_sqrt_floor_unique(x as nat, lo as nat);
    }
    lo
}

} // verus!
