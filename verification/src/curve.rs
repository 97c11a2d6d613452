//! Crossfade gain curves. A transition's progress `p` runs over `[0, UNIT]`
//! and each curve maps it to a pair of fixed-point gain factors
//! `(fade_out, fade_in)`, again in `[0, UNIT]`, which the mixer scales by the
//! master volume.

use vstd::arithmetic::div_mod::lemma_div_is_ordered;
use vstd::prelude::*;

use crate::fixed::lemma_sqrt_floor_bounds;
use crate::fixed::sqrt_floor;
use crate::fixed::isqrt;
use crate::fixed::MAX_VOLUME;
use crate::fixed::UNIT;

verus! {

/// The shape of a crossfade transition.
#[derive(Debug, Clone, Copy, PartialEq, Eq, Structural)]
pub enum CrossfadeCurve {
    /// Both gains change linearly in the progress.
    Linear,
    /// `(sqrt(1 - p), sqrt(p))`: the squared gains always sum to one, which
    /// keeps the perceived loudness roughly constant.
    EqualPower,
    /// `((1 - p)^2, sqrt(p))`: an asymmetric pair with a steeper fade-out.
    Logarithmic,
    /// Smoothstep `(1 - s, s)` with `s = p^2 (3 - 2 p)`: flat at both ends.
    SCurve,
}

/// The smoothstep numerator `p^2 (3 UNIT - 2 p)`, the S-curve before its
/// division by `UNIT^2`. Exact, so it is the right place to state strict
/// monotonicity.
pub open spec fn scurve_raw(p: u64) -> int {
    p * p * (3 * UNIT - 2 * p)
}

/// Fixed-point smoothstep: `scurve_raw(p)` scaled back into `[0, UNIT]`.
pub open spec fn smoothstep(p: u64) -> int {
    scurve_raw(p) / ((UNIT * UNIT) as int)
}

/// The fade-out factor a curve yields at progress `p`.
pub open spec fn fade_out_spec(curve: CrossfadeCurve, p: u64) -> int
    recommends
        p <= UNIT,
{
    match curve {
        CrossfadeCurve::Linear => UNIT - p,
        CrossfadeCurve::EqualPower => sqrt_floor(((UNIT - p) * UNIT) as nat) as int,
        CrossfadeCurve::Logarithmic => (UNIT - p) * (UNIT - p) / (UNIT as int),
        CrossfadeCurve::SCurve => UNIT - smoothstep(p),
    }
}

/// The fade-in factor a curve yields at progress `p`.
pub open spec fn fade_in_spec(curve: CrossfadeCurve, p: u64) -> int
    recommends
        p <= UNIT,
{
    match curve {
        CrossfadeCurve::Linear => p as int,
        CrossfadeCurve::EqualPower => sqrt_floor((p * UNIT) as nat) as int,
        CrossfadeCurve::Logarithmic => sqrt_floor((p * UNIT) as nat) as int,
        CrossfadeCurve::SCurve => smoothstep(p),
    }
}

/// `sqrt_floor` of anything at most `UNIT^2` is at most `UNIT`.
proof fn lemma_sqrt_le_unit(x: nat)
    requires
        x <= UNIT * UNIT,
    ensures
        sqrt_floor(x) <= UNIT,
{
    lemma_sqrt_floor_bounds(x);
    let r = sqrt_floor(x);
    if r > UNIT {
        assert((UNIT + 1) * (UNIT + 1) <= r * r) by (nonlinear_arith)
            requires
                UNIT + 1 <= r,
        ;
        assert(UNIT * UNIT < (UNIT + 1) * (UNIT + 1)) by (nonlinear_arith);
    }
}

/// The smoothstep numerator stays within `[0, UNIT^3]` on `[0, UNIT]`.
proof fn lemma_scurve_raw_range(p: u64)
    requires
        p <= UNIT,
    ensures
        0 <= scurve_raw(p),
        scurve_raw(p) <= UNIT * UNIT * UNIT,
{
    assert(0 <= p * p * (3 * UNIT - 2 * p)) by (nonlinear_arith)
        requires
            p <= UNIT,
    ;
    assert(UNIT * UNIT * UNIT - p * p * (3 * UNIT - 2 * p) == (UNIT - p) * (UNIT - p) * (UNIT
        + 2 * p)) by (nonlinear_arith);
    assert((UNIT - p) * (UNIT - p) * (UNIT + 2 * p) >= 0) by (nonlinear_arith)
        requires
            p <= UNIT,
    ;
}

/// The smoothstep factor stays within `[0, UNIT]` on `[0, UNIT]`.
proof fn lemma_smoothstep_range(p: u64)
    requires
        p <= UNIT,
    ensures
        0 <= smoothstep(p),
        smoothstep(p) <= UNIT,
{
    lemma_scurve_raw_range(p);
    lemma_div_is_ordered(scurve_raw(p), (UNIT * UNIT * UNIT) as int, (UNIT * UNIT) as int);
    assert(UNIT * UNIT * UNIT == (UNIT as int) * ((UNIT * UNIT) as int)) by (nonlinear_arith);
    assert((UNIT as int) * ((UNIT * UNIT) as int) / ((UNIT * UNIT) as int) == UNIT)
        by (nonlinear_arith);
    assert(scurve_raw(p) / ((UNIT * UNIT) as int) >= 0) by (nonlinear_arith)
        requires
            scurve_raw(p) >= 0,
    ;
}

/// Compute a curve's pair of fade factors at progress `p`.
pub fn fade_factors(curve: CrossfadeCurve, p: u64) -> (f: (u64, u64))
    requires
        p <= UNIT,
    ensures
        f.0 == fade_out_spec(curve, p),
        f.1 == fade_in_spec(curve, p),
        f.0 <= UNIT,
        f.1 <= UNIT,
{
    match curve {
        CrossfadeCurve::Linear => (UNIT - p, p),
        CrossfadeCurve::EqualPower => {
            proof {
                assert((UNIT - p) * UNIT <= UNIT * UNIT && p * UNIT <= UNIT * UNIT)
                    by (nonlinear_arith)
                    requires
                        p <= UNIT,
                ;
                lemma_sqrt_le_unit(((UNIT - p) * UNIT) as nat);
                lemma_sqrt_le_unit((p * UNIT) as nat);
            }
            let fade_out = isqrt((UNIT - p) * UNIT);
            let fade_in = isqrt(p * UNIT);
            (fade_out, fade_in)
        },
        CrossfadeCurve::Logarithmic => {
            proof {
                assert((UNIT - p) * UNIT <= UNIT * UNIT && p * UNIT <= UNIT * UNIT)
                    by (nonlinear_arith)
                    requires
                        p <= UNIT,
                ;
                lemma_sqrt_le_unit((p * UNIT) as nat);
                assert((UNIT - p) * (UNIT - p) <= UNIT * UNIT) by (nonlinear_arith)
                    requires
                        p <= UNIT,
                ;
                lemma_div_is_ordered(
                    ((UNIT - p) * (UNIT - p)) as int,
                    (UNIT * UNIT) as int,
                    UNIT as int,
                );
                assert((UNIT * UNIT) as int / (UNIT as int) == UNIT) by (nonlinear_arith);
            }
            let fade_out = (UNIT - p) * (UNIT - p) / UNIT;
            let fade_in = isqrt(p * UNIT);
            (fade_out, fade_in)
        },
        CrossfadeCurve::SCurve => {
            proof {
                lemma_scurve_raw_range(p);
                lemma_smoothstep_range(p);
                assert(p * p <= UNIT * UNIT && p * p * (3 * UNIT - 2 * p) <= UNIT * UNIT * (3
                    * UNIT)) by (nonlinear_arith)
                    requires
                        p <= UNIT,
                ;
            }
            let s = p * p * (3 * UNIT - 2 * p) / (UNIT * UNIT);
            (UNIT - s, s)
        },
    }
}

/// Scale one fade factor by the master volume: `factor * master / UNIT`.
pub fn apply_master_volume(factor: u64, master: u64) -> (g: u64)
    requires
        factor <= UNIT,
        master <= MAX_VOLUME,
    ensures
        g == factor * master / (UNIT as int),
        g <= master,
{
    proof {
        assert(factor * master <= UNIT * master) by (nonlinear_arith)
            requires
                factor <= UNIT,
                master >= 0,
        ;
        lemma_div_is_ordered((factor * master) as int, (UNIT * master) as int, UNIT as int);
        assert((UNIT * master) as int / (UNIT as int) == master) by (nonlinear_arith);
    }
    factor * master / UNIT
}

/// The gains the mixer applies during a crossfade: both curve factors at
/// progress `p`, each scaled by the master volume.
pub fn crossfade_gains(curve: CrossfadeCurve, p: u64, master: u64) -> (g: (u64, u64))
    requires
        p <= UNIT,
        master <= MAX_VOLUME,
    ensures
        g.0 == fade_out_spec(curve, p) * master / (UNIT as int),
        g.1 == fade_in_spec(curve, p) * master / (UNIT as int),
        g.0 <= master,
        g.1 <= master,
{
    let (fade_out, fade_in) = fade_factors(curve, p);
    (apply_master_volume(fade_out, master), apply_master_volume(fade_in, master))
}

/// Equal-power identity: at every progress `p` the squared fade factors sum
/// to `UNIT^2`, up to the fixed-point rounding of the two square roots
/// (each root is exact to within `2 UNIT`).
pub proof fn lemma_equal_power_identity(p: u64)
    requires
        p <= UNIT,
    ensures
        ({
            let fade_out = fade_out_spec(CrossfadeCurve::EqualPower, p);
            let fade_in = fade_in_spec(CrossfadeCurve::EqualPower, p);
            UNIT * UNIT - 4 * UNIT <= fade_out * fade_out + fade_in * fade_in <= UNIT * UNIT
        }),
{
    let a = ((UNIT - p) * UNIT) as nat;
    let b = (p * UNIT) as nat;
    assert((UNIT - p) * UNIT >= 0 && p * UNIT >= 0 && (UNIT - p) * UNIT + p * UNIT == UNIT
        * UNIT) by (nonlinear_arith)
        requires
            p <= UNIT,
    ;
    assert(a <= UNIT * UNIT && b <= UNIT * UNIT);
    lemma_sqrt_floor_bounds(a);
    lemma_sqrt_floor_bounds(b);
    lemma_sqrt_le_unit(a);
    lemma_sqrt_le_unit(b);
    let fade_out = sqrt_floor(a);
    let fade_in = sqrt_floor(b);
    assert(a < (fade_out + 1) * (fade_out + 1));
    assert((fade_out + 1) * (fade_out + 1) == fade_out * fade_out + 2 * fade_out + 1)
        by (nonlinear_arith);
    assert((fade_in + 1) * (fade_in + 1) == fade_in * fade_in + 2 * fade_in + 1)
        by (nonlinear_arith);
}

/// One step of the smoothstep numerator: it grows strictly between
/// consecutive progress values below `UNIT`.
proof fn lemma_scurve_raw_step(p: u64)
    requires
        p < UNIT,
    ensures
        scurve_raw(p) < scurve_raw((p + 1) as u64),
{
    assert(scurve_raw((p + 1) as u64) - scurve_raw(p) == 6 * p * (UNIT - p - 1) + 3 * UNIT
        - 2) by (nonlinear_arith)
        requires
            p < UNIT,
    ;
    assert(6 * p * (UNIT - p - 1) >= 0) by (nonlinear_arith)
        requires
            p < UNIT,
    ;
}

/// S-curve monotonicity: the exact smoothstep numerator is strictly
/// increasing on `[0, UNIT]`, and the quantized factor never decreases.
pub proof fn lemma_scurve_strictly_increasing(p: u64, q: u64)
    requires
        p < q,
        q <= UNIT,
    ensures
        scurve_raw(p) < scurve_raw(q),
        smoothstep(p) <= smoothstep(q),
    decreases q - p,
{
    lemma_scurve_raw_step(p);
    if p + 1 < q {
        lemma_scurve_strictly_increasing((p + 1) as u64, q);
    }
    lemma_div_is_ordered(scurve_raw(p), scurve_raw(q), (UNIT * UNIT) as int);
}

/// S-curve endpoints: the fade-in factor is exactly `0` at progress `0` and
/// exactly `UNIT` at progress `UNIT`, and the fade-out factor mirrors it.
pub proof fn lemma_scurve_endpoints()
    ensures
        fade_in_spec(CrossfadeCurve::SCurve, 0) == 0,
        fade_in_spec(CrossfadeCurve::SCurve, UNIT) == UNIT,
        fade_out_spec(CrossfadeCurve::SCurve, 0) == UNIT,
        fade_out_spec(CrossfadeCurve::SCurve, UNIT) == 0,
{
    assert(scurve_raw(0) == 0) by (nonlinear_arith);
    assert(scurve_raw(UNIT) == UNIT * UNIT * UNIT) by (nonlinear_arith);
    assert(smoothstep(0) == 0);
    assert((UNIT * UNIT * UNIT) as int / ((UNIT * UNIT) as int) == UNIT) by (nonlinear_arith);
}

} // verus!
