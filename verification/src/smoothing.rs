//! Exponential smoothing applied to fixed-point values: one step keeps the
//! retained fraction of the gap to the target. The retained fraction per
//! step comes from the caller (it is the exponential of the decay rate over
//! the elapsed time); this module owns how a step is applied.

use vstd::prelude::*;

use crate::mathx::{div_trunc, div_trunc_i64, lemma_div_trunc_abs_le};

verus! {

/// Smoothed values stay within this bound.
pub const VALUE_LIMIT: i64 = 0x100_0000_0000;

/// One smoothing step: the target plus the retained fraction (in
/// thousandths) of the gap from the target to `v`.
pub open spec fn blend_spec(v: int, target: int, retain: int) -> int {
    target + div_trunc((v - target) * retain, 1000)
}

/// Applies one smoothing step toward `target`, keeping `retain_milli`
/// thousandths of the gap. The result never overshoots: it stays between
/// the value and the target.
pub fn decay_blend(v: i64, target: i64, retain_milli: i64) -> (r: i64)
    requires
        -VALUE_LIMIT <= v <= VALUE_LIMIT,
        -VALUE_LIMIT <= target <= VALUE_LIMIT,
        0 <= retain_milli <= 1000,
    ensures
        r == blend_spec(v as int, target as int, retain_milli as int),
        v >= target ==> target <= r <= v,
        v < target ==> v <= r <= target,
{
    proof {
        lemma_blend_between(v as int, target as int, retain_milli as int);
    }
    target + div_trunc_i64((v - target) * retain_milli, 1000)
}

/// The smoothing step is a contraction: the result lies between the target
/// and the starting value, so iterating it approaches the target without
/// ever crossing it.
pub proof fn lemma_blend_between(v: int, target: int, retain: int)
    requires
        0 <= retain <= 1000,
    ensures
        v >= target ==> target <= blend_spec(v, target, retain) <= v,
        v < target ==> v <= blend_spec(v, target, retain) <= target,
{
    let gap = v - target;
    if gap >= 0 {
        assert(0 <= gap * retain <= gap * 1000) by (nonlinear_arith)
            requires
                gap >= 0,
                0 <= retain <= 1000,
        ;
        lemma_div_trunc_abs_le(gap * retain, 1000, gap);
        vstd::arithmetic::div_mod::lemma_div_pos_is_pos(gap * retain, 1000);
    } else {
        assert(gap * 1000 <= gap * retain <= 0 && -((-gap) * 1000) <= gap * retain)
            by (nonlinear_arith)
            requires
                gap < 0,
                0 <= retain <= 1000,
        ;
        lemma_div_trunc_abs_le(gap * retain, 1000, -gap);
    }
}

/// A speed modifier attached to a character: the current factor in
/// thousandths, and the speed it scales, remembered so that removing the
/// modifier restores it.
#[derive(Clone, Copy, Debug, PartialEq, Eq, Structural)]
pub struct SpeedMod {
    pub factor_milli: i64,
    pub original_speed: i64,
}

impl SpeedMod {
    /// Attaches a modifier at the given factor, remembering the speed.
    pub fn new(factor_milli: i64, original_speed: i64) -> (r: SpeedMod)
        ensures
            r == (SpeedMod { factor_milli, original_speed }),
    {
        SpeedMod { factor_milli, original_speed }
    }

    /// The speed while the modifier is attached: the original scaled by
    /// the factor.
    pub fn current_speed(&self) -> (r: i64)
        requires
            0 <= self.factor_milli <= 1000,
            0 <= self.original_speed <= crate::steering::RATE_LIMIT,
        ensures
            r == div_trunc(self.factor_milli * self.original_speed, 1000),
            0 <= r <= self.original_speed,
    {
        proof {
            assert(0 <= self.factor_milli * self.original_speed <= 1000 * self.original_speed)
                by (nonlinear_arith)
                requires
                    0 <= self.factor_milli <= 1000i64,
                    0 <= self.original_speed,
            ;
            lemma_div_trunc_abs_le(
                self.factor_milli * self.original_speed,
                1000,
                self.original_speed as int,
            );
            vstd::arithmetic::div_mod::lemma_div_pos_is_pos(
                self.factor_milli * self.original_speed,
                1000,
            );
        }
        div_trunc_i64(self.factor_milli * self.original_speed, 1000)
    }

    /// One smoothing step of the ramp toward full speed: the factor decays
    /// toward one (a thousand thousandths), as a freshly bred ghost speeds
    /// up.
    pub fn ramp_toward_full(&mut self, retain_milli: i64)
        requires
            0 <= old(self).factor_milli <= 1000,
            0 <= retain_milli <= 1000,
        ensures
            final(self).factor_milli == blend_spec(
                old(self).factor_milli as int,
                1000,
                retain_milli as int,
            ),
            0 <= final(self).factor_milli <= 1000,
            final(self).original_speed == old(self).original_speed,
    {
        self.factor_milli = decay_blend(self.factor_milli, 1000, retain_milli);
    }

    /// The speed to restore when the modifier is removed.
    pub fn restore(&self) -> (r: i64)
        ensures
            r == self.original_speed,
    {
        self.original_speed
    }
}

/// One fade step of a residual visual trail: the opacity (in thousandths)
/// keeps its retained fraction each tick, and the trail despawns once it
/// falls below five thousandths.
pub fn fade_step(alpha_milli: i64, retain_milli: i64) -> (r: (i64, bool))
    requires
        0 <= alpha_milli <= 1000,
        0 <= retain_milli <= 1000,
    ensures
        r.0 == blend_spec(alpha_milli as int, 0, retain_milli as int),
        0 <= r.0 <= alpha_milli,
        r.1 == (r.0 < 5),
{
    let faded = decay_blend(alpha_milli, 0, retain_milli);
    (faded, faded < 5)
}

} // verus!
