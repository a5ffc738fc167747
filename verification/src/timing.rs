//! Timer divisor derivation.
//!
//! The periodic timer divides its input clock by `(prescaler + 1) *
//! (reload + 1)`, with both fields limited to 16 bits. Given the ratio
//! of the clock frequency to the target tick frequency, `timer_divisors`
//! picks the prescaler as `(ratio - 1) / 65535` and the reload as
//! `ratio / (prescaler + 1) - 1`, so the achieved division never
//! exceeds the ratio and falls short of it by less than one prescaler
//! period.

use vstd::prelude::*;
use vstd::arithmetic::div_mod::lemma_div_by_multiple;
use vstd::arithmetic::div_mod::lemma_div_is_ordered;
use vstd::arithmetic::div_mod::lemma_div_non_zero;
use vstd::arithmetic::div_mod::lemma_div_nonincreasing;
use vstd::arithmetic::div_mod::lemma_fundamental_div_mod;
use vstd::arithmetic::div_mod::lemma_mod_bound;

verus! {

/// Largest value a 16-bit timer register field can hold.
pub const TIMER_FIELD_MAX: u32 = 65535;

/// The derived prescaler for a clock-to-tick ratio: how often the
/// 16-bit reload field must be scaled down for the ratio to fit it.
pub open spec fn prescaler_for(ratio: int) -> int {
    (ratio - 1) / (TIMER_FIELD_MAX as int)
}

/// The derived reload value: what is left of the ratio once the
/// prescaler's division is taken out, less the register's implicit one.
pub open spec fn reload_for(ratio: int) -> int {
    ratio / (prescaler_for(ratio) + 1) - 1
}

/// Derive the timer's prescaler and reload fields from `ratio`, the
/// input clock frequency divided by the target tick frequency. The
/// achieved divisor `(prescaler + 1) * (reload + 1)` never exceeds
/// `ratio`, and `ratio` undershoots the next reload step, so the tick
/// rate is at least the target and within one prescaler period of it.
pub fn timer_divisors(ratio: u32) -> (d: (u16, u16))
    requires
        1 <= ratio,
        ratio - 1 <= (TIMER_FIELD_MAX as int) * (TIMER_FIELD_MAX as int),
    ensures
        d.0 == prescaler_for(ratio as int),
        d.1 == reload_for(ratio as int),
        (d.0 as int + 1) * (d.1 as int + 1) <= ratio as int,
        (ratio as int) < (d.0 as int + 1) * (d.1 as int + 2),
{
    let psc32: u32 = (ratio - 1) / TIMER_FIELD_MAX;
    proof {
        let ri = ratio as int;
        let fmax = TIMER_FIELD_MAX as int;
        lemma_div_is_ordered(ri - 1, fmax * fmax, fmax);
        lemma_div_by_multiple(fmax, fmax);
        assert(psc32 <= TIMER_FIELD_MAX);
    }
    let psc: u16 = psc32 as u16;
    proof {
        let ri = ratio as int;
        let fmax = TIMER_FIELD_MAX as int;
        let p = psc32 as int;
        lemma_fundamental_div_mod(ri - 1, fmax);
        lemma_mod_bound(ri - 1, fmax);
        assert(ri <= fmax * (p + 1)) by (nonlinear_arith)
            requires
                ri - 1 == fmax * p + ((ri - 1) % fmax),
                (ri - 1) % fmax < fmax,
        ;
        lemma_div_is_ordered(ri, fmax * (p + 1), p + 1);
        lemma_div_by_multiple(fmax, p + 1);
        assert(fmax * (p + 1) == (p + 1) * fmax) by (nonlinear_arith);
        assert(ri / (p + 1) <= fmax);
        lemma_div_nonincreasing(ri - 1, fmax);
        lemma_div_non_zero(ri, p + 1);
    }
    let quot: u32 = ratio / (psc32 + 1);
    let arr: u16 = (quot - 1) as u16;
    proof {
        let ri = ratio as int;
        let p = psc32 as int;
        let q = quot as int;
        lemma_fundamental_div_mod(ri, p + 1);
        lemma_mod_bound(ri, p + 1);
        assert((p + 1) * q <= ri < (p + 1) * (q + 1)) by (nonlinear_arith)
            requires
                ri == (p + 1) * q + ri % (p + 1),
                0 <= ri % (p + 1) < p + 1,
        ;
    }
    (psc, arr)
}

} // verus!
