//! Exponential smoothing in integer arithmetic.
//!
//! A weight is a number of billionths, so that `WEIGHT_ONE` stands for one
//! and decimal weights such as two tenths are exact. Samples and estimates
//! are whole numbers of any unit; the smoothed value is rounded to the
//! nearest whole number.

use vstd::prelude::*;

verus! {

/// The weight that stands for one.
pub const WEIGHT_ONE: u32 = 1_000_000_000;

/// `alpha * sample + (1 - alpha) * previous`, in billionths.
pub open spec fn blend(alpha: nat, sample: nat, previous: nat) -> int {
    alpha * sample + (WEIGHT_ONE - alpha) * previous
}

/// The exponential moving average after one more sample: the blend of the
/// sample and the previous estimate, with weight `alpha` on the sample,
/// rounded to the nearest whole number, halves upwards.
pub open spec fn smoothed(alpha: nat, sample: nat, previous: nat) -> nat
    recommends
        alpha <= WEIGHT_ONE,
{
    ((blend(alpha, sample, previous) + WEIGHT_ONE / 2) / (WEIGHT_ONE as int)) as nat
}

/// The blend lies between its two inputs, scaled: it is a weighted mean.
pub proof fn lemma_blend_between(alpha: nat, sample: nat, previous: nat)
    requires
        alpha <= WEIGHT_ONE,
    ensures
        sample <= previous ==> WEIGHT_ONE * sample <= blend(alpha, sample, previous) <= WEIGHT_ONE
            * previous,
        previous <= sample ==> WEIGHT_ONE * previous <= blend(alpha, sample, previous)
            <= WEIGHT_ONE * sample,
{
    let one = WEIGHT_ONE as int;
    let a = alpha as int;
    let s = sample as int;
    let p = previous as int;
    assert(a * s + (one - a) * p == one * s + (one - a) * (p - s)) by (nonlinear_arith);
    assert(a * s + (one - a) * p == one * p + a * (s - p)) by (nonlinear_arith);
    assert(s <= p ==> (one - a) * (p - s) >= 0 && a * (s - p) <= 0) by (nonlinear_arith)
        requires
            0 <= a <= one,
    ;
    assert(p <= s ==> (one - a) * (p - s) <= 0 && a * (s - p) >= 0) by (nonlinear_arith)
        requires
            0 <= a <= one,
    ;
}

/// The smoothed value never leaves the range of its two inputs.
pub proof fn lemma_smoothed_between(alpha: nat, sample: nat, previous: nat)
    requires
        alpha <= WEIGHT_ONE,
    ensures
        sample <= previous ==> sample <= smoothed(alpha, sample, previous) <= previous,
        previous <= sample ==> previous <= smoothed(alpha, sample, previous) <= sample,
{
    lemma_blend_between(alpha, sample, previous);
}

/// The smoothed value is the whole number nearest to the exact blend: the
/// two differ by half a unit at most.
pub proof fn lemma_smoothed_nearest(alpha: nat, sample: nat, previous: nat)
    requires
        alpha <= WEIGHT_ONE,
    ensures
        -(WEIGHT_ONE / 2) <= WEIGHT_ONE * smoothed(alpha, sample, previous) - blend(
            alpha,
            sample,
            previous,
        ) <= WEIGHT_ONE / 2,
{
    lemma_blend_between(alpha, sample, previous);
}

/// With weight zero a sample changes nothing.
pub proof fn lemma_smoothed_zero_weight(sample: nat, previous: nat)
    ensures
        smoothed(0, sample, previous) == previous,
{
    assert(0 * sample == 0);
}

/// With weight one the sample replaces the estimate.
pub proof fn lemma_smoothed_full_weight(sample: nat, previous: nat)
    ensures
        smoothed(WEIGHT_ONE as nat, sample, previous) == sample,
{
    assert((WEIGHT_ONE - WEIGHT_ONE as nat) * previous == 0);
}

/// The exponential moving average after one more sample.
pub fn smooth(alpha: u32, sample: u64, previous: u64) -> (estimate: u64)
    requires
        alpha <= WEIGHT_ONE,
    ensures
        estimate == smoothed(alpha as nat, sample as nat, previous as nat),
{
    proof {
        lemma_blend_between(alpha as nat, sample as nat, previous as nat);
        lemma_smoothed_between(alpha as nat, sample as nat, previous as nat);
        assert(0 <= alpha * sample <= WEIGHT_ONE * u64::MAX) by (nonlinear_arith)
            requires
                0 <= alpha <= WEIGHT_ONE,
                0 <= sample <= u64::MAX,
        ;
        assert(0 <= (WEIGHT_ONE - alpha) * previous <= WEIGHT_ONE * u64::MAX)
            by (nonlinear_arith)
            requires
                0 <= alpha <= WEIGHT_ONE,
                0 <= previous <= u64::MAX,
        ;
    }
    let one: u128 = WEIGHT_ONE as u128;
    let weighted: u128 = (alpha as u128) * (sample as u128) + (one - alpha as u128) * (
    previous as u128);
    ((weighted + one / 2) / one) as u64
}

} // verus!
