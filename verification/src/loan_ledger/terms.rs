//! The arithmetic of a loan: how much collateral it takes and how much of it a
//! repayment earns back. All ratios are in basis points, and every division
//! rounds down.
use super::{Config, BPS};
use vstd::arithmetic::div_mod::*;
use vstd::arithmetic::mul::*;
use vstd::prelude::*;

verus! {

/// The loan-to-value that a reputation score qualifies for: the base rate, less
/// the score's share of the span down to the floor.
pub open spec fn ltv(config: Config, score: int) -> int {
    config.base_ltv_bps - (config.base_ltv_bps - config.min_ltv_bps) * score / (BPS as int)
}

/// The collateral that a principal takes at a loan-to-value.
pub open spec fn collateral(principal: int, ltv_bps: int) -> int {
    principal * ltv_bps / (BPS as int)
}

/// The share of the collateral that matches the share of the principal repaid.
pub open spec fn earned(locked: int, repaid: int, principal: int) -> int {
    locked * repaid / principal
}

/// What `share` leaves after the safety buffer is withheld.
pub open spec fn less_buffer(share: int, safety_buffer_bps: int) -> int {
    share * (BPS - safety_buffer_bps) / (BPS as int)
}

/// The collateral that is free once `repaid` of the principal is repaid: all of
/// it when the loan is paid off, else the share earned, less the safety buffer.
pub open spec fn releasable(
    safety_buffer_bps: int,
    locked: int,
    repaid: int,
    principal: int,
) -> int {
    if repaid >= principal {
        locked
    } else {
        less_buffer(earned(locked, repaid, principal), safety_buffer_bps)
    }
}

/// A part of a whole is no larger than the whole, and none of it is nothing.
proof fn lemma_part(whole: int, part: int, of: int)
    requires
        0 <= whole,
        0 <= part <= of,
        0 < of,
    ensures
        0 <= whole * part / of <= whole,
        part == of ==> whole * part / of == whole,
        part == 0 ==> whole * part / of == 0,
{
    assert(0 <= whole * part <= whole * of) by (nonlinear_arith)
        requires
            0 <= whole,
            0 <= part <= of,
    ;
    lemma_div_is_ordered(0, whole * part, of);
    lemma_div_is_ordered(whole * part, whole * of, of);
    lemma_div_multiples_vanish(whole, of);
    assert(of * whole == whole * of) by (nonlinear_arith);
    lemma_div_of0(of);
    assert(whole * 0 == 0);
}

/// A larger part of a larger whole is larger.
proof fn lemma_part_monotone(small: int, large: int, p: int, q: int, of: int)
    requires
        0 <= small <= large,
        0 <= p <= q,
        0 < of,
    ensures
        small * p / of <= large * q / of,
{
    assert(small * p <= large * q) by (nonlinear_arith)
        requires
            0 <= small <= large,
            0 <= p <= q,
    ;
    lemma_div_is_ordered(small * p, large * q, of);
}

/// The rate lies between the floor and the base: no score pays the base, a
/// perfect score the floor.
pub proof fn law_ltv_between_floor_and_base(config: Config, score: int)
    requires
        config.wf(),
        0 <= score <= BPS,
    ensures
        config.min_ltv_bps <= ltv(config, score) <= config.base_ltv_bps,
        ltv(config, 0) == config.base_ltv_bps,
        ltv(config, BPS as int) == config.min_ltv_bps,
{
    let span = config.base_ltv_bps - config.min_ltv_bps;
    lemma_part(span, score, BPS as int);
    lemma_part(span, 0, BPS as int);
    lemma_part(span, BPS as int, BPS as int);
}

/// A better score never pays a higher rate.
pub proof fn law_better_score_lowers_ltv(config: Config, worse: int, better: int)
    requires
        config.wf(),
        0 <= worse <= better <= BPS,
    ensures
        ltv(config, better) <= ltv(config, worse),
{
    let span = config.base_ltv_bps - config.min_ltv_bps;
    lemma_part_monotone(span, span, worse, better, BPS as int);
}

/// At a loan-to-value of a hundred percent or more, the collateral covers the principal.
pub proof fn law_collateral_covers_principal(principal: int, ltv_bps: int)
    requires
        0 <= principal,
        BPS <= ltv_bps,
    ensures
        collateral(principal, ltv_bps) >= principal,
{
    lemma_part_monotone(principal, principal, BPS as int, ltv_bps, BPS as int);
    lemma_part(principal, BPS as int, BPS as int);
}

/// The collateral fits where the product it is computed from does.
pub proof fn lemma_collateral_in_range(principal: i128, ltv_bps: int)
    requires
        0 <= principal,
        0 <= ltv_bps,
        principal * ltv_bps <= i128::MAX,
    ensures
        0 <= collateral(principal as int, ltv_bps) <= i128::MAX,
{
    assert(0 <= principal * ltv_bps) by (nonlinear_arith)
        requires
            0 <= principal,
            0 <= ltv_bps,
    ;
    lemma_part(principal * ltv_bps, 1, BPS as int);
    assert(principal * ltv_bps * 1 == principal * ltv_bps);
}

/// An installment is no larger than the principal.
pub proof fn lemma_installment_in_range(principal: i128, installment_count: u32)
    requires
        0 <= principal,
        0 < installment_count,
    ensures
        0 <= principal as int / installment_count as int <= principal,
{
    lemma_part(principal as int, 1, installment_count as int);
    assert(principal as int * 1 == principal as int);
}

/// What is free never exceeds the share earned, nor that the collateral: the
/// rounding and the buffer are in the protocol's favour until the loan closes.
pub proof fn law_release_within_share(
    safety_buffer_bps: int,
    locked: int,
    repaid: int,
    principal: int,
)
    requires
        0 <= safety_buffer_bps < BPS,
        0 <= locked,
        0 <= repaid <= principal,
        0 < principal,
    ensures
        0 <= releasable(safety_buffer_bps, locked, repaid, principal) <= earned(
            locked,
            repaid,
            principal,
        ) <= locked,
        repaid == 0 ==> releasable(safety_buffer_bps, locked, repaid, principal) == 0,
        repaid == principal ==> releasable(safety_buffer_bps, locked, repaid, principal) == locked,
{
    lemma_part(locked, repaid, principal);
    let share = earned(locked, repaid, principal);
    lemma_part(share, BPS - safety_buffer_bps, BPS as int);
    if repaid == 0 {
        assert(share == 0);
        assert(0 * (BPS - safety_buffer_bps) == 0) by (nonlinear_arith);
        lemma_div_of0(BPS as int);
    }
}

/// Repaying more never frees less.
pub proof fn law_release_grows(
    safety_buffer_bps: int,
    locked: int,
    before: int,
    after: int,
    principal: int,
)
    requires
        0 <= safety_buffer_bps < BPS,
        0 <= locked,
        0 <= before <= after <= principal,
        0 < principal,
    ensures
        releasable(safety_buffer_bps, locked, before, principal) <= releasable(
            safety_buffer_bps,
            locked,
            after,
            principal,
        ),
{
    law_release_within_share(safety_buffer_bps, locked, before, principal);
    if after < principal {
        lemma_part(locked, before, principal);
        lemma_part_monotone(locked, locked, before, after, principal);
        lemma_part_monotone(
            earned(locked, before, principal),
            earned(locked, after, principal),
            BPS - safety_buffer_bps,
            BPS - safety_buffer_bps,
            BPS as int,
        );
    }
}

/// On a loan whose collateral covers its principal, what is still held covers
/// what is still owed, however much has been repaid.
pub proof fn law_remaining_covers_outstanding(
    safety_buffer_bps: int,
    locked: int,
    repaid: int,
    principal: int,
)
    requires
        0 <= safety_buffer_bps < BPS,
        0 <= repaid <= principal,
        0 < principal <= locked,
    ensures
        locked - releasable(safety_buffer_bps, locked, repaid, principal) >= principal - repaid,
{
    law_release_within_share(safety_buffer_bps, locked, repaid, principal);
    let share = earned(locked, repaid, principal);
    lemma_fundamental_div_mod(locked * repaid, principal);
    lemma_mod_bound(locked * repaid, principal);
    assert(locked - share >= principal - repaid) by (nonlinear_arith)
        requires
            principal * share <= locked * repaid,
            0 <= repaid <= principal,
            0 < principal <= locked,
    {
        // principal * (locked - share) >= locked * (principal - repaid)
        //                              >= principal * (principal - repaid)
        assert(principal * (locked - share) >= locked * (principal - repaid));
        assert(locked * (principal - repaid) >= principal * (principal - repaid));
        assert(principal * (locked - share) >= principal * (principal - repaid));
    }
}

/// Until all of the principal is repaid, some collateral is held back.
pub proof fn law_some_is_held_until_paid_off(
    safety_buffer_bps: int,
    locked: int,
    repaid: int,
    principal: int,
)
    requires
        0 <= safety_buffer_bps < BPS,
        0 < locked,
        0 <= repaid < principal,
    ensures
        releasable(safety_buffer_bps, locked, repaid, principal) < locked,
{
    law_release_within_share(safety_buffer_bps, locked, repaid, principal);
    let share = earned(locked, repaid, principal);
    lemma_rounded_down(locked * repaid, principal, share);
    assert(share < locked) by (nonlinear_arith)
        requires
            share * principal <= locked * repaid,
            0 < locked,
            0 <= repaid < principal,
    ;
}

/// Rounding down is the only quotient that fits.
pub proof fn lemma_rounded_down(x: int, d: int, q: int)
    requires
        0 < d,
    ensures
        q * d <= x < (q + 1) * d <==> q == x / d,
{
    lemma_fundamental_div_mod(x, d);
    lemma_mod_bound(x, d);
    let f = x / d;
    assert(f * d <= x < (f + 1) * d) by (nonlinear_arith)
        requires
            x == d * f + x % d,
            0 <= x % d < d,
    ;
    if q * d <= x < (q + 1) * d {
        assert(q == f) by (nonlinear_arith)
            requires
                0 < d,
                q * d <= x < (q + 1) * d,
                f * d <= x < (f + 1) * d,
        ;
    }
}

/// The reduction that a score earns is its share of the span between the base and
/// the floor, rounded down: `score` in ten thousand parts of it, and not a basis
/// point more or less.
pub proof fn law_reduction_is_proportional(config: Config, score: int)
    requires
        config.min_ltv_bps <= config.base_ltv_bps,
        0 <= score <= 10_000,
    ensures
        ({
            let span = config.base_ltv_bps - config.min_ltv_bps;
            let reduction = config.base_ltv_bps - ltv(config, score);
            reduction * 10_000 <= span * score < (reduction + 1) * 10_000
        }),
{
    let span = config.base_ltv_bps - config.min_ltv_bps;
    lemma_rounded_down(span * score, 10_000, config.base_ltv_bps - ltv(config, score));
}

/// The collateral is the rate's share of the principal, in basis points, rounded
/// down.
pub proof fn law_collateral_is_proportional(principal: int, ltv_bps: int)
    ensures
        ({
            let taken = collateral(principal, ltv_bps);
            taken * 10_000 <= principal * ltv_bps < (taken + 1) * 10_000
        }),
{
    lemma_rounded_down(principal * ltv_bps, 10_000, collateral(principal, ltv_bps));
}

/// What is free is the share of the collateral that matches the share of the
/// principal repaid, rounded down, less the buffer's share of that, rounded down
/// again; and all of the collateral once all of the principal is repaid. `share`
/// and `free` are any numbers that fit the two roundings: there is one of each.
pub proof fn law_release_is_proportional(
    safety_buffer_bps: int,
    locked: int,
    repaid: int,
    principal: int,
    share: int,
    free: int,
)
    requires
        0 < principal,
        share * principal <= locked * repaid < (share + 1) * principal,
        free * 10_000 <= share * (10_000 - safety_buffer_bps) < (free + 1) * 10_000,
    ensures
        repaid < principal ==> releasable(safety_buffer_bps, locked, repaid, principal) == free,
        repaid >= principal ==> releasable(safety_buffer_bps, locked, repaid, principal) == locked,
        release_in_range(safety_buffer_bps, locked, repaid, principal) <==> (repaid >= principal
            || locked * repaid <= i128::MAX && share * (10_000 - safety_buffer_bps) <= i128::MAX),
{
    lemma_rounded_down(locked * repaid, principal, share);
    lemma_rounded_down(share * (10_000 - safety_buffer_bps), 10_000, free);
}

/// The loan-to-value for a score.
pub fn compute_ltv(config: Config, score: u32) -> (r: u32)
    requires
        config.wf(),
        score <= BPS,
    ensures
        r == ltv(config, score as int),
        ({
            let reduction = config.base_ltv_bps - r;
            reduction * 10_000 <= (config.base_ltv_bps - config.min_ltv_bps) * score < (reduction
                + 1) * 10_000
        }),
{
    proof {
        law_ltv_between_floor_and_base(config, score as int);
        law_reduction_is_proportional(config, score as int);
        let span = config.base_ltv_bps - config.min_ltv_bps;
        assert(0 <= span * score <= u32::MAX * BPS) by (nonlinear_arith)
            requires
                0 <= span <= u32::MAX,
                0 <= score <= BPS,
        ;
    }
    let span: i128 = (config.base_ltv_bps - config.min_ltv_bps) as i128;
    let reduction: i128 = span * score as i128 / BPS;
    (config.base_ltv_bps as i128 - reduction) as u32
}

/// The collateral for a principal, unless the product is out of range.
pub fn compute_collateral(principal: i128, ltv_bps: u32) -> (r: Option<i128>)
    requires
        principal > 0,
    ensures
        r == if principal * ltv_bps <= i128::MAX {
            Some(collateral(principal as int, ltv_bps as int) as i128)
        } else {
            None
        },
        r matches Some(c) ==> c == collateral(principal as int, ltv_bps as int) && c * 10_000
            <= principal * ltv_bps < (c + 1) * 10_000,
{
    let product = principal.checked_mul(ltv_bps as i128);
    proof {
        assert(0 <= principal * ltv_bps) by (nonlinear_arith)
            requires
                principal > 0,
        ;
        if principal * ltv_bps <= i128::MAX {
            lemma_collateral_in_range(principal, ltv_bps as int);
            law_collateral_is_proportional(principal as int, ltv_bps as int);
        }
    }
    match product {
        Some(p) => Some(p / BPS),
        None => None,
    }
}

/// Whether the products that a release goes through are in range.
pub open spec fn release_in_range(
    safety_buffer_bps: int,
    locked: int,
    repaid: int,
    principal: int,
) -> bool {
    repaid < principal ==> locked * repaid <= i128::MAX && earned(locked, repaid, principal) * (BPS
        - safety_buffer_bps) <= i128::MAX
}

/// The collateral that is free once `repaid` of the principal is repaid, unless
/// a product on the way is out of range.
pub fn compute_releasable(
    safety_buffer_bps: u32,
    locked: i128,
    repaid: i128,
    principal: i128,
) -> (r: Option<i128>)
    requires
        safety_buffer_bps < BPS,
        0 <= locked,
        0 <= repaid <= principal,
        0 < principal,
    ensures
        r is Some <==> release_in_range(
            safety_buffer_bps as int,
            locked as int,
            repaid as int,
            principal as int,
        ),
        r matches Some(x) ==> x == releasable(
            safety_buffer_bps as int,
            locked as int,
            repaid as int,
            principal as int,
        ),
{
    if repaid >= principal {
        return Some(locked);
    }
    proof {
        law_release_within_share(
            safety_buffer_bps as int,
            locked as int,
            repaid as int,
            principal as int,
        );
        assert(0 <= locked * repaid) by (nonlinear_arith)
            requires
                0 <= locked,
                0 <= repaid,
        ;
    }
    match locked.checked_mul(repaid) {
        Some(product) => {
            let share: i128 = product / principal;
            let kept: i128 = BPS - safety_buffer_bps as i128;
            proof {
                assert(0 <= share * kept) by (nonlinear_arith)
                    requires
                        0 <= share,
                        0 <= kept,
                ;
            }
            match share.checked_mul(kept) {
                Some(p) => Some(p / BPS),
                None => None,
            }
        },
        None => None,
    }
}

} // verus!
