//! Exact integer arithmetic on token and native amounts.
//!
//! All amounts are integers: token amounts count whole presale tokens,
//! native amounts count base units of the ledger's native currency, and
//! minted amounts count base units of the presale token (scaled by the
//! mint's decimal precision). The pricing collaborator supplies the token
//! price already scaled to native base units per token, so every product
//! here is exact; overflow is reported, never wrapped.

use vstd::prelude::*;

verus! {

/// `10^n`, the scale factor for a mint with `n` decimals.
pub open spec fn pow10(n: nat) -> nat
    decreases n,
{
    if n == 0 {
        1
    } else {
        10 * pow10((n - 1) as nat)
    }
}

/// `pow10` is monotonic: more decimals never shrink the scale factor.
pub proof fn lemma_pow10_monotonic(a: nat, b: nat)
    requires
        a <= b,
    ensures
        pow10(a) <= pow10(b),
    decreases b,
{
    if a < b {
        lemma_pow10_monotonic(a, (b - 1) as nat);
        assert(pow10(b) == 10 * pow10((b - 1) as nat));
    }
}

pub proof fn lemma_pow10_positive(n: nat)
    ensures
        pow10(n) >= 1,
    decreases n,
{
    if n > 0 {
        lemma_pow10_positive((n - 1) as nat);
    }
}

/// The native base units the buyer owes for `token_amount` tokens at
/// `price_base_units` native base units per token. Exact: two 64-bit
/// factors always fit a 128-bit product.
pub fn expected_base_units(token_amount: u64, price_base_units: u64) -> (r: u128)
    ensures
        r == token_amount * price_base_units,
{
    proof {
        assert(token_amount * price_base_units <= u128::MAX) by (nonlinear_arith)
            requires
                token_amount <= u64::MAX,
                price_base_units <= u64::MAX,
        ;
    }
    (token_amount as u128) * (price_base_units as u128)
}

/// Whether a received balance delta satisfies a claim for `expected`
/// native base units, within the one-percent tolerance band that absorbs
/// network fee variance: the delta must be at least ninety-nine percent
/// of the expected amount, exactly.
pub open spec fn spec_meets_tolerance(delta: int, expected: int) -> bool {
    delta >= 0 && 100 * delta >= 99 * expected
}

/// Decides the tolerance check. A delta of exactly ninety-nine percent of
/// the expected amount is accepted; anything below is not.
pub fn meets_tolerance(delta: i128, expected: u128) -> (r: bool)
    ensures
        r == spec_meets_tolerance(delta as int, expected as int),
{
    if delta < 0 {
        return false;
    }
    let d = delta as u128;
    let threshold = expected - expected / 100;
    proof {
        let q = expected as int / 100;
        let rm = expected as int % 100;
        assert(expected == 100 * q + rm && 0 <= rm < 100) by {
            vstd::arithmetic::div_mod::lemma_fundamental_div_mod(expected as int, 100);
        }
        assert((d >= expected - q) == (100 * d >= 99 * expected));
    }
    d >= threshold
}

/// Law: the tolerance boundary is exact. For an expected amount that the
/// per-mille fractions divide evenly, a delta of exactly ninety-nine
/// percent is accepted, a delta of ninety-eight point nine percent is
/// not, and neither is anything else below the boundary.
pub proof fn lemma_tolerance_boundary(expected: int)
    requires
        expected >= 0,
        expected % 1000 == 0,
    ensures
        spec_meets_tolerance(99 * expected / 100, expected),
        expected > 0 ==> !spec_meets_tolerance(989 * expected / 1000, expected),
        forall|delta: int| delta < 99 * expected / 100 ==> !spec_meets_tolerance(delta, expected),
{
    let k = expected / 1000;
    vstd::arithmetic::div_mod::lemma_fundamental_div_mod(expected, 1000);
    assert(expected == 1000 * k);
    assert(99 * expected == 100 * (990 * k)) by (nonlinear_arith)
        requires
            expected == 1000 * k,
    ;
    vstd::arithmetic::div_mod::lemma_div_multiples_vanish(990 * k, 100);
    assert(99 * expected / 100 == 990 * k);
    assert(989 * expected == 1000 * (989 * k)) by (nonlinear_arith)
        requires
            expected == 1000 * k,
    ;
    vstd::arithmetic::div_mod::lemma_div_multiples_vanish(989 * k, 1000);
    assert(989 * expected / 1000 == 989 * k);
}

/// The minted base units for `token_amount` whole tokens on a mint with
/// `decimals` decimal places. `None` exactly when the product does not fit
/// in a `u64`.
pub fn to_base_units(token_amount: u64, decimals: u8) -> (r: Option<u64>)
    ensures
        r matches Some(v) ==> v == token_amount * pow10(decimals as nat),
        r is None <==> token_amount * pow10(decimals as nat) > u64::MAX,
{
    if token_amount == 0 {
        proof {
            lemma_pow10_positive(decimals as nat);
        }
        return Some(0);
    }
    let mut scale: u64 = 1;
    let mut i: u8 = 0;
    while i < decimals
        invariant
            i <= decimals,
            token_amount >= 1,
            scale == pow10(i as nat),
            token_amount * pow10(i as nat) <= u64::MAX,
        decreases decimals - i,
    {
        proof {
            lemma_pow10_positive(i as nat);
            assert(pow10((i + 1) as nat) == 10 * pow10(i as nat));
        }
        let next = scale.checked_mul(10);
        match next {
            Some(s) => {
                let q: u64 = u64::MAX / s;
                if token_amount > q {
                    proof {
                        assert(u64::MAX < (q + 1) * s) by (nonlinear_arith)
                            requires
                                s >= 1,
                                q == u64::MAX as int / s as int,
                        ;
                        assert(token_amount * s > u64::MAX) by (nonlinear_arith)
                            requires
                                token_amount > q,
                                u64::MAX < (q + 1) * s,
                                s >= 1,
                        ;
                        lemma_scaled_overflow_is_final(
                            token_amount as nat,
                            (i + 1) as nat,
                            decimals as nat,
                            u64::MAX as nat,
                        );
                    }
                    return None;
                }
                proof {
                    assert(token_amount * s <= q * s) by (nonlinear_arith)
                        requires
                            token_amount <= q,
                            s >= 0,
                    ;
                    assert(q * s <= u64::MAX) by (nonlinear_arith)
                        requires
                            s >= 1,
                            q == u64::MAX as int / s as int,
                    ;
                }
                scale = s;
                i = i + 1;
            },
            None => {
                proof {
                    assert(10 * scale > u64::MAX);
                    assert(token_amount * (10 * pow10(i as nat)) >= 10 * pow10(i as nat))
                        by (nonlinear_arith)
                        requires
                            token_amount >= 1,
                            pow10(i as nat) >= 1,
                    ;
                    lemma_scaled_overflow_is_final(
                        token_amount as nat,
                        (i + 1) as nat,
                        decimals as nat,
                        u64::MAX as nat,
                    );
                }
                return None;
            },
        }
    }
    Some(token_amount * scale)
}

/// Once `amount * pow10(i)` exceeds a bound, so does `amount * pow10(n)`
/// for every `n >= i`.
proof fn lemma_scaled_overflow_is_final(amount: nat, i: nat, n: nat, bound: nat)
    requires
        i <= n,
        amount * pow10(i) > bound,
    ensures
        amount * pow10(n) > bound,
{
    lemma_pow10_monotonic(i, n);
    lemma_pow10_positive(i);
    assert(amount * pow10(n) >= amount * pow10(i)) by (nonlinear_arith)
        requires
            pow10(i) <= pow10(n),
            amount >= 0,
    ;
}

/// The referral bonus owed on a confirmed purchase of `token_amount`
/// tokens at `bonus_percent` percent, in base units of a mint with
/// `decimals` decimal places.
pub open spec fn spec_referral_bonus(token_amount: int, decimals: nat, bonus_percent: int) -> int {
    (token_amount * pow10(decimals) * bonus_percent) / 100
}

/// Computes the referral bonus in mint base units. Base units are fine
/// enough to keep the bonus exact on any mint with at least two decimal
/// places, so accrual loses nothing to rounding (see
/// `lemma_referral_bonus_additive`). `None` exactly when the purchased
/// base units, or the bonus itself, do not fit in a `u64`.
pub fn referral_bonus_base_units(token_amount: u64, decimals: u8, bonus_percent: u64) -> (r: Option<
    u64,
>)
    ensures
        r matches Some(v) ==> v == spec_referral_bonus(
            token_amount as int,
            decimals as nat,
            bonus_percent as int,
        ),
        r is Some <==> token_amount * pow10(decimals as nat) <= u64::MAX && spec_referral_bonus(
            token_amount as int,
            decimals as nat,
            bonus_percent as int,
        ) <= u64::MAX,
{
    let base = match to_base_units(token_amount, decimals) {
        Some(b) => b,
        None => {
            return None;
        },
    };
    proof {
        assert(base * bonus_percent <= u128::MAX) by (nonlinear_arith)
            requires
                base <= u64::MAX,
                bonus_percent <= u64::MAX,
        ;
    }
    let bonus: u128 = (base as u128) * (bonus_percent as u128) / 100;
    if bonus > u64::MAX as u128 {
        None
    } else {
        Some(bonus as u64)
    }
}

/// Law: referral accrual is additive. On a mint with at least two
/// decimal places the base-unit bonus is exactly linear in the purchased
/// amount, so two purchases earn the referrer exactly what one purchase
/// of their sum would: nothing is lost to rounding, in any order of
/// settlement.
pub proof fn lemma_referral_bonus_additive(a1: int, a2: int, decimals: nat, bonus_percent: int)
    requires
        decimals >= 2,
    ensures
        spec_referral_bonus(a1 + a2, decimals, bonus_percent) == spec_referral_bonus(
            a1,
            decimals,
            bonus_percent,
        ) + spec_referral_bonus(a2, decimals, bonus_percent),
{
    let p = pow10((decimals - 2) as nat);
    assert(pow10((decimals - 1) as nat) == 10 * p);
    assert(pow10(decimals) == 10 * pow10((decimals - 1) as nat));
    lemma_referral_bonus_exact(a1, decimals, bonus_percent);
    lemma_referral_bonus_exact(a2, decimals, bonus_percent);
    lemma_referral_bonus_exact(a1 + a2, decimals, bonus_percent);
    assert((a1 + a2) * p * bonus_percent == a1 * p * bonus_percent + a2 * p * bonus_percent)
        by (nonlinear_arith);
}

/// On a mint with at least two decimal places the division by one
/// hundred is exact: the bonus equals `amount * pow10(decimals - 2) *
/// percent`.
pub proof fn lemma_referral_bonus_exact(token_amount: int, decimals: nat, bonus_percent: int)
    requires
        decimals >= 2,
    ensures
        spec_referral_bonus(token_amount, decimals, bonus_percent) == token_amount * pow10(
            (decimals - 2) as nat,
        ) * bonus_percent,
{
    let p = pow10((decimals - 2) as nat);
    assert(pow10((decimals - 1) as nat) == 10 * p);
    assert(pow10(decimals) == 10 * pow10((decimals - 1) as nat));
    assert(token_amount * pow10(decimals) * bonus_percent == 100 * (token_amount * p
        * bonus_percent)) by (nonlinear_arith)
        requires
            pow10(decimals) == 100 * p,
    ;
    vstd::arithmetic::div_mod::lemma_div_multiples_vanish(token_amount * p * bonus_percent, 100);
}

} // verus!
