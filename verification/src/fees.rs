//! The arithmetic of the split: the fee is a whole percentage of the
//! deposit, rounded down, and the rest is what remains.

use vstd::prelude::*;

verus! {

/// The fee on `amount` at `percent` per cent, rounded down.
pub open spec fn fee_share(amount: nat, percent: nat) -> nat {
    (amount * percent) / 100
}

/// What is left of `amount` once the fee is taken.
pub open spec fn rest_share(amount: nat, percent: nat) -> int {
    amount - fee_share(amount, percent)
}

/// Whether the fee on `amount` can be paid out of `amount`, so that the
/// rest is an amount too. It always is at 100 per cent or less.
pub open spec fn covers_fee(amount: nat, percent: nat) -> bool {
    fee_share(amount, percent) <= amount
}

/// The two parts of an accepted deposit.
#[derive(Debug, Clone, Copy, PartialEq, Eq, Structural)]
pub struct Split {
    pub fees_amount: u128,
    pub rest_amount: u128,
}

/// `fee_share` is the floor of `amount * percent / 100`: the largest
/// whole number whose hundredfold does not exceed `amount * percent`.
pub proof fn lemma_fee_is_floor(amount: nat, percent: nat)
    ensures
        100 * fee_share(amount, percent) <= amount * percent,
        amount * percent < 100 * (fee_share(amount, percent) + 1),
{
    let product = amount * percent;
    assert(100 * (product / 100) <= product < 100 * (product / 100 + 1)) by (nonlinear_arith)
        requires
            product >= 0,
    ;
}

/// A larger deposit never pays a smaller fee.
pub proof fn lemma_fee_monotone(smaller: nat, larger: nat, percent: nat)
    requires
        smaller <= larger,
    ensures
        fee_share(smaller, percent) <= fee_share(larger, percent),
{
    assert(smaller * percent <= larger * percent) by (nonlinear_arith)
        requires
            smaller <= larger,
    ;
    let low = smaller * percent;
    let high = larger * percent;
    assert(low / 100 <= high / 100) by (nonlinear_arith)
        requires
            0 <= low <= high,
    ;
}

/// At 100 per cent or less the fee never exceeds the deposit.
pub proof fn lemma_fee_within_deposit(amount: nat, percent: nat)
    requires
        percent <= 100,
    ensures
        covers_fee(amount, percent),
{
    assert(amount * percent <= amount * 100) by (nonlinear_arith)
        requires
            percent <= 100,
    ;
    let product = amount * percent;
    assert(product / 100 <= amount) by (nonlinear_arith)
        requires
            0 <= product <= amount * 100,
    ;
}

/// Above 100 per cent the fee is the deposit plus the fee on it at the
/// excess over 100.
pub proof fn lemma_fee_above_hundred(amount: nat, percent: nat)
    requires
        percent > 100,
    ensures
        fee_share(amount, percent) == amount + fee_share(amount, (percent - 100) as nat),
        covers_fee(amount, percent) <==> amount * (percent - 100) < 100,
{
    let excess = (percent - 100) as nat;
    let over = amount * excess;
    assert(amount * percent == amount * 100 + over) by (nonlinear_arith)
        requires
            percent == excess + 100,
            over == amount * excess,
    ;
    assert((amount * 100 + over) / 100 == amount + over / 100) by (nonlinear_arith)
        requires
            over >= 0,
    ;
    assert((over / 100 == 0) <==> over < 100) by (nonlinear_arith)
        requires
            over >= 0,
    ;
}

/// The fee on `amount` at `percent` per cent with the quotient and the
/// remainder of `amount` by 100 taken apart, which keeps every
/// intermediate value below `amount * percent`.
proof fn lemma_fee_by_parts(amount: nat, percent: nat)
    ensures
        fee_share(amount, percent) == (amount / 100) * percent + ((amount % 100) * percent) / 100,
{
    let q = amount / 100;
    let r = amount % 100;
    let tail = r * percent;
    assert(amount == 100 * q + r) by (nonlinear_arith)
        requires
            q == amount / 100,
            r == amount % 100,
    ;
    assert(amount * percent == 100 * (q * percent) + tail) by (nonlinear_arith)
        requires
            amount == 100 * q + r,
            tail == r * percent,
    ;
    let whole = q * percent;
    assert((100 * whole + tail) / 100 == whole + tail / 100) by (nonlinear_arith)
        requires
            tail >= 0,
    ;
}

/// Whether the fee on `amount` can be paid out of `amount`.
pub fn fee_is_covered(amount: u128, percent: u128) -> (covered: bool)
    ensures
        covered == covers_fee(amount as nat, percent as nat),
{
    if percent <= 100 {
        proof {
            lemma_fee_within_deposit(amount as nat, percent as nat);
        }
        return true;
    }
    let excess: u128 = percent - 100;
    proof {
        lemma_fee_above_hundred(amount as nat, percent as nat);
    }
    if amount == 0 {
        assert(amount * excess == 0) by (nonlinear_arith)
            requires
                amount == 0,
        ;
        true
    } else if amount >= 100 || excess >= 100 {
        assert(amount * excess >= 100) by (nonlinear_arith)
            requires
                amount >= 1,
                excess >= 1,
                amount >= 100 || excess >= 100,
        ;
        false
    } else {
        assert(amount * excess < 10000) by (nonlinear_arith)
            requires
                amount < 100,
                excess < 100,
        ;
        amount * excess < 100
    }
}

/// Cuts `amount` into the fee at `percent` per cent, rounded down, and
/// the rest.
pub fn split_amount(amount: u128, percent: u128) -> (split: Split)
    requires
        covers_fee(amount as nat, percent as nat),
    ensures
        split.fees_amount == fee_share(amount as nat, percent as nat),
        split.rest_amount == rest_share(amount as nat, percent as nat),
        split.fees_amount + split.rest_amount == amount,
{
    if percent > 100 {
        proof {
            lemma_fee_above_hundred(amount as nat, percent as nat);
            let over = amount as nat * (percent - 100) as nat;
            assert(over / 100 == 0) by (nonlinear_arith)
                requires
                    0 <= over < 100,
            ;
        }
        return Split { fees_amount: amount, rest_amount: 0 };
    }
    let quotient: u128 = amount / 100;
    let remainder: u128 = amount % 100;
    proof {
        lemma_fee_by_parts(amount as nat, percent as nat);
        assert(quotient * percent <= amount) by (nonlinear_arith)
            requires
                quotient == amount / 100,
                percent <= 100,
        ;
        assert(remainder * percent <= 9900) by (nonlinear_arith)
            requires
                remainder < 100,
                percent <= 100,
        ;
    }
    let fees_amount: u128 = quotient * percent + (remainder * percent) / 100;
    Split { fees_amount, rest_amount: amount - fees_amount }
}

} // verus!
