//! The ledger's arithmetic on amounts and on decimal fractions of eighteen
//! places, by which a part of a stake is computed.

use vstd::prelude::*;
use vstd::arithmetic::div_mod::{lemma_div_is_ordered, lemma_div_multiples_vanish_quotient};
use cosmwasm_std::{Decimal, Uint128};

verus! {

/// The number of atomic units that make one whole in a decimal fraction.
pub const DECIMAL_FRACTIONAL: u128 = 1_000_000_000_000_000_000;

/// The number of thousandths that make the whole collateral.
pub const THOUSAND: u128 = 1000;

/// The atomic units of the decimal fraction `numerator / denominator`,
/// rounded down.
pub open spec fn ratio_atomics(numerator: u128, denominator: u128) -> int {
    numerator * DECIMAL_FRACTIONAL / (denominator as int)
}

/// Calls `cosmwasm_std::Decimal::from_ratio` and hands back the atomic units
/// of the decimal it gives. The call multiplies the numerator by ten to the
/// eighteenth, divides by the denominator and rounds down; it panics on a
/// denominator of zero and on a quotient that does not fit in 128 bits,
/// which the precondition leaves out.
#[verifier::external_body]
fn decimal_from_ratio(numerator: u128, denominator: u128) -> (atomics: u128)
    requires
        denominator != 0,
        ratio_atomics(numerator, denominator) <= u128::MAX,
    ensures
        atomics == ratio_atomics(numerator, denominator),
{
    Decimal::from_ratio(numerator, denominator).atomics().u128()
}

/// The amount `amount` times the decimal fraction of `atomics` atomic units,
/// rounded down.
pub open spec fn times_decimal(amount: u128, atomics: u128) -> int {
    amount * atomics / (DECIMAL_FRACTIONAL as int)
}

/// Calls the multiplication of a `cosmwasm_std::Uint128` by a
/// `cosmwasm_std::Decimal`, on the amount `amount` and the decimal of
/// `atomics` atomic units. The call multiplies the amount by the atomic
/// units, divides by ten to the eighteenth and rounds down; it panics on a
/// quotient that does not fit in 128 bits, which the precondition leaves out.
#[verifier::external_body]
fn mul_decimal(amount: u128, atomics: u128) -> (product: u128)
    requires
        times_decimal(amount, atomics) <= u128::MAX,
    ensures
        product == times_decimal(amount, atomics),
{
    (Uint128::new(amount) * Decimal::new(Uint128::new(atomics))).u128()
}

/// Calls the subtraction of one `cosmwasm_std::Uint128` from another, which
/// panics where the result would be negative; the precondition leaves that
/// out.
#[verifier::external_body]
fn uint128_sub(amount: u128, less: u128) -> (rest: u128)
    requires
        less <= amount,
    ensures
        rest == amount - less,
{
    (Uint128::new(amount) - Uint128::new(less)).u128()
}

/// The part of `collateral` that is withheld at `slash_perc` thousandths,
/// rounded down.
pub open spec fn slash_amount(collateral: u64, slash_perc: u128) -> int {
    collateral * slash_perc / (THOUSAND as int)
}

/// What is left of `collateral` after `slash_perc` thousandths are withheld.
pub open spec fn release_amount(collateral: u64, slash_perc: u128) -> int {
    collateral - slash_amount(collateral, slash_perc)
}

/// The withheld part and what is left make the collateral, with nothing
/// lost to rounding. At up to a thousand thousandths neither part is
/// negative, so that neither is more than the collateral.
pub proof fn lemma_settlement_is_exact(collateral: u64, slash_perc: u128)
    ensures
        release_amount(collateral, slash_perc) + slash_amount(collateral, slash_perc) == collateral,
        slash_perc <= THOUSAND ==> 0 <= slash_amount(collateral, slash_perc) <= collateral,
        slash_perc <= THOUSAND ==> 0 <= release_amount(collateral, slash_perc) <= collateral,
{
    if slash_perc <= THOUSAND {
        let whole = collateral * THOUSAND;
        let part = collateral * slash_perc;
        assert(0 <= part <= whole) by (nonlinear_arith)
            requires
                part == collateral * slash_perc,
                whole == collateral * THOUSAND,
                0 <= slash_perc <= THOUSAND,
                0 <= collateral,
        ;
        lemma_div_is_ordered(part, whole, THOUSAND as int);
        lemma_div_is_ordered(0, part, THOUSAND as int);
        assert(whole / (THOUSAND as int) == collateral) by (nonlinear_arith)
            requires
                whole == collateral * THOUSAND,
                THOUSAND == 1000,
        ;
    }
}

/// The number of atomic units that make one thousandth.
pub const THOUSANDTH: u128 = 1_000_000_000_000_000;

/// The collateral can be split at `slash_perc` thousandths: the thousandths
/// fit in a decimal fraction, and the part that is withheld is no more than
/// the collateral. Up to a thousand thousandths this holds of every
/// collateral; see [`lemma_settlement_is_exact`] and [`can_settle`].
pub open spec fn can_be_settled(collateral: u64, slash_perc: u128) -> bool {
    ratio_atomics(slash_perc, THOUSAND) <= u128::MAX && slash_amount(collateral, slash_perc)
        <= collateral
}

/// The decimal fraction of `slash_perc` thousandths has that many thousandths.
proof fn lemma_thousandths(slash_perc: u128)
    ensures
        ratio_atomics(slash_perc, THOUSAND) == slash_perc * THOUSANDTH,
{
    let scale = THOUSANDTH as int;
    assert(slash_perc * DECIMAL_FRACTIONAL == (slash_perc * scale) * THOUSAND) by (nonlinear_arith)
        requires
            scale == 1_000_000_000_000_000,
            DECIMAL_FRACTIONAL == 1_000_000_000_000_000_000,
            THOUSAND == 1000,
    ;
    assert(((slash_perc * scale) * THOUSAND) / (THOUSAND as int) == slash_perc * scale)
        by (nonlinear_arith)
        requires
            THOUSAND == 1000,
    ;
}

/// Whether `collateral` can be split at `slash_perc` thousandths.
pub fn can_settle(collateral: u64, slash_perc: u128) -> (possible: bool)
    ensures
        possible == can_be_settled(collateral, slash_perc),
        slash_perc <= THOUSAND ==> possible,
{
    proof {
        lemma_thousandths(slash_perc);
        lemma_settlement_is_exact(collateral, slash_perc);
    }
    if slash_perc <= THOUSAND {
        assert(slash_perc * THOUSANDTH <= 1000 * THOUSANDTH) by (nonlinear_arith)
            requires
                slash_perc <= 1000,
        ;
        return true;
    }
    let most: u128 = u128::MAX / THOUSANDTH;
    if slash_perc > most {
        assert(slash_perc * THOUSANDTH > u128::MAX) by (nonlinear_arith)
            requires
                slash_perc >= most + 1,
                most == u128::MAX / THOUSANDTH,
                THOUSANDTH == 1_000_000_000_000_000,
        ;
        return false;
    }
    assert(slash_perc * THOUSANDTH <= u128::MAX) by (nonlinear_arith)
        requires
            slash_perc <= most,
            most == u128::MAX / THOUSANDTH,
            THOUSANDTH == 1_000_000_000_000_000,
    ;
    let stake = collateral as u128;
    match stake.checked_mul(slash_perc) {
        Some(product) => product / THOUSAND <= stake,
        None => {
            proof {
                lemma_div_is_ordered(u128::MAX as int, stake * slash_perc, THOUSAND as int);
            }
            false
        },
    }
}

/// Splits `collateral` at `slash_perc` thousandths into the part that is
/// withheld and the part that is released, in this order.
pub fn settle(collateral: u64, slash_perc: u128) -> (amounts: (u128, u128))
    requires
        can_be_settled(collateral, slash_perc),
    ensures
        amounts.0 == slash_amount(collateral, slash_perc),
        amounts.1 == release_amount(collateral, slash_perc),
        amounts.0 + amounts.1 == collateral,
{
    let ghost scale: int = THOUSANDTH as int;
    proof {
        lemma_thousandths(slash_perc);
    }
    let rate = decimal_from_ratio(slash_perc, THOUSAND);
    assert(rate == slash_perc * scale);
    let stake = collateral as u128;
    proof {
        // stake * rate / 10^18 == (scale * (stake * slash_perc)) / (scale * 1000)
        assert(stake * rate == scale * (stake * slash_perc)) by (nonlinear_arith)
            requires
                rate == slash_perc * scale,
        ;
        assert(DECIMAL_FRACTIONAL as int == scale * 1000);
        lemma_div_multiples_vanish_quotient(scale, stake * slash_perc, 1000);
        assert(times_decimal(stake, rate) == slash_amount(collateral, slash_perc));
    }
    let slash_amt = mul_decimal(stake, rate);
    let release_amt = uint128_sub(stake, slash_amt);
    (slash_amt, release_amt)
}

} // verus!
