//! Price conversion and collateralization-ratio arithmetic.
//!
//! The exchange rate between the pegged asset and the collateral asset, and
//! the secure collateralization threshold, are policy inputs read afresh by
//! every caller; both are positive rational numbers.  All derived amounts
//! round down, and every multiplication is checked against the amount type.

use vstd::prelude::*;
use crate::types::{Amount, VaultError};
use vstd::arithmetic::div_mod::{lemma_div_by_multiple, lemma_div_is_ordered};
use vstd::arithmetic::mul::lemma_mul_inequality;

verus! {

/// A positive rational number: an exchange rate (collateral units per
/// pegged-token unit) or a collateralization threshold.
#[derive(Clone, Copy, Debug, PartialEq, Eq, Structural)]
pub struct Ratio {
    pub num: Amount,
    pub den: Amount,
}

impl Ratio {
    /// Both components must be positive, so the ratio is positive and both
    /// multiplying and dividing by it are defined.
    pub open spec fn wf(self) -> bool {
        self.num >= 1 && self.den >= 1
    }

    pub fn new(num: Amount, den: Amount) -> (r: Ratio)
        requires
            num >= 1,
            den >= 1,
        ensures
            r.num == num,
            r.den == den,
            r.wf(),
    {
        Ratio { num, den }
    }
}

/// `x` scaled up by `r`, rounded down.
pub open spec fn spec_mul_ratio(x: int, r: Ratio) -> int {
    (x * r.num) / (r.den as int)
}

/// Does scaling `x` up by `r` stay within the checked intermediate range?
pub open spec fn mul_ratio_fits(x: int, r: Ratio) -> bool {
    x * r.num <= Amount::MAX
}

/// `x` scaled down by `r`, rounded down.
pub open spec fn spec_div_ratio(x: int, r: Ratio) -> int {
    (x * r.den) / (r.num as int)
}

/// Does scaling `x` down by `r` stay within the checked intermediate range?
pub open spec fn div_ratio_fits(x: int, r: Ratio) -> bool {
    x * r.den <= Amount::MAX
}

/// Multiply an amount by a ratio, rounding down; the intermediate product
/// is checked.
pub fn mul_ratio(x: Amount, r: &Ratio) -> (res: Result<Amount, VaultError>)
    requires
        r.wf(),
    ensures
        res is Ok <==> mul_ratio_fits(x as int, *r),
        res matches Ok(v) ==> v == spec_mul_ratio(x as int, *r),
        res matches Err(e) ==> e == VaultError::ArithmeticOverflow,
{
    match x.checked_mul(r.num) {
        Some(p) => Ok(p / r.den),
        None => Err(VaultError::ArithmeticOverflow),
    }
}

/// Divide an amount by a ratio, rounding down; the intermediate product is
/// checked.
pub fn div_ratio(x: Amount, r: &Ratio) -> (res: Result<Amount, VaultError>)
    requires
        r.wf(),
    ensures
        res is Ok <==> div_ratio_fits(x as int, *r),
        res matches Ok(v) ==> v == spec_div_ratio(x as int, *r),
        res matches Err(e) ==> e == VaultError::ArithmeticOverflow,
{
    match x.checked_mul(r.den) {
        Some(p) => Ok(p / r.num),
        None => Err(VaultError::ArithmeticOverflow),
    }
}

/// Value of a pegged-token amount in collateral units at the given
/// exchange rate.
pub fn btc_to_dots(tokens: Amount, rate: &Ratio) -> (res: Result<Amount, VaultError>)
    requires
        rate.wf(),
    ensures
        res is Ok <==> mul_ratio_fits(tokens as int, *rate),
        res matches Ok(v) ==> v == spec_mul_ratio(tokens as int, *rate),
        res matches Err(e) ==> e == VaultError::ArithmeticOverflow,
{
    mul_ratio(tokens, rate)
}

/// Value of a collateral amount in pegged-token units at the given
/// exchange rate.
pub fn dots_to_btc(collateral: Amount, rate: &Ratio) -> (res: Result<Amount, VaultError>)
    requires
        rate.wf(),
    ensures
        res is Ok <==> div_ratio_fits(collateral as int, *rate),
        res matches Ok(v) ==> v == spec_div_ratio(collateral as int, *rate),
        res matches Err(e) ==> e == VaultError::ArithmeticOverflow,
{
    div_ratio(collateral, rate)
}

/// The collateral required to secure `tokens` at the given rate and
/// threshold: their collateral value scaled up by the threshold.
pub open spec fn spec_required_collateral(tokens: int, rate: Ratio, threshold: Ratio) -> int {
    spec_mul_ratio(spec_mul_ratio(tokens, rate), threshold)
}

/// Do both steps of the required-collateral computation fit the checked
/// range?
pub open spec fn required_collateral_fits(tokens: int, rate: Ratio, threshold: Ratio) -> bool {
    mul_ratio_fits(tokens, rate) && mul_ratio_fits(spec_mul_ratio(tokens, rate), threshold)
}

/// The collateral needed to secure `tokens` at the secure threshold.
pub fn required_collateral(tokens: Amount, rate: &Ratio, threshold: &Ratio) -> (res: Result<
    Amount,
    VaultError,
>)
    requires
        rate.wf(),
        threshold.wf(),
    ensures
        res is Ok <==> required_collateral_fits(tokens as int, *rate, *threshold),
        res matches Ok(v) ==> v == spec_required_collateral(tokens as int, *rate, *threshold),
        res matches Err(e) ==> e == VaultError::ArithmeticOverflow,
{
    let value = btc_to_dots(tokens, rate)?;
    mul_ratio(value, threshold)
}

/// Would `collateral` be below the secure threshold for `tokens`?
pub fn is_collateral_below_secure_threshold(
    collateral: Amount,
    tokens: Amount,
    rate: &Ratio,
    threshold: &Ratio,
) -> (res: Result<bool, VaultError>)
    requires
        rate.wf(),
        threshold.wf(),
    ensures
        res is Ok <==> required_collateral_fits(tokens as int, *rate, *threshold),
        res matches Ok(b) ==> b == (collateral < spec_required_collateral(
            tokens as int,
            *rate,
            *threshold,
        )),
        res matches Err(e) ==> e == VaultError::ArithmeticOverflow,
{
    let required = required_collateral(tokens, rate, threshold)?;
    Ok(collateral < required)
}

/// The greatest token amount that `collateral` can secure at the given
/// rate and threshold: its pegged value scaled down by the threshold.
pub open spec fn spec_max_tokens_from_collateral(collateral: int, rate: Ratio, threshold: Ratio) -> int {
    spec_div_ratio(spec_div_ratio(collateral, rate), threshold)
}

/// Do both steps of the issuable-token computation fit the checked range?
pub open spec fn max_tokens_fits(collateral: int, rate: Ratio, threshold: Ratio) -> bool {
    div_ratio_fits(collateral, rate) && div_ratio_fits(spec_div_ratio(collateral, rate), threshold)
}

/// The greatest token amount the given free collateral can secure at the
/// threshold.
pub fn calculate_max_polkabtc_from_collateral_for_threshold(
    collateral: Amount,
    rate: &Ratio,
    threshold: &Ratio,
) -> (res: Result<Amount, VaultError>)
    requires
        rate.wf(),
        threshold.wf(),
    ensures
        res is Ok <==> max_tokens_fits(collateral as int, *rate, *threshold),
        res matches Ok(v) ==> v == spec_max_tokens_from_collateral(
            collateral as int,
            *rate,
            *threshold,
        ),
        res matches Err(e) ==> e == VaultError::ArithmeticOverflow,
{
    let value = dots_to_btc(collateral, rate)?;
    div_ratio(value, threshold)
}

/// The share `numerator / denominator` of `collateral`, rounded down.  A
/// zero denominator forces a zero numerator in every use here; the whole
/// amount is then due, so the quotient is taken to be the full collateral.
pub open spec fn spec_collateral_share(collateral: int, numerator: int, denominator: int) -> int {
    if denominator == 0 {
        collateral
    } else {
        (collateral * numerator) / denominator
    }
}

/// The portion of `collateral` proportional to `numerator / denominator`.
pub fn calculate_collateral(
    collateral: Amount,
    numerator: Amount,
    denominator: Amount,
) -> (res: Result<Amount, VaultError>)
    requires
        numerator <= denominator || denominator == 0,
    ensures
        res is Ok <==> (denominator == 0 || collateral * numerator <= Amount::MAX),
        res matches Ok(v) ==> v == spec_collateral_share(
            collateral as int,
            numerator as int,
            denominator as int,
        ),
        res matches Ok(v) ==> v <= collateral,
        res matches Err(e) ==> e == VaultError::ArithmeticOverflow,
{
    if denominator == 0 {
        return Ok(collateral);
    }
    match collateral.checked_mul(numerator) {
        Some(p) => {
            let share = p / denominator;
            proof {
                lemma_collateral_share_bounded(collateral as int, numerator as int, denominator as int);
            }
            Ok(share)
        },
        None => Err(VaultError::ArithmeticOverflow),
    }
}

/// A proportional share of an amount never exceeds the amount itself.
pub proof fn lemma_collateral_share_bounded(collateral: int, numerator: int, denominator: int)
    requires
        collateral >= 0,
        0 <= numerator <= denominator,
        denominator >= 1,
    ensures
        0 <= spec_collateral_share(collateral, numerator, denominator) <= collateral,
{
    lemma_mul_inequality(numerator, denominator, collateral);
    assert(collateral * numerator == numerator * collateral) by (nonlinear_arith);
    assert(collateral * denominator == denominator * collateral) by (nonlinear_arith);
    lemma_div_is_ordered(collateral * numerator, collateral * denominator, denominator);
    lemma_div_by_multiple(collateral, denominator);
    assert((collateral * numerator) / denominator >= 0) by (nonlinear_arith)
        requires
            collateral >= 0,
            numerator >= 0,
            denominator >= 1,
    ;
}

} // verus!
