//! Fixed-point helpers at the 10^6 scale.

use vstd::prelude::*;
use crate::constants::{PRICE_SCALE, PRICE_TOLERANCE};
use crate::errors::TerminatorError;

verus! {

/// `value * rate / 10^6`, rounded down, over the mathematical integers.
pub open spec fn scaled(value: int, rate: int) -> int {
    (value * rate) / 1_000_000
}

/// `a * b / d`, rounded down, over the mathematical integers.
pub open spec fn mul_div(a: int, b: int, d: int) -> int {
    (a * b) / d
}

/// The product of two 64-bit values fits in 128 bits.
pub proof fn lemma_product_fits(a: u64, b: u64)
    ensures
        0 <= a * b <= u128::MAX,
{
    assert(0 <= a * b <= 0xFFFF_FFFF_FFFF_FFFF * 0xFFFF_FFFF_FFFF_FFFF) by (nonlinear_arith)
        requires
            0 <= a <= 0xFFFF_FFFF_FFFF_FFFF,
            0 <= b <= 0xFFFF_FFFF_FFFF_FFFF,
    ;
}

/// Multiplies in 128 bits, divides, and narrows back to 64 bits.
/// A quotient that does not fit is an overflow, never a wrapped value.
pub fn checked_mul_div(a: u64, b: u64, d: u64) -> (r: Result<u64, TerminatorError>)
    requires
        d > 0,
    ensures
        mul_div(a as int, b as int, d as int) <= u64::MAX ==> r == Ok::<u64, TerminatorError>(
            mul_div(a as int, b as int, d as int) as u64,
        ),
        mul_div(a as int, b as int, d as int) > u64::MAX ==> r == Err::<u64, TerminatorError>(
            TerminatorError::ArithmeticOverflow,
        ),
{
    proof {
        lemma_product_fits(a, b);
    }
    let product: u128 = (a as u128) * (b as u128);
    let quotient: u128 = product / (d as u128);
    if quotient > u64::MAX as u128 {
        Err(TerminatorError::ArithmeticOverflow)
    } else {
        Ok(quotient as u64)
    }
}

/// A share of at most 100% of a value is at most the value.
pub proof fn lemma_scaled_within(value: int, rate: int)
    requires
        0 <= value,
        0 <= rate <= 1_000_000,
    ensures
        0 <= scaled(value, rate) <= value,
{
    assert(0 <= value * rate <= value * 1_000_000) by (nonlinear_arith)
        requires
            0 <= value,
            0 <= rate <= 1_000_000,
    ;
}

/// Three shares whose rates add up to 100% add up to the fee less at most
/// two units lost to rounding, and never to more.
pub proof fn lemma_shares_reconstruct(fee: int, a: int, b: int, c: int)
    requires
        0 <= fee,
        0 <= a,
        0 <= b,
        0 <= c,
        a + b + c == 1_000_000,
    ensures
        0 <= scaled(fee, a) <= fee,
        0 <= scaled(fee, b) <= fee,
        0 <= scaled(fee, c) <= fee,
        scaled(fee, a) + scaled(fee, b) + scaled(fee, c) <= fee,
        fee - (scaled(fee, a) + scaled(fee, b) + scaled(fee, c)) <= 2,
{
    assert(fee * a + fee * b + fee * c == fee * 1_000_000) by (nonlinear_arith)
        requires
            a + b + c == 1_000_000,
    ;
    assert(0 <= fee * a && 0 <= fee * b && 0 <= fee * c) by (nonlinear_arith)
        requires
            0 <= fee,
            0 <= a,
            0 <= b,
            0 <= c,
    ;
}

/// The fee components of one trade.
#[derive(Clone, Copy, Debug, PartialEq, Eq, Structural)]
pub struct TradeFeesResult {
    pub taker_fee: u64,
    pub maker_rebate: u64,
    pub platform_fee: u64,
    pub creator_incentive: u64,
}

/// The value of a trade: `size * price / 10^6`.
pub open spec fn trade_value(size: u64, price: u64) -> int {
    scaled(size as int, price as int)
}

/// The fee components of a trade over the integers, before any narrowing.
/// The taker fee is a share of the trade value; the maker rebate, the
/// platform fee and the creator incentive are shares of the taker fee.
pub open spec fn trade_fee_parts(
    size: u64,
    price: u64,
    base_fee_rate: u32,
    platform_fee_rate: u32,
    maker_rebate_rate: u32,
    creator_incentive_rate: u32,
) -> (int, int, int, int) {
    let value = trade_value(size, price);
    let taker_fee = scaled(value, base_fee_rate as int);
    (
        taker_fee,
        scaled(taker_fee, maker_rebate_rate as int),
        scaled(taker_fee, platform_fee_rate as int),
        scaled(taker_fee, creator_incentive_rate as int),
    )
}

/// Whether every intermediate of the fee computation fits in 64 bits.
pub open spec fn trade_fees_fit(
    size: u64,
    price: u64,
    base_fee_rate: u32,
    platform_fee_rate: u32,
    maker_rebate_rate: u32,
    creator_incentive_rate: u32,
) -> bool {
    let parts = trade_fee_parts(
        size,
        price,
        base_fee_rate,
        platform_fee_rate,
        maker_rebate_rate,
        creator_incentive_rate,
    );
    &&& trade_value(size, price) <= u64::MAX
    &&& parts.0 <= u64::MAX
    &&& parts.1 <= u64::MAX
    &&& parts.2 <= u64::MAX
    &&& parts.3 <= u64::MAX
}

/// Computes the fees of a trade of `size` shares at `price`.
pub fn compute_trade_fees(
    size: u64,
    price: u64,
    base_fee_rate: u32,
    platform_fee_rate: u32,
    maker_rebate_rate: u32,
    creator_incentive_rate: u32,
) -> (r: Result<TradeFeesResult, TerminatorError>)
    ensures
        trade_fees_fit(
            size,
            price,
            base_fee_rate,
            platform_fee_rate,
            maker_rebate_rate,
            creator_incentive_rate,
        ) ==> r is Ok && ({
            let parts = trade_fee_parts(
                size,
                price,
                base_fee_rate,
                platform_fee_rate,
                maker_rebate_rate,
                creator_incentive_rate,
            );
            let fees = r->Ok_0;
            &&& fees.taker_fee == parts.0
            &&& fees.maker_rebate == parts.1
            &&& fees.platform_fee == parts.2
            &&& fees.creator_incentive == parts.3
        }),
        !trade_fees_fit(
            size,
            price,
            base_fee_rate,
            platform_fee_rate,
            maker_rebate_rate,
            creator_incentive_rate,
        ) ==> r == Err::<TradeFeesResult, TerminatorError>(TerminatorError::ArithmeticOverflow),
        platform_fee_rate + maker_rebate_rate + creator_incentive_rate == 1_000_000 && r is Ok
            ==> r->Ok_0.platform_fee + r->Ok_0.maker_rebate + r->Ok_0.creator_incentive
            <= r->Ok_0.taker_fee && r->Ok_0.taker_fee - (r->Ok_0.platform_fee
            + r->Ok_0.maker_rebate + r->Ok_0.creator_incentive) <= 2,
        platform_fee_rate + maker_rebate_rate + creator_incentive_rate == 1_000_000 && price
            <= 1_000_000 && base_fee_rate <= 1_000_000 ==> r is Ok,
{
    proof {
        let value = trade_value(size, price);
        let fee = scaled(value, base_fee_rate as int);
        assert(0 <= size * price) by (nonlinear_arith)
            requires
                0 <= size,
                0 <= price,
        ;
        assert(0 <= value * base_fee_rate) by (nonlinear_arith)
            requires
                0 <= value,
                0 <= base_fee_rate,
        ;
        if price <= 1_000_000 {
            lemma_scaled_within(size as int, price as int);
            if base_fee_rate <= 1_000_000 {
                lemma_scaled_within(value, base_fee_rate as int);
            }
        }
        if platform_fee_rate + maker_rebate_rate + creator_incentive_rate == 1_000_000 {
            lemma_shares_reconstruct(
                fee,
                platform_fee_rate as int,
                maker_rebate_rate as int,
                creator_incentive_rate as int,
            );
        }
    }
    let value = checked_mul_div(size, price, PRICE_SCALE)?;
    let taker_fee = checked_mul_div(value, base_fee_rate as u64, PRICE_SCALE)?;
    let maker_rebate = checked_mul_div(taker_fee, maker_rebate_rate as u64, PRICE_SCALE)?;
    let platform_fee = checked_mul_div(taker_fee, platform_fee_rate as u64, PRICE_SCALE)?;
    let creator_incentive = checked_mul_div(taker_fee, creator_incentive_rate as u64, PRICE_SCALE)?;
    Ok(TradeFeesResult { taker_fee, maker_rebate, platform_fee, creator_incentive })
}

/// Accepts a price in `[0, 10^6]`.
pub fn validate_price(price: u64) -> (r: Result<(), TerminatorError>)
    ensures
        price <= PRICE_SCALE ==> r == Ok::<(), TerminatorError>(()),
        price > PRICE_SCALE ==> r == Err::<(), TerminatorError>(TerminatorError::InvalidInput),
{
    if price <= PRICE_SCALE {
        Ok(())
    } else {
        Err(TerminatorError::InvalidInput)
    }
}

/// Whether two prices sum to 1.0 within the tolerance.
pub open spec fn price_sum_in_tolerance(yes_price: u64, no_price: u64) -> bool {
    PRICE_SCALE - PRICE_TOLERANCE <= yes_price + no_price <= PRICE_SCALE + PRICE_TOLERANCE
}

/// Accepts a pair of final prices that sum to 1.0 within the tolerance.
pub fn validate_price_sum(yes_price: u64, no_price: u64) -> (r: Result<(), TerminatorError>)
    ensures
        yes_price + no_price > u64::MAX ==> r == Err::<(), TerminatorError>(
            TerminatorError::ArithmeticOverflow,
        ),
        yes_price + no_price <= u64::MAX && !price_sum_in_tolerance(yes_price, no_price) ==> r
            == Err::<(), TerminatorError>(TerminatorError::InvalidInput),
        price_sum_in_tolerance(yes_price, no_price) ==> r == Ok::<(), TerminatorError>(()),
{
    match yes_price.checked_add(no_price) {
        None => Err(TerminatorError::ArithmeticOverflow),
        Some(price_sum) => {
            if price_sum >= PRICE_SCALE - PRICE_TOLERANCE && price_sum <= PRICE_SCALE
                + PRICE_TOLERANCE {
                Ok(())
            } else {
                Err(TerminatorError::InvalidInput)
            }
        },
    }
}

/// The smaller of a price and 1.0.
pub open spec fn capped_price(price: u64) -> u64 {
    if price <= PRICE_SCALE {
        price
    } else {
        PRICE_SCALE
    }
}

/// The final price pair of a market: the last YES price if there is one,
/// else the complement of the last NO price, else one half each.
pub open spec fn final_prices(last_yes_price: Option<u64>, last_no_price: Option<u64>) -> (
    u64,
    u64,
) {
    let yes = match (last_yes_price, last_no_price) {
        (Some(yes), _) => capped_price(yes),
        (None, Some(no)) => (PRICE_SCALE - capped_price(no)) as u64,
        (None, None) => (PRICE_SCALE / 2) as u64,
    };
    (yes, (PRICE_SCALE - yes) as u64)
}

/// Derives the final prices of a market from its last observed prices.
pub fn derive_final_prices(last_yes_price: Option<u64>, last_no_price: Option<u64>) -> (prices: (
    u64,
    u64,
))
    ensures
        prices == final_prices(last_yes_price, last_no_price),
        prices.0 + prices.1 == PRICE_SCALE,
{
    let yes_price = match (last_yes_price, last_no_price) {
        (Some(yes), _) => if yes <= PRICE_SCALE { yes } else { PRICE_SCALE },
        (None, Some(no)) => PRICE_SCALE - (if no <= PRICE_SCALE { no } else { PRICE_SCALE }),
        (None, None) => PRICE_SCALE / 2,
    };
    let no_price = PRICE_SCALE - yes_price;
    (yes_price, no_price)
}

/// Scales an amount by a price at the 10^6 scale: `amount * price / 10^6`.
pub fn scale_price(amount: u64, price: u64) -> (r: Result<u64, TerminatorError>)
    ensures
        scaled(amount as int, price as int) <= u64::MAX ==> r == Ok::<u64, TerminatorError>(
            scaled(amount as int, price as int) as u64,
        ),
        scaled(amount as int, price as int) > u64::MAX ==> r == Err::<u64, TerminatorError>(
            TerminatorError::ArithmeticOverflow,
        ),
{
    checked_mul_div(amount, price, PRICE_SCALE)
}

/// Scales a value by a parts-per-million rate: `value * rate / 10^6`.
pub fn scale_by_rate(value: u64, rate: u32) -> (r: Result<u64, TerminatorError>)
    ensures
        scaled(value as int, rate as int) <= u64::MAX ==> r == Ok::<u64, TerminatorError>(
            scaled(value as int, rate as int) as u64,
        ),
        scaled(value as int, rate as int) > u64::MAX ==> r == Err::<u64, TerminatorError>(
            TerminatorError::ArithmeticOverflow,
        ),
{
    checked_mul_div(value, rate as u64, PRICE_SCALE)
}

} // verus!
