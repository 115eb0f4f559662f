//! Amounts and fees of a fill, and the checks every order must pass.

use vstd::prelude::*;
use crate::constants::PRICE_SCALE;
use crate::errors::TerminatorError;
use crate::pubkey::Pubkey;
use crate::states::global::{Global, MAX_FEE_RATE_BPS};
use crate::states::order_types::Order;
use crate::utils::{
    checked_mul_div,
    lemma_product_fits,
    lemma_shares_reconstruct,
    mul_div,
    scaled,
    scale_by_rate,
};

verus! {

/// Basis points in 100%.
pub const BPS_DIVISOR: u64 = 10_000;

/// What the taker side gives for `making` units of the maker's amount, at
/// the ratio the maker stated. A maker amount of zero gives zero.
pub open spec fn taking_amount(making: u64, maker_amount: u64, taker_amount: u64) -> int {
    if maker_amount == 0 {
        0
    } else {
        mul_div(making as int, taker_amount as int, maker_amount as int)
    }
}

/// Computes `making * taker_amount / maker_amount`.
pub fn calculate_taking_amount(making: u64, maker_amount: u64, taker_amount: u64) -> (r: Result<
    u64,
    TerminatorError,
>)
    ensures
        taking_amount(making, maker_amount, taker_amount) <= u64::MAX ==> r == Ok::<
            u64,
            TerminatorError,
        >(taking_amount(making, maker_amount, taker_amount) as u64),
        taking_amount(making, maker_amount, taker_amount) > u64::MAX ==> r == Err::<
            u64,
            TerminatorError,
        >(TerminatorError::ArithmeticOverflow),
{
    if maker_amount == 0 {
        return Ok(0);
    }
    checked_mul_div(making, taker_amount, maker_amount)
}

/// The unit price of an order with these amounts on this side, at the
/// 10^6 scale and without any cap. Zero when the share amount is zero.
pub open spec fn amounts_price(maker_amount: u64, taker_amount: u64, side: u8) -> int {
    if side == 0 {
        if taker_amount == 0 {
            0
        } else {
            (maker_amount * PRICE_SCALE) / (taker_amount as int)
        }
    } else {
        if maker_amount == 0 {
            0
        } else {
            (taker_amount * PRICE_SCALE) / (maker_amount as int)
        }
    }
}

/// `min(price, 1 - price)` at the 10^6 scale, and zero outside `(0, 1)`.
pub open spec fn price_factor(price: int) -> int {
    if price <= 0 || price >= PRICE_SCALE {
        0
    } else if price <= PRICE_SCALE - price {
        price
    } else {
        PRICE_SCALE - price
    }
}

/// The basis-point fee on `proceeds` at `price`:
/// `rate * min(price, 1 - price) * proceeds / (10^4 * 10^6)`.
pub open spec fn basis_point_fee(fee_rate_bps: u16, price: int, proceeds: u64) -> int {
    (fee_rate_bps * price_factor(price) * proceeds) / 10_000_000_000
}

/// Whether one of the amounts that the price divides by is zero.
pub open spec fn price_undefined(maker_amount: u64, taker_amount: u64, side: u8) -> bool {
    if side == 0 {
        taker_amount == 0
    } else {
        maker_amount == 0
    }
}

/// The fee of a single-order fill: zero when the rate, the proceeds or
/// the price's divisor is zero, else the basis-point fee at the order's
/// price.
pub open spec fn order_fee(
    fee_rate_bps: u16,
    proceeds: u64,
    maker_amount: u64,
    taker_amount: u64,
    side: u8,
) -> int {
    if fee_rate_bps == 0 || proceeds == 0 || price_undefined(maker_amount, taker_amount, side) {
        0
    } else {
        basis_point_fee(fee_rate_bps, amounts_price(maker_amount, taker_amount, side), proceeds)
    }
}

/// The price factor is symmetric about one half.
pub proof fn lemma_price_factor_symmetry(price: int)
    requires
        0 <= price <= 1_000_000,
    ensures
        price_factor(price) == price_factor(1_000_000 - price),
{
}

/// An order with a zero amount carries no fee.
pub proof fn lemma_zero_amount_no_fee(
    fee_rate_bps: u16,
    proceeds: u64,
    maker_amount: u64,
    taker_amount: u64,
    side: u8,
)
    requires
        maker_amount == 0 || taker_amount == 0,
    ensures
        order_fee(fee_rate_bps, proceeds, maker_amount, taker_amount, side) == 0,
{
    if !(fee_rate_bps == 0 || proceeds == 0 || price_undefined(maker_amount, taker_amount, side)) {
        let price = amounts_price(maker_amount, taker_amount, side);
        assert(price == 0) by {
            if side == 0 {
                assert(maker_amount == 0);
                assert((0 * PRICE_SCALE) / (taker_amount as int) == 0);
            } else {
                assert(taker_amount == 0);
                assert((0 * PRICE_SCALE) / (maker_amount as int) == 0);
            }
        }
        assert(price_factor(price) == 0);
        assert(fee_rate_bps * 0 * proceeds == 0) by (nonlinear_arith);
    }
}

/// The basis-point fee never exceeds a twentieth of the proceeds at the
/// highest accepted rate.
pub proof fn lemma_basis_point_fee_bound(fee_rate_bps: u16, price: int, proceeds: u64)
    requires
        fee_rate_bps <= MAX_FEE_RATE_BPS,
    ensures
        0 <= fee_rate_bps * price_factor(price) * proceeds <= 500_000_000 * proceeds,
        0 <= basis_point_fee(fee_rate_bps, price, proceeds) <= proceeds,
{
    let factor = price_factor(price);
    assert(0 <= factor <= 500_000);
    assert(0 <= fee_rate_bps * factor <= 500_000_000) by (nonlinear_arith)
        requires
            0 <= fee_rate_bps <= 1000,
            0 <= factor <= 500_000,
    ;
    let weight = fee_rate_bps * factor;
    assert(0 <= weight * proceeds <= 500_000_000 * proceeds) by (nonlinear_arith)
        requires
            0 <= weight <= 500_000_000,
            0 <= proceeds,
    ;
}

/// Computes the fee of a single-order fill from the order's basis-point
/// rate and its price: highest at a price of one half, falling to nothing
/// at zero and one.
pub fn calculate_fee(
    fee_rate_bps: u16,
    proceeds: u64,
    maker_amount: u64,
    taker_amount: u64,
    side: u8,
) -> (r: Result<u64, TerminatorError>)
    ensures
        fee_rate_bps == 0 || proceeds == 0 ==> r == Ok::<u64, TerminatorError>(0),
        fee_rate_bps != 0 && proceeds != 0 && fee_rate_bps > MAX_FEE_RATE_BPS ==> r == Err::<
            u64,
            TerminatorError,
        >(TerminatorError::FeeTooHigh),
        fee_rate_bps <= MAX_FEE_RATE_BPS ==> r == Ok::<u64, TerminatorError>(
            order_fee(fee_rate_bps, proceeds, maker_amount, taker_amount, side) as u64,
        ) && order_fee(fee_rate_bps, proceeds, maker_amount, taker_amount, side) <= proceeds,
        fee_rate_bps <= MAX_FEE_RATE_BPS && (maker_amount == 0 || taker_amount == 0) ==> r == Ok::<
            u64,
            TerminatorError,
        >(0),
{
    proof {
        if maker_amount == 0 || taker_amount == 0 {
            lemma_zero_amount_no_fee(fee_rate_bps, proceeds, maker_amount, taker_amount, side);
        }
    }
    if fee_rate_bps == 0 || proceeds == 0 {
        return Ok(0);
    }
    if fee_rate_bps > MAX_FEE_RATE_BPS {
        return Err(TerminatorError::FeeTooHigh);
    }
    let price: u128 = if side == 0 {
        if taker_amount == 0 {
            return Ok(0);
        }
        proof {
            lemma_product_fits(maker_amount, PRICE_SCALE);
        }
        ((maker_amount as u128) * (PRICE_SCALE as u128)) / (taker_amount as u128)
    } else {
        if maker_amount == 0 {
            return Ok(0);
        }
        proof {
            lemma_product_fits(taker_amount, PRICE_SCALE);
        }
        ((taker_amount as u128) * (PRICE_SCALE as u128)) / (maker_amount as u128)
    };
    let scale = PRICE_SCALE as u128;
    let factor: u128 = if price >= scale {
        0
    } else if price <= scale - price {
        price
    } else {
        scale - price
    };
    proof {
        lemma_basis_point_fee_bound(fee_rate_bps, price as int, proceeds);
        assert(fee_rate_bps * factor <= 500_000_000) by (nonlinear_arith)
            requires
                0 <= fee_rate_bps <= 1000,
                0 <= factor <= 500_000,
        ;
    }
    let weight: u128 = (fee_rate_bps as u128) * factor;
    let fee: u128 = (weight * (proceeds as u128)) / ((BPS_DIVISOR as u128) * (PRICE_SCALE as u128));
    Ok(fee as u64)
}

/// The fee on `proceeds` at the exchange's curve rate for `price`.
pub open spec fn curve_fee(global: Global, proceeds: u64, price: u64) -> int {
    if proceeds == 0 {
        0
    } else {
        scaled(global.taker_fee_rate(price), proceeds as int)
    }
}

/// Computes the fee on `proceeds` from the exchange's fee curve.
pub fn calculate_fee_with_global(global: &Global, proceeds: u64, price: u64) -> (r: Result<
    u64,
    TerminatorError,
>)
    ensures
        curve_fee(*global, proceeds, price) <= u64::MAX ==> r == Ok::<u64, TerminatorError>(
            curve_fee(*global, proceeds, price) as u64,
        ),
        curve_fee(*global, proceeds, price) > u64::MAX ==> r == Err::<u64, TerminatorError>(
            TerminatorError::ArithmeticOverflow,
        ),
{
    if proceeds == 0 {
        return Ok(0);
    }
    let fee_rate = global.calculate_taker_fee_rate(price);
    checked_mul_div(fee_rate as u64, proceeds, PRICE_SCALE)
}

/// The three shares of a fee: platform, maker rebate, creator incentive.
pub open spec fn fee_shares(global: Global, total_fee: u64) -> (int, int, int) {
    (
        scaled(total_fee as int, global.platform_fee_rate as int),
        scaled(total_fee as int, global.maker_rebate_rate as int),
        scaled(total_fee as int, global.creator_incentive_rate as int),
    )
}

/// When the three rates add up to 100%, the three shares add up to the
/// fee less at most two units lost to rounding, and never to more.
pub proof fn lemma_fee_shares_reconstruct(global: Global, total_fee: u64)
    requires
        global.distribution_is_complete(),
    ensures
        ({
            let shares = fee_shares(global, total_fee);
            &&& 0 <= shares.0 <= total_fee
            &&& 0 <= shares.1 <= total_fee
            &&& 0 <= shares.2 <= total_fee
            &&& shares.0 + shares.1 + shares.2 <= total_fee
            &&& total_fee - (shares.0 + shares.1 + shares.2) <= 2
        }),
{
    lemma_shares_reconstruct(
        total_fee as int,
        global.platform_fee_rate as int,
        global.maker_rebate_rate as int,
        global.creator_incentive_rate as int,
    );
}

/// Splits a fee among platform, makers and the market's creator.
pub fn distribute_fee(global: &Global, total_fee: u64) -> (r: Result<
    (u64, u64, u64),
    TerminatorError,
>)
    ensures
        ({
            let shares = fee_shares(*global, total_fee);
            if shares.0 <= u64::MAX && shares.1 <= u64::MAX && shares.2 <= u64::MAX {
                r == Ok::<(u64, u64, u64), TerminatorError>(
                    (shares.0 as u64, shares.1 as u64, shares.2 as u64),
                )
            } else {
                r == Err::<(u64, u64, u64), TerminatorError>(TerminatorError::ArithmeticOverflow)
            }
        }),
        global.distribution_is_complete() ==> r is Ok && r->Ok_0.0 + r->Ok_0.1 + r->Ok_0.2
            <= total_fee && total_fee - (r->Ok_0.0 + r->Ok_0.1 + r->Ok_0.2) <= 2,
{
    proof {
        if global.distribution_is_complete() {
            lemma_fee_shares_reconstruct(*global, total_fee);
        }
    }
    let platform_fee = scale_by_rate(total_fee, global.platform_fee_rate)?;
    let maker_rebate = scale_by_rate(total_fee, global.maker_rebate_rate)?;
    let creator_incentive = scale_by_rate(total_fee, global.creator_incentive_rate)?;
    Ok((platform_fee, maker_rebate, creator_incentive))
}

/// The first reason, if any, to refuse an order at `current_timestamp`
/// from a maker whose nonce counter stands at `user_nonce`: it expired; its
/// nonce was cancelled; its fee rate is above the cap; its asset is not
/// one of the three; one of its amounts is zero.
pub open spec fn order_rejection(order: Order, current_timestamp: i64, user_nonce: u64) -> Option<
    TerminatorError,
> {
    if order.spec_is_expired(current_timestamp) {
        Some(TerminatorError::OrderExpired)
    } else if order.nonce < user_nonce {
        Some(TerminatorError::InvalidNonce)
    } else if order.fee_rate_bps > MAX_FEE_RATE_BPS {
        Some(TerminatorError::FeeTooHigh)
    } else if order.token_id > 2 {
        Some(TerminatorError::InvalidOutcome)
    } else if order.maker_amount == 0 || order.taker_amount == 0 {
        Some(TerminatorError::InvalidAmount)
    } else {
        None
    }
}

/// Runs the checks every order must pass before it is filled.
pub fn validate_order(order: &Order, current_timestamp: i64, user_nonce: u64) -> (r: Result<
    (),
    TerminatorError,
>)
    ensures
        r == match order_rejection(*order, current_timestamp, user_nonce) {
            Some(e) => Err::<(), TerminatorError>(e),
            None => Ok::<(), TerminatorError>(()),
        },
{
    if order.is_expired(current_timestamp) {
        return Err(TerminatorError::OrderExpired);
    }
    if order.nonce < user_nonce {
        return Err(TerminatorError::InvalidNonce);
    }
    if order.fee_rate_bps > MAX_FEE_RATE_BPS {
        return Err(TerminatorError::FeeTooHigh);
    }
    if order.token_id > 2 {
        return Err(TerminatorError::InvalidOutcome);
    }
    if !(order.maker_amount > 0 && order.taker_amount > 0) {
        return Err(TerminatorError::InvalidAmount);
    }
    Ok(())
}

/// Whether `taker` may take the order: anybody may take a public order,
/// only the named counterparty a restricted one.
pub open spec fn taker_allowed(order: Order, taker: Pubkey) -> bool {
    order.spec_is_public() || order.taker == taker
}

/// Checks that `taker` may take the order.
pub fn validate_taker(order: &Order, taker: &Pubkey) -> (r: Result<(), TerminatorError>)
    ensures
        taker_allowed(*order, *taker) ==> r == Ok::<(), TerminatorError>(()),
        !taker_allowed(*order, *taker) ==> r == Err::<(), TerminatorError>(
            TerminatorError::InvalidTaker,
        ),
{
    if !order.is_public() && !(order.taker == *taker) {
        return Err(TerminatorError::InvalidTaker);
    }
    Ok(())
}

} // verus!
