//! Filling a single signed order against the operator.
//!
//! The operator is the counterparty: it delivers the shares a buying maker
//! asked for, or pays the collateral a selling maker asked for, at the
//! ratio the order states.

use vstd::prelude::*;
use crate::clock::Clock;
use crate::constants::PRICE_SCALE;
use crate::errors::TerminatorError;
use crate::events::OrderFilled;
use crate::instructions::calculator::{
    calculate_fee,
    calculate_taking_amount,
    order_fee,
    order_rejection,
    taker_allowed,
    taking_amount,
    validate_order,
    validate_taker,
};
use crate::instructions::ed25519_verify::{
    signature_verified_at,
    verify_ed25519_preceding,
    TransactionInstructions,
};
use crate::instructions::match_orders::{maker_asset, taker_asset};
use crate::pubkey::Pubkey;
use crate::states::global::Global;
use crate::states::ledger::Holdings;
use crate::states::market::{status_step, Market};
use crate::states::order_status::OrderStatus;
use crate::states::order_types::{hash_order, order_hash, Order, SignedOrder};
use crate::states::user_balance::UserBalance;
use crate::states::user_nonce::UserNonce;
use crate::states::user_position::UserPosition;

verus! {

/// What the operator asks to be filled.
#[derive(Clone, Copy, Debug)]
pub struct FillOrderParams {
    /// The maker's signed order.
    pub signed_order: SignedOrder,
    /// How much of the maker amount to fill.
    pub fill_amount: u64,
}

/// The identities of the accounts a fill runs on.
#[derive(Clone, Copy, Debug)]
pub struct FillOrder {
    /// Who executes the fill and acts as counterparty.
    pub operator: Pubkey,
    /// The key of the exchange-wide record.
    pub global: Pubkey,
    /// The key of the market record.
    pub market: Pubkey,
    /// The wallet the maker records are said to belong to.
    pub maker: Pubkey,
    /// Address bump of the order's fill record.
    pub order_status_bump: u8,
}

/// The holdings of maker and operator after a fill of `fill` units of the
/// maker amount against `taking` units of the taker amount. A buying maker
/// pays `fill` collateral and receives `taking` shares less the fee; a
/// selling maker gives `fill` shares and receives `taking` collateral less
/// the fee. The operator gives and receives the gross amounts. A fee
/// above the taking amount is an overflow.
pub open spec fn single_fill_outcome(
    order: Order,
    fill: u64,
    taking: u64,
    fee: u64,
    maker: Holdings,
    operator: Holdings,
) -> Result<(Holdings, Holdings), TerminatorError> {
    let yes = order.token_id == 1;
    let net = taking - fee;
    if fee > taking {
        Err(TerminatorError::ArithmeticOverflow)
    } else if order.side == 0 {
        if maker.usdc < fill {
            Err(TerminatorError::InsufficientBalance)
        } else if operator.spec_shares(yes) < taking {
            Err(TerminatorError::InsufficientOutcomeTokens)
        } else if operator.usdc + fill > u64::MAX || maker.spec_shares(yes) + net > u64::MAX {
            Err(TerminatorError::ArithmeticOverflow)
        } else {
            Ok(
                (
                    (Holdings { usdc: (maker.usdc - fill) as u64, ..maker }).spec_with_shares(
                        yes,
                        (maker.spec_shares(yes) + net) as u64,
                    ),
                    (Holdings {
                        usdc: (operator.usdc + fill) as u64,
                        ..operator
                    }).spec_with_shares(yes, (operator.spec_shares(yes) - taking) as u64),
                ),
            )
        }
    } else {
        if maker.spec_shares(yes) < fill {
            Err(TerminatorError::InsufficientOutcomeTokens)
        } else if operator.usdc < taking {
            Err(TerminatorError::InsufficientBalance)
        } else if maker.usdc + net > u64::MAX || operator.spec_shares(yes) + fill > u64::MAX {
            Err(TerminatorError::ArithmeticOverflow)
        } else {
            Ok(
                (
                    (Holdings { usdc: (maker.usdc + net) as u64, ..maker }).spec_with_shares(
                        yes,
                        (maker.spec_shares(yes) - fill) as u64,
                    ),
                    (Holdings {
                        usdc: (operator.usdc - taking) as u64,
                        ..operator
                    }).spec_with_shares(yes, (operator.spec_shares(yes) + fill) as u64),
                ),
            )
        }
    }
}

/// The first reason, if any, to refuse a fill before any amount is
/// computed: trading is paused; the caller is no operator; the market
/// belongs to another exchange or cannot trade; a record is not its
/// owner's; the order fails the common checks, names another market, is
/// reserved for somebody else or lacks a signature verified just before
/// this call; its fill record is another order's or is used up; nothing
/// is asked to be filled.
pub open spec fn fill_admission(
    accounts: FillOrder,
    clock: Clock,
    instructions: TransactionInstructions,
    global: Global,
    market: Market,
    order_status: OrderStatus,
    maker_nonce: UserNonce,
    maker_balance: UserBalance,
    maker_position: UserPosition,
    operator_balance: UserBalance,
    operator_position: UserPosition,
    params: FillOrderParams,
    hash: [u8; 32],
) -> Option<TerminatorError> {
    let order = params.signed_order.order;
    if global.trading_paused {
        Some(TerminatorError::TradingPaused)
    } else if !global.spec_is_operator(accounts.operator) {
        Some(TerminatorError::NotOperator)
    } else if market.global != accounts.global {
        Some(TerminatorError::InvalidAccountInput)
    } else if !market.spec_can_trade() {
        Some(TerminatorError::MarketNotActive)
    } else if maker_balance.user != accounts.maker || maker_position.user != accounts.maker
        || operator_balance.user != accounts.operator || operator_position.user
        != accounts.operator {
        Some(TerminatorError::Unauthorized)
    } else if accounts.maker != order.maker {
        Some(TerminatorError::InvalidAccountInput)
    } else if order_rejection(order, clock.unix_timestamp, maker_nonce.current_nonce) is Some {
        order_rejection(order, clock.unix_timestamp, maker_nonce.current_nonce)
    } else if order.market != accounts.market {
        Some(TerminatorError::InvalidMarket)
    } else if !taker_allowed(order, accounts.operator) {
        Some(TerminatorError::InvalidTaker)
    } else if !signature_verified_at(
        instructions.instructions@,
        instructions.current_index - 1,
        order.signer,
        hash@,
        params.signed_order.signature@,
    ) {
        Some(TerminatorError::InvalidSignature)
    } else if !order_status.spec_is_unset() && order_status.order_hash@ != hash@ {
        Some(TerminatorError::OrderHashMismatch)
    } else if !order_status.after_touch(
        hash,
        order.maker_amount,
        accounts.order_status_bump,
    ).spec_is_fillable() {
        Some(TerminatorError::OrderNotFillable)
    } else if params.fill_amount == 0 {
        Some(TerminatorError::InvalidAmount)
    } else {
        None
    }
}

/// The market after a fill of `order` at `clock`: activity is noted, the
/// order's price becomes the last price of its share, and the trade is
/// counted. A price that does not fit in 64 bits is an overflow; a price
/// above 1.0 cannot be recorded.
pub open spec fn market_after_fill(market: Market, order: Order, clock: Clock) -> Result<
    Market,
    TerminatorError,
> {
    let noted = Market {
        last_activity_ts: clock.unix_timestamp,
        last_trade_slot: Some(clock.slot),
        ..market
    };
    let price = order.spec_price();
    if price > u64::MAX {
        Err(TerminatorError::ArithmeticOverflow)
    } else if (order.token_id == 1 || order.token_id == 2) && price > PRICE_SCALE {
        Err(TerminatorError::InvalidInput)
    } else if market.total_trades == u64::MAX {
        Err(TerminatorError::ArithmeticOverflow)
    } else {
        let priced = if order.token_id == 1 {
            noted.with_last_price(0, price as u64)
        } else if order.token_id == 2 {
            noted.with_last_price(1, price as u64)
        } else {
            noted
        };
        Ok(Market { total_trades: (market.total_trades + 1) as u64, ..priced })
    }
}

/// What a fill does, as a whole, for an order that hashes to `hash`:
/// either the first failure, or every record after the fill and the event
/// to emit.
pub open spec fn fill_result(
    accounts: FillOrder,
    clock: Clock,
    instructions: TransactionInstructions,
    global: Global,
    market: Market,
    order_status: OrderStatus,
    maker_nonce: UserNonce,
    maker_balance: UserBalance,
    maker_position: UserPosition,
    operator_balance: UserBalance,
    operator_position: UserPosition,
    params: FillOrderParams,
    hash: [u8; 32],
) -> Result<
    (Market, OrderStatus, UserBalance, UserPosition, UserBalance, UserPosition, OrderFilled),
    TerminatorError,
> {
    let order = params.signed_order.order;
    let status = order_status.after_touch(hash, order.maker_amount, accounts.order_status_bump);
    let fill = status.fill_amount(params.fill_amount);
    let taking = taking_amount(fill, order.maker_amount, order.taker_amount);
    let fee = order_fee(
        order.fee_rate_bps,
        taking as u64,
        order.maker_amount,
        order.taker_amount,
        order.side,
    );
    match fill_admission(
        accounts,
        clock,
        instructions,
        global,
        market,
        order_status,
        maker_nonce,
        maker_balance,
        maker_position,
        operator_balance,
        operator_position,
        params,
        hash,
    ) {
        Some(e) => Err(e),
        None => if taking > u64::MAX {
            Err(TerminatorError::ArithmeticOverflow)
        } else {
            match single_fill_outcome(
                order,
                fill,
                taking as u64,
                fee as u64,
                Holdings::spec_of(maker_balance, maker_position),
                Holdings::spec_of(operator_balance, operator_position),
            ) {
                Err(e) => Err(e),
                Ok((maker, operator)) => match market_after_fill(market, order, clock) {
                    Err(e) => Err(e),
                    Ok(after) => Ok(
                        (
                            after,
                            status.after_fill(params.fill_amount),
                            maker.spec_balance(maker_balance),
                            maker.spec_position(maker_position),
                            operator.spec_balance(operator_balance),
                            operator.spec_position(operator_position),
                            OrderFilled {
                                order_hash: hash,
                                maker: order.maker,
                                taker: accounts.operator,
                                maker_asset_id: maker_asset(order),
                                taker_asset_id: taker_asset(order),
                                maker_amount_filled: fill,
                                taker_amount_filled: taking as u64,
                                fee: fee as u64,
                                market: accounts.market,
                                slot: clock.slot,
                                timestamp: clock.unix_timestamp,
                            },
                        ),
                    ),
                },
            }
        },
    }
}

/// Moves the amounts of one fill between maker and operator.
pub fn settle_single_fill(
    order: &Order,
    fill: u64,
    taking: u64,
    fee: u64,
    maker: Holdings,
    operator: Holdings,
) -> (r: Result<(Holdings, Holdings), TerminatorError>)
    ensures
        r == single_fill_outcome(*order, fill, taking, fee, maker, operator),
{
    let yes = order.token_id == 1;
    if fee > taking {
        return Err(TerminatorError::ArithmeticOverflow);
    }
    let net = taking - fee;
    if order.is_buy() {
        if maker.usdc < fill {
            return Err(TerminatorError::InsufficientBalance);
        }
        if operator.shares(yes) < taking {
            return Err(TerminatorError::InsufficientOutcomeTokens);
        }
        match (operator.usdc.checked_add(fill), maker.shares(yes).checked_add(net)) {
            (Some(operator_usdc), Some(maker_shares)) => Ok(
                (
                    (Holdings { usdc: maker.usdc - fill, ..maker }).with_shares(yes, maker_shares),
                    (Holdings { usdc: operator_usdc, ..operator }).with_shares(
                        yes,
                        operator.shares(yes) - taking,
                    ),
                ),
            ),
            _ => Err(TerminatorError::ArithmeticOverflow),
        }
    } else {
        if maker.shares(yes) < fill {
            return Err(TerminatorError::InsufficientOutcomeTokens);
        }
        if operator.usdc < taking {
            return Err(TerminatorError::InsufficientBalance);
        }
        match (maker.usdc.checked_add(net), operator.shares(yes).checked_add(fill)) {
            (Some(maker_usdc), Some(operator_shares)) => Ok(
                (
                    (Holdings { usdc: maker_usdc, ..maker }).with_shares(
                        yes,
                        maker.shares(yes) - fill,
                    ),
                    (Holdings { usdc: operator.usdc - taking, ..operator }).with_shares(
                        yes,
                        operator_shares,
                    ),
                ),
            ),
            _ => Err(TerminatorError::ArithmeticOverflow),
        }
    }
}

/// Runs the checks that come before any amount is computed and returns
/// the order's fill record after its first touch.
pub fn admit_fill(
    accounts: &FillOrder,
    clock: &Clock,
    instructions: &TransactionInstructions,
    global: &Global,
    market: &Market,
    order_status: &OrderStatus,
    maker_nonce: &UserNonce,
    maker_balance: &UserBalance,
    maker_position: &UserPosition,
    operator_balance: &UserBalance,
    operator_position: &UserPosition,
    params: &FillOrderParams,
    hash: [u8; 32],
) -> (r: Result<OrderStatus, TerminatorError>)
    requires
        global.wf(),
    ensures
        match fill_admission(
            *accounts,
            *clock,
            *instructions,
            *global,
            *market,
            *order_status,
            *maker_nonce,
            *maker_balance,
            *maker_position,
            *operator_balance,
            *operator_position,
            *params,
            hash,
        ) {
            Some(e) => r == Err::<OrderStatus, TerminatorError>(e),
            None => r == Ok::<OrderStatus, TerminatorError>(
                order_status.after_touch(
                    hash,
                    params.signed_order.order.maker_amount,
                    accounts.order_status_bump,
                ),
            ),
        },
{
    let order = &params.signed_order.order;
    if global.trading_paused {
        return Err(TerminatorError::TradingPaused);
    }
    if !global.is_operator(&accounts.operator) {
        return Err(TerminatorError::NotOperator);
    }
    if !(market.global == accounts.global) {
        return Err(TerminatorError::InvalidAccountInput);
    }
    if !market.can_trade() {
        return Err(TerminatorError::MarketNotActive);
    }
    if !(maker_balance.user == accounts.maker) || !(maker_position.user == accounts.maker) || !(
    operator_balance.user == accounts.operator) || !(operator_position.user
        == accounts.operator) {
        return Err(TerminatorError::Unauthorized);
    }
    if !(accounts.maker == order.maker) {
        return Err(TerminatorError::InvalidAccountInput);
    }
    validate_order(order, clock.unix_timestamp, maker_nonce.current_nonce)?;
    if !(order.market == accounts.market) {
        return Err(TerminatorError::InvalidMarket);
    }
    validate_taker(order, &accounts.operator)?;
    verify_ed25519_preceding(
        instructions,
        &order.signer,
        hash.as_slice(),
        &params.signed_order.signature,
    )?;
    let mut status = *order_status;
    status.touch(hash, order.maker_amount, accounts.order_status_bump)?;
    if !status.is_fillable() {
        return Err(TerminatorError::OrderNotFillable);
    }
    if params.fill_amount == 0 {
        return Err(TerminatorError::InvalidAmount);
    }
    Ok(status)
}

/// Fills an order whose hash the caller has computed, all or nothing.
pub fn fill_hashed(
    accounts: &FillOrder,
    clock: &Clock,
    instructions: &TransactionInstructions,
    global: &Global,
    market: &mut Market,
    order_status: &mut OrderStatus,
    maker_nonce: &UserNonce,
    maker_balance: &mut UserBalance,
    maker_position: &mut UserPosition,
    operator_balance: &mut UserBalance,
    operator_position: &mut UserPosition,
    params: &FillOrderParams,
    hash: [u8; 32],
) -> (r: Result<OrderFilled, TerminatorError>)
    requires
        global.wf(),
    ensures
        status_step(old(market).status, final(market).status),
        old(market).wf() ==> final(market).wf(),
        match fill_result(
            *accounts,
            *clock,
            *instructions,
            *global,
            *old(market),
            *old(order_status),
            *maker_nonce,
            *old(maker_balance),
            *old(maker_position),
            *old(operator_balance),
            *old(operator_position),
            *params,
            hash,
        ) {
            Ok(after) => {
                &&& r == Ok::<OrderFilled, TerminatorError>(after.6)
                &&& *final(market) == after.0
                &&& *final(order_status) == after.1
                &&& *final(maker_balance) == after.2
                &&& *final(maker_position) == after.3
                &&& *final(operator_balance) == after.4
                &&& *final(operator_position) == after.5
            },
            Err(e) => {
                &&& r == Err::<OrderFilled, TerminatorError>(e)
                &&& *final(market) == *old(market)
                &&& *final(order_status) == *old(order_status)
                &&& *final(maker_balance) == *old(maker_balance)
                &&& *final(maker_position) == *old(maker_position)
                &&& *final(operator_balance) == *old(operator_balance)
                &&& *final(operator_position) == *old(operator_position)
            },
        },
        final(market).total_position_collateral == old(market).total_position_collateral,
        final(market).total_yes_supply == old(market).total_yes_supply,
        final(market).total_no_supply == old(market).total_no_supply,
        final(order_status).remaining <= old(order_status).remaining || old(order_status).spec_is_unset(),
{
    let order = &params.signed_order.order;
    let mut status = admit_fill(
        accounts,
        clock,
        instructions,
        global,
        market,
        order_status,
        maker_nonce,
        maker_balance,
        maker_position,
        operator_balance,
        operator_position,
        params,
        hash,
    )?;
    let actual_fill = status.fill(params.fill_amount)?;
    let taking = calculate_taking_amount(actual_fill, order.maker_amount, order.taker_amount)?;
    let fee = calculate_fee(
        order.fee_rate_bps,
        taking,
        order.maker_amount,
        order.taker_amount,
        order.side,
    )?;
    let (maker, operator) = settle_single_fill(
        order,
        actual_fill,
        taking,
        fee,
        Holdings::of(*maker_balance, *maker_position),
        Holdings::of(*operator_balance, *operator_position),
    )?;
    let price = order.calculate_price()?;
    let priced = order.token_id == 1 || order.token_id == 2;
    if priced && price > PRICE_SCALE {
        return Err(TerminatorError::InvalidInput);
    }
    let total_trades = match market.total_trades.checked_add(1) {
        Some(total) => total,
        None => { return Err(TerminatorError::ArithmeticOverflow); },
    };
    let buys = order.is_buy();
    let event = OrderFilled {
        order_hash: hash,
        maker: order.maker,
        taker: accounts.operator,
        maker_asset_id: if buys {
            0
        } else {
            order.token_id
        },
        taker_asset_id: if buys {
            order.token_id
        } else {
            0
        },
        maker_amount_filled: actual_fill,
        taker_amount_filled: taking,
        fee,
        market: accounts.market,
        slot: clock.slot,
        timestamp: clock.unix_timestamp,
    };
    *order_status = status;
    maker.store(maker_balance, maker_position);
    operator.store(operator_balance, operator_position);
    market.record_activity(clock.unix_timestamp, clock.slot);
    if order.token_id == 1 {
        let _ = market.record_binary_last_price(0, price);
    } else if order.token_id == 2 {
        let _ = market.record_binary_last_price(1, price);
    }
    market.total_trades = total_trades;
    Ok(event)
}

/// Fills a single signed order against the operator, all or nothing: on
/// success every record is updated and the fill event is returned; on any
/// failure every record is left as it was.
pub fn handler(
    accounts: &FillOrder,
    clock: &Clock,
    instructions: &TransactionInstructions,
    global: &Global,
    market: &mut Market,
    order_status: &mut OrderStatus,
    maker_nonce: &UserNonce,
    maker_balance: &mut UserBalance,
    maker_position: &mut UserPosition,
    operator_balance: &mut UserBalance,
    operator_position: &mut UserPosition,
    params: &FillOrderParams,
) -> (r: Result<OrderFilled, TerminatorError>)
    requires
        global.wf(),
    ensures
        status_step(old(market).status, final(market).status),
        old(market).wf() ==> final(market).wf(),
        match fill_result(
            *accounts,
            *clock,
            *instructions,
            *global,
            *old(market),
            *old(order_status),
            *maker_nonce,
            *old(maker_balance),
            *old(maker_position),
            *old(operator_balance),
            *old(operator_position),
            *params,
            order_hash(params.signed_order.order),
        ) {
            Ok(after) => {
                &&& r == Ok::<OrderFilled, TerminatorError>(after.6)
                &&& *final(market) == after.0
                &&& *final(order_status) == after.1
                &&& *final(maker_balance) == after.2
                &&& *final(maker_position) == after.3
                &&& *final(operator_balance) == after.4
                &&& *final(operator_position) == after.5
            },
            Err(e) => {
                &&& r == Err::<OrderFilled, TerminatorError>(e)
                &&& *final(market) == *old(market)
                &&& *final(order_status) == *old(order_status)
                &&& *final(maker_balance) == *old(maker_balance)
                &&& *final(maker_position) == *old(maker_position)
                &&& *final(operator_balance) == *old(operator_balance)
                &&& *final(operator_position) == *old(operator_position)
            },
        },
        old(market).supply_balanced() ==> final(market).supply_balanced(),
{
    let hash = hash_order(&params.signed_order.order);
    fill_hashed(
        accounts,
        clock,
        instructions,
        global,
        market,
        order_status,
        maker_nonce,
        maker_balance,
        maker_position,
        operator_balance,
        operator_position,
        params,
        hash,
    )
}

} // verus!
