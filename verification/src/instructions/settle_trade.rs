//! Settling a trade that the exchange matched off-chain and signed.
//!
//! The exchange signs a message that names the market, a sequence number
//! and the fill. A message settles only if its number is the next one, so
//! no message settles twice. The taker pays the curve fee; the fee is
//! split among platform, maker and the market's creator.

use vstd::prelude::*;
use crate::bytes::{push_all, push_u64_le, u64_le};
use crate::clock::Clock;
use crate::constants::PRICE_SCALE;
use crate::errors::TerminatorError;
use crate::events::TradingFeeCollected;
use crate::instructions::calculator::{fee_shares, lemma_fee_shares_reconstruct};
use crate::instructions::ed25519_verify::{
    signature_verified_at,
    verify_ed25519_preceding,
    TransactionInstructions,
};
use crate::pubkey::Pubkey;
use crate::states::global::Global;
use crate::states::ledger::Holdings;
use crate::states::market::{status_step, Market};
use crate::states::user_balance::UserBalance;
use crate::states::user_position::UserPosition;
use crate::utils::{scale_by_rate, scale_price, scaled};

verus! {

/// Number of bytes in an encoded settlement message.
pub const SETTLE_TRADE_MESSAGE_SIZE: usize = 122;

/// One fill between a maker and a taker.
#[derive(Clone, Copy, Debug)]
pub struct FillInput {
    pub maker: Pubkey,
    pub taker: Pubkey,
    /// 0 for YES, 1 for NO.
    pub outcome_type: u8,
    /// The taker's side: 0 to buy, 1 to sell.
    pub side: u8,
    /// Number of shares traded.
    pub size: u64,
    /// Price per share at the 10^6 scale.
    pub price: u64,
}

/// What the caller asks to be settled.
#[derive(Clone, Copy, Debug)]
pub struct SettleTradeParams {
    pub fill: FillInput,
    /// Sequence number of the message.
    pub nonce: u64,
    /// The exchange's signature over the message.
    pub signature: [u8; 64],
}

/// The message the exchange signs.
#[derive(Clone, Copy, Debug)]
pub struct SettleTradeMessage {
    pub market: Pubkey,
    pub nonce: u64,
    pub fill: FillInput,
}

/// The identities of the accounts a settlement runs on.
#[derive(Clone, Copy, Debug)]
pub struct SettleTrade {
    /// The key of the exchange-wide record.
    pub global: Pubkey,
    /// The key of the market record.
    pub market: Pubkey,
    /// The wallet the maker records are said to belong to.
    pub maker: Pubkey,
    /// The wallet the taker records are said to belong to.
    pub taker: Pubkey,
}

/// The fee amounts of one settled trade.
#[derive(Clone, Copy, Debug, PartialEq, Eq, Structural)]
pub struct TradeAmounts {
    /// Collateral value of the shares: `size * price / 10^6`.
    pub total_cost: u64,
    /// The curve rate at the trade's price.
    pub taker_fee_rate: u32,
    /// The fee the taker pays.
    pub taker_fee: u64,
    /// The platform's share of the fee.
    pub platform_fee: u64,
    /// The maker's share of the fee.
    pub maker_rebate: u64,
    /// The creator's share of the fee.
    pub creator_incentive: u64,
}

/// What a settlement asks the caller to do: move the platform's and the
/// creator's share of the fee out of the market vault, and emit the event.
#[derive(Clone, Copy, Debug)]
pub struct SettleTradeOutcome {
    pub amounts: TradeAmounts,
    pub fee_event: Option<TradingFeeCollected>,
}

impl SettleTradeMessage {
    /// The canonical byte string of the message: market, sequence number,
    /// then the fill's fields in declaration order, integers little-endian.
    pub open spec fn encoding(&self) -> Seq<u8> {
        self.market@ + u64_le(self.nonce) + self.fill.maker@ + self.fill.taker@
            + seq![self.fill.outcome_type] + seq![self.fill.side] + u64_le(self.fill.size)
            + u64_le(self.fill.price)
    }

    /// Writes the canonical byte string of the message.
    pub fn encode(&self) -> (out: Vec<u8>)
        ensures
            out@ == self.encoding(),
            out@.len() == SETTLE_TRADE_MESSAGE_SIZE,
    {
        let mut out: Vec<u8> = Vec::new();
        push_all(&mut out, self.market.bytes.as_slice());
        assert(out@ =~= self.market@);
        push_u64_le(&mut out, self.nonce);
        push_all(&mut out, self.fill.maker.bytes.as_slice());
        push_all(&mut out, self.fill.taker.bytes.as_slice());
        let ghost keys = out@;
        out.push(self.fill.outcome_type);
        assert(out@ =~= keys + seq![self.fill.outcome_type]);
        let ghost typed = out@;
        out.push(self.fill.side);
        assert(out@ =~= typed + seq![self.fill.side]);
        push_u64_le(&mut out, self.fill.size);
        push_u64_le(&mut out, self.fill.price);
        out
    }
}

/// The first reason, if any, to refuse a settlement before any amount is
/// computed: the market belongs to another exchange or cannot trade; the
/// records are not those of the fill's parties; the fill is malformed; the
/// message is not the next in sequence; the exchange's signature over the
/// message was not verified just before this call.
pub open spec fn trade_admission(
    accounts: SettleTrade,
    instructions: TransactionInstructions,
    global: Global,
    market: Market,
    maker_balance: UserBalance,
    maker_position: UserPosition,
    taker_balance: UserBalance,
    taker_position: UserPosition,
    params: SettleTradeParams,
) -> Option<TerminatorError> {
    let fill = params.fill;
    if market.global != accounts.global {
        Some(TerminatorError::InvalidAccountInput)
    } else if !market.spec_can_trade() {
        Some(TerminatorError::MarketNotActive)
    } else if fill.maker != accounts.maker || fill.taker != accounts.taker {
        Some(TerminatorError::InvalidAccountInput)
    } else if maker_balance.user != accounts.maker || taker_balance.user != accounts.taker
        || maker_position.user != accounts.maker || taker_position.user != accounts.taker {
        Some(TerminatorError::Unauthorized)
    } else if fill.size == 0 {
        Some(TerminatorError::InvalidAmount)
    } else if fill.price > PRICE_SCALE {
        Some(TerminatorError::InvalidInput)
    } else if fill.outcome_type > 1 {
        Some(TerminatorError::InvalidOutcome)
    } else if fill.side > 1 {
        Some(TerminatorError::InvalidInput)
    } else if market.settle_trade_nonce == u64::MAX {
        Some(TerminatorError::ArithmeticOverflow)
    } else if params.nonce != market.settle_trade_nonce + 1 {
        Some(TerminatorError::InvalidInput)
    } else if !signature_verified_at(
        instructions.instructions@,
        instructions.current_index - 1,
        global.settlement_signer,
        (SettleTradeMessage { market: accounts.market, nonce: params.nonce, fill }).encoding(),
        params.signature@,
    ) {
        Some(TerminatorError::InvalidSignature)
    } else {
        None
    }
}

/// The fee amounts of a fill under a fee configuration. The taker fee is
/// the curve rate applied to the trade's collateral value; its three
/// shares need a split that adds up to exactly 100%.
pub open spec fn trade_amounts(global: Global, fill: FillInput) -> Result<
    TradeAmounts,
    TerminatorError,
> {
    let total_cost = scaled(fill.size as int, fill.price as int);
    let rate = global.taker_fee_rate(fill.price);
    let taker_fee = scaled(total_cost, rate);
    if total_cost > u64::MAX || taker_fee > u64::MAX {
        Err(TerminatorError::ArithmeticOverflow)
    } else if global.platform_fee_rate + global.maker_rebate_rate > u32::MAX
        || global.platform_fee_rate + global.maker_rebate_rate + global.creator_incentive_rate
        > u32::MAX {
        Err(TerminatorError::ArithmeticOverflow)
    } else if !global.distribution_is_complete() {
        Err(TerminatorError::InvalidFeeConfiguration)
    } else {
        let shares = fee_shares(global, taker_fee as u64);
        Ok(
            TradeAmounts {
                total_cost: total_cost as u64,
                taker_fee_rate: rate as u32,
                taker_fee: taker_fee as u64,
                platform_fee: shares.0 as u64,
                maker_rebate: shares.1 as u64,
                creator_incentive: shares.2 as u64,
            },
        )
    }
}

/// The holdings of maker and taker after the fill. A buying taker pays
/// the cost plus the fee and the maker receives the cost plus its rebate;
/// a selling taker receives the cost less the fee and the maker pays the
/// cost less its rebate. The shares go the other way.
pub open spec fn trade_settlement(
    fill: FillInput,
    amounts: TradeAmounts,
    maker: Holdings,
    taker: Holdings,
) -> Result<(Holdings, Holdings), TerminatorError> {
    let yes = fill.outcome_type == 0;
    if fill.side == 0 {
        if amounts.total_cost + amounts.taker_fee > u64::MAX {
            Err(TerminatorError::ArithmeticOverflow)
        } else if taker.usdc < amounts.total_cost + amounts.taker_fee {
            Err(TerminatorError::InsufficientBalance)
        } else if maker.spec_shares(yes) < fill.size {
            Err(TerminatorError::InsufficientOutcomeTokens)
        } else if maker.usdc + amounts.total_cost + amounts.maker_rebate > u64::MAX
            || taker.spec_shares(yes) + fill.size > u64::MAX {
            Err(TerminatorError::ArithmeticOverflow)
        } else {
            Ok(
                (
                    (Holdings {
                        usdc: (maker.usdc + amounts.total_cost + amounts.maker_rebate) as u64,
                        ..maker
                    }).spec_with_shares(yes, (maker.spec_shares(yes) - fill.size) as u64),
                    (Holdings {
                        usdc: (taker.usdc - (amounts.total_cost + amounts.taker_fee)) as u64,
                        ..taker
                    }).spec_with_shares(yes, (taker.spec_shares(yes) + fill.size) as u64),
                ),
            )
        }
    } else {
        if amounts.maker_rebate > amounts.total_cost {
            Err(TerminatorError::InvalidFeeConfiguration)
        } else if maker.usdc < amounts.total_cost - amounts.maker_rebate {
            Err(TerminatorError::InsufficientBalance)
        } else if taker.spec_shares(yes) < fill.size {
            Err(TerminatorError::InsufficientOutcomeTokens)
        } else if amounts.taker_fee > amounts.total_cost || taker.usdc + (amounts.total_cost
            - amounts.taker_fee) > u64::MAX || maker.spec_shares(yes) + fill.size > u64::MAX {
            Err(TerminatorError::ArithmeticOverflow)
        } else {
            Ok(
                (
                    (Holdings {
                        usdc: (maker.usdc - (amounts.total_cost - amounts.maker_rebate)) as u64,
                        ..maker
                    }).spec_with_shares(yes, (maker.spec_shares(yes) + fill.size) as u64),
                    (Holdings {
                        usdc: (taker.usdc + (amounts.total_cost - amounts.taker_fee)) as u64,
                        ..taker
                    }).spec_with_shares(yes, (taker.spec_shares(yes) - fill.size) as u64),
                ),
            )
        }
    }
}

/// The first reason, if any, why the books cannot take the trade: a
/// running total would overflow; the vault cannot cover the fee shares
/// that leave it; the market's supply is out of balance.
pub open spec fn bookkeeping_rejection(
    global: Global,
    market: Market,
    amounts: TradeAmounts,
    vault_balance: u64,
) -> Option<TerminatorError> {
    if global.total_trading_fees_collected + amounts.platform_fee > u64::MAX
        || market.creator_incentive_accrued + amounts.creator_incentive > u64::MAX {
        Some(TerminatorError::ArithmeticOverflow)
    } else if vault_balance < amounts.platform_fee + amounts.creator_incentive {
        Some(TerminatorError::InsufficientVaultBalance)
    } else if market.total_trades == u64::MAX {
        Some(TerminatorError::ArithmeticOverflow)
    } else if !market.supply_balanced() {
        Some(TerminatorError::InvalidInput)
    } else {
        None
    }
}

/// The market after the trade was booked.
pub open spec fn market_after_trade(
    market: Market,
    clock: Clock,
    params: SettleTradeParams,
    amounts: TradeAmounts,
) -> Market {
    (Market {
        creator_incentive_accrued: (market.creator_incentive_accrued
            + amounts.creator_incentive) as u64,
        settle_trade_nonce: params.nonce,
        last_activity_ts: clock.unix_timestamp,
        last_trade_slot: Some(clock.slot),
        last_trade_outcome: Some(params.fill.outcome_type),
        reference_agent: Some(params.fill.taker),
        total_trades: (market.total_trades + 1) as u64,
        ..market
    }).with_last_price(params.fill.outcome_type, params.fill.price)
}

/// The fee event of a trade; none when no fee was charged.
pub open spec fn fee_event(
    accounts: SettleTrade,
    clock: Clock,
    fill: FillInput,
    amounts: TradeAmounts,
) -> Option<TradingFeeCollected> {
    if amounts.taker_fee > 0 {
        Some(
            TradingFeeCollected {
                market: accounts.market,
                maker: fill.maker,
                taker: fill.taker,
                user: accounts.taker,
                outcome_type: fill.outcome_type,
                side: fill.side,
                size: fill.size,
                fee_amount: amounts.taker_fee,
                fee_rate: amounts.taker_fee_rate,
                price: fill.price,
                slot: clock.slot,
                timestamp: clock.unix_timestamp,
            },
        )
    } else {
        None
    }
}

/// What a settlement does, as a whole: either the first failure, or every
/// record after the trade and what the caller is asked to do.
pub open spec fn settle_trade_result(
    accounts: SettleTrade,
    clock: Clock,
    instructions: TransactionInstructions,
    global: Global,
    market: Market,
    maker_balance: UserBalance,
    maker_position: UserPosition,
    taker_balance: UserBalance,
    taker_position: UserPosition,
    vault_balance: u64,
    params: SettleTradeParams,
) -> Result<
    (Global, Market, UserBalance, UserPosition, UserBalance, UserPosition, SettleTradeOutcome),
    TerminatorError,
> {
    match trade_admission(
        accounts,
        instructions,
        global,
        market,
        maker_balance,
        maker_position,
        taker_balance,
        taker_position,
        params,
    ) {
        Some(e) => Err(e),
        None => match trade_amounts(global, params.fill) {
            Err(e) => Err(e),
            Ok(amounts) => match trade_settlement(
                params.fill,
                amounts,
                Holdings::spec_of(maker_balance, maker_position),
                Holdings::spec_of(taker_balance, taker_position),
            ) {
                Err(e) => Err(e),
                Ok((maker, taker)) => match bookkeeping_rejection(
                    global,
                    market,
                    amounts,
                    vault_balance,
                ) {
                    Some(e) => Err(e),
                    None => Ok(
                        (
                            Global {
                                total_trading_fees_collected: (global.total_trading_fees_collected
                                    + amounts.platform_fee) as u64,
                                ..global
                            },
                            market_after_trade(market, clock, params, amounts),
                            maker.spec_balance(maker_balance),
                            maker.spec_position(maker_position),
                            taker.spec_balance(taker_balance),
                            taker.spec_position(taker_position),
                            SettleTradeOutcome {
                                amounts,
                                fee_event: fee_event(accounts, clock, params.fill, amounts),
                            },
                        ),
                    ),
                },
            },
        },
    }
}

/// Runs the checks that come before any amount is computed.
pub fn admit_trade(
    accounts: &SettleTrade,
    instructions: &TransactionInstructions,
    global: &Global,
    market: &Market,
    maker_balance: &UserBalance,
    maker_position: &UserPosition,
    taker_balance: &UserBalance,
    taker_position: &UserPosition,
    params: &SettleTradeParams,
) -> (r: Result<(), TerminatorError>)
    ensures
        r == match trade_admission(
            *accounts,
            *instructions,
            *global,
            *market,
            *maker_balance,
            *maker_position,
            *taker_balance,
            *taker_position,
            *params,
        ) {
            Some(e) => Err::<(), TerminatorError>(e),
            None => Ok::<(), TerminatorError>(()),
        },
{
    let fill = &params.fill;
    if !(market.global == accounts.global) {
        return Err(TerminatorError::InvalidAccountInput);
    }
    if !market.can_trade() {
        return Err(TerminatorError::MarketNotActive);
    }
    if !(fill.maker == accounts.maker) || !(fill.taker == accounts.taker) {
        return Err(TerminatorError::InvalidAccountInput);
    }
    if !(maker_balance.user == accounts.maker) || !(taker_balance.user == accounts.taker) || !(
    maker_position.user == accounts.maker) || !(taker_position.user == accounts.taker) {
        return Err(TerminatorError::Unauthorized);
    }
    if fill.size == 0 {
        return Err(TerminatorError::InvalidAmount);
    }
    if fill.price > PRICE_SCALE {
        return Err(TerminatorError::InvalidInput);
    }
    if fill.outcome_type > 1 {
        return Err(TerminatorError::InvalidOutcome);
    }
    if fill.side > 1 {
        return Err(TerminatorError::InvalidInput);
    }
    let expected_nonce = match market.settle_trade_nonce.checked_add(1) {
        Some(nonce) => nonce,
        None => { return Err(TerminatorError::ArithmeticOverflow); },
    };
    if params.nonce != expected_nonce {
        return Err(TerminatorError::InvalidInput);
    }
    let message = SettleTradeMessage { market: accounts.market, nonce: params.nonce, fill: *fill };
    let payload = message.encode();
    verify_ed25519_preceding(
        instructions,
        &global.settlement_signer,
        payload.as_slice(),
        &params.signature,
    )
}

/// Computes the fee amounts of a fill.
pub fn compute_trade_amounts(global: &Global, fill: &FillInput) -> (r: Result<
    TradeAmounts,
    TerminatorError,
>)
    ensures
        r == trade_amounts(*global, *fill),
        r is Ok ==> r->Ok_0.platform_fee + r->Ok_0.maker_rebate + r->Ok_0.creator_incentive
            <= r->Ok_0.taker_fee && r->Ok_0.taker_fee - (r->Ok_0.platform_fee
            + r->Ok_0.maker_rebate + r->Ok_0.creator_incentive) <= 2,
{
    let total_cost = scale_price(fill.size, fill.price)?;
    let taker_fee_rate = global.calculate_taker_fee_rate(fill.price);
    let taker_fee = scale_by_rate(total_cost, taker_fee_rate)?;
    let fee_rate_sum = match global.platform_fee_rate.checked_add(global.maker_rebate_rate) {
        Some(sum) => sum.checked_add(global.creator_incentive_rate),
        None => None,
    };
    match fee_rate_sum {
        None => { return Err(TerminatorError::ArithmeticOverflow); },
        Some(sum) => {
            if sum != 1_000_000 {
                return Err(TerminatorError::InvalidFeeConfiguration);
            }
        },
    }
    proof {
        lemma_fee_shares_reconstruct(*global, taker_fee);
    }
    let platform_fee = scale_by_rate(taker_fee, global.platform_fee_rate)?;
    let maker_rebate = scale_by_rate(taker_fee, global.maker_rebate_rate)?;
    let creator_incentive = scale_by_rate(taker_fee, global.creator_incentive_rate)?;
    let fee_components_sum = platform_fee + maker_rebate + creator_incentive;
    if !(fee_components_sum <= taker_fee && taker_fee - fee_components_sum <= 3) {
        return Err(TerminatorError::InvalidFeeConfiguration);
    }
    Ok(
        TradeAmounts {
            total_cost,
            taker_fee_rate,
            taker_fee,
            platform_fee,
            maker_rebate,
            creator_incentive,
        },
    )
}

/// Moves the amounts of one fill between maker and taker.
pub fn settle_fill(fill: &FillInput, amounts: &TradeAmounts, maker: Holdings, taker: Holdings) -> (r:
    Result<(Holdings, Holdings), TerminatorError>)
    ensures
        r == trade_settlement(*fill, *amounts, maker, taker),
{
    let yes = fill.outcome_type == 0;
    if fill.side == 0 {
        let total_taker_cost = match amounts.total_cost.checked_add(amounts.taker_fee) {
            Some(cost) => cost,
            None => { return Err(TerminatorError::ArithmeticOverflow); },
        };
        if taker.usdc < total_taker_cost {
            return Err(TerminatorError::InsufficientBalance);
        }
        if maker.shares(yes) < fill.size {
            return Err(TerminatorError::InsufficientOutcomeTokens);
        }
        let maker_usdc = match maker.usdc.checked_add(amounts.total_cost) {
            Some(sum) => sum.checked_add(amounts.maker_rebate),
            None => None,
        };
        match (maker_usdc, taker.shares(yes).checked_add(fill.size)) {
            (Some(maker_usdc), Some(taker_shares)) => Ok(
                (
                    (Holdings { usdc: maker_usdc, ..maker }).with_shares(
                        yes,
                        maker.shares(yes) - fill.size,
                    ),
                    (Holdings { usdc: taker.usdc - total_taker_cost, ..taker }).with_shares(
                        yes,
                        taker_shares,
                    ),
                ),
            ),
            _ => Err(TerminatorError::ArithmeticOverflow),
        }
    } else {
        if amounts.maker_rebate > amounts.total_cost {
            return Err(TerminatorError::InvalidFeeConfiguration);
        }
        let maker_cost = amounts.total_cost - amounts.maker_rebate;
        if maker.usdc < maker_cost {
            return Err(TerminatorError::InsufficientBalance);
        }
        if taker.shares(yes) < fill.size {
            return Err(TerminatorError::InsufficientOutcomeTokens);
        }
        if amounts.taker_fee > amounts.total_cost {
            return Err(TerminatorError::ArithmeticOverflow);
        }
        let taker_receives = amounts.total_cost - amounts.taker_fee;
        match (taker.usdc.checked_add(taker_receives), maker.shares(yes).checked_add(fill.size)) {
            (Some(taker_usdc), Some(maker_shares)) => Ok(
                (
                    (Holdings { usdc: maker.usdc - maker_cost, ..maker }).with_shares(
                        yes,
                        maker_shares,
                    ),
                    (Holdings { usdc: taker_usdc, ..taker }).with_shares(
                        yes,
                        taker.shares(yes) - fill.size,
                    ),
                ),
            ),
            _ => Err(TerminatorError::ArithmeticOverflow),
        }
    }
}

/// Settles an exchange-signed trade, all or nothing: on success every
/// record is updated and the caller is told which fee shares to move out
/// of the vault; on any failure every record is left as it was.
pub fn handler(
    accounts: &SettleTrade,
    clock: &Clock,
    instructions: &TransactionInstructions,
    global: &mut Global,
    market: &mut Market,
    maker_balance: &mut UserBalance,
    maker_position: &mut UserPosition,
    taker_balance: &mut UserBalance,
    taker_position: &mut UserPosition,
    vault_balance: u64,
    params: &SettleTradeParams,
) -> (r: Result<SettleTradeOutcome, TerminatorError>)
    ensures
        status_step(old(market).status, final(market).status),
        old(market).wf() ==> final(market).wf(),
        match settle_trade_result(
            *accounts,
            *clock,
            *instructions,
            *old(global),
            *old(market),
            *old(maker_balance),
            *old(maker_position),
            *old(taker_balance),
            *old(taker_position),
            vault_balance,
            *params,
        ) {
            Ok(after) => {
                &&& r == Ok::<SettleTradeOutcome, TerminatorError>(after.6)
                &&& *final(global) == after.0
                &&& *final(market) == after.1
                &&& *final(maker_balance) == after.2
                &&& *final(maker_position) == after.3
                &&& *final(taker_balance) == after.4
                &&& *final(taker_position) == after.5
            },
            Err(e) => {
                &&& r == Err::<SettleTradeOutcome, TerminatorError>(e)
                &&& *final(global) == *old(global)
                &&& *final(market) == *old(market)
                &&& *final(maker_balance) == *old(maker_balance)
                &&& *final(maker_position) == *old(maker_position)
                &&& *final(taker_balance) == *old(taker_balance)
                &&& *final(taker_position) == *old(taker_position)
            },
        },
        r is Ok ==> final(market).supply_balanced() && old(market).supply_balanced(),
        final(market).total_position_collateral == old(market).total_position_collateral,
        final(market).total_yes_supply == old(market).total_yes_supply,
        final(market).total_no_supply == old(market).total_no_supply,
{
    let fill = &params.fill;
    admit_trade(
        accounts,
        instructions,
        global,
        market,
        maker_balance,
        maker_position,
        taker_balance,
        taker_position,
        params,
    )?;
    let amounts = compute_trade_amounts(global, fill)?;
    let (maker, taker) = settle_fill(
        fill,
        &amounts,
        Holdings::of(*maker_balance, *maker_position),
        Holdings::of(*taker_balance, *taker_position),
    )?;
    let fees_collected = global.total_trading_fees_collected.checked_add(amounts.platform_fee);
    let accrued = market.creator_incentive_accrued.checked_add(amounts.creator_incentive);
    let (fees_collected, accrued) = match (fees_collected, accrued) {
        (Some(fees_collected), Some(accrued)) => (fees_collected, accrued),
        _ => { return Err(TerminatorError::ArithmeticOverflow); },
    };
    let fee_total = amounts.platform_fee + amounts.creator_incentive;
    if vault_balance < fee_total {
        return Err(TerminatorError::InsufficientVaultBalance);
    }
    let total_trades = match market.total_trades.checked_add(1) {
        Some(total) => total,
        None => { return Err(TerminatorError::ArithmeticOverflow); },
    };
    if market.total_yes_supply != market.total_no_supply || market.total_position_collateral
        != market.total_yes_supply {
        return Err(TerminatorError::InvalidInput);
    }
    let event = if amounts.taker_fee > 0 {
        Some(
            TradingFeeCollected {
                market: accounts.market,
                maker: fill.maker,
                taker: fill.taker,
                user: accounts.taker,
                outcome_type: fill.outcome_type,
                side: fill.side,
                size: fill.size,
                fee_amount: amounts.taker_fee,
                fee_rate: amounts.taker_fee_rate,
                price: fill.price,
                slot: clock.slot,
                timestamp: clock.unix_timestamp,
            },
        )
    } else {
        None
    };
    maker.store(maker_balance, maker_position);
    taker.store(taker_balance, taker_position);
    global.total_trading_fees_collected = fees_collected;
    market.creator_incentive_accrued = accrued;
    market.settle_trade_nonce = params.nonce;
    market.record_activity(clock.unix_timestamp, clock.slot);
    market.last_trade_outcome = Some(fill.outcome_type);
    market.reference_agent = Some(fill.taker);
    market.total_trades = total_trades;
    let _ = market.record_binary_last_price(fill.outcome_type, fill.price);
    Ok(SettleTradeOutcome { amounts, fee_event: event })
}

} // verus!
