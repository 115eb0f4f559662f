//! Redeeming shares of one outcome at its final price.
//!
//! Once a market is resolved, each share is worth its final price. Every
//! payout is drawn from the pool locked at resolution, so that all payouts
//! together can never exceed it, whatever rounding does.

use vstd::prelude::*;
use crate::clock::Clock;
use crate::errors::TerminatorError;
use crate::events::CtfTokensRedeemed;
use crate::pubkey::Pubkey;
use crate::states::market::{status_step, Market};
use crate::states::user_position::UserPosition;
use crate::utils::{scale_price, scaled};

verus! {

/// What the user asks to redeem.
#[derive(Clone, Copy, Debug)]
pub struct RedeemSingleOutcomeParams {
    /// Always 0: a market asks one question.
    pub question_index: u8,
    /// 0 for YES, 1 for NO.
    pub outcome_type: u8,
    /// Number of shares to redeem.
    pub token_amount: u64,
}

/// The identities of the accounts a redemption runs on.
#[derive(Clone, Copy, Debug)]
pub struct RedeemSingleOutcome {
    /// The key of the exchange-wide record.
    pub global: Pubkey,
    /// The key of the market record.
    pub market: Pubkey,
    /// Who redeems.
    pub user: Pubkey,
}

/// What a redemption asks the caller to do: pay `payout` from the vault.
#[derive(Clone, Copy, Debug)]
pub struct Redemption {
    pub payout: u64,
    pub redeemed: CtfTokensRedeemed,
}

/// The final price of an outcome, once locked.
pub open spec fn final_price(market: Market, outcome_type: u8) -> Option<u64> {
    if outcome_type == 0 {
        market.final_yes_price
    } else {
        market.final_no_price
    }
}

/// The user's shares of an outcome.
pub open spec fn position_balance(position: UserPosition, outcome_type: u8) -> u64 {
    if outcome_type == 0 {
        position.yes_balance
    } else {
        position.no_balance
    }
}

/// The outstanding shares of an outcome.
pub open spec fn outcome_supply(market: Market, outcome_type: u8) -> u64 {
    if outcome_type == 0 {
        market.total_yes_supply
    } else {
        market.total_no_supply
    }
}

/// What `token_amount` shares of an outcome pay: `amount * price / 10^6`.
pub open spec fn redemption_payout(market: Market, params: RedeemSingleOutcomeParams) -> int {
    scaled(
        params.token_amount as int,
        final_price(market, params.outcome_type)->Some_0 as int,
    )
}

/// The first reason, if any, to refuse a redemption: redemption is not
/// open; the market belongs to another exchange; the position is not the
/// user's; the outcome is unknown or has no final price; the user holds
/// too few shares; the payout overflows, is nothing, or exceeds what the
/// vault holds, what the supply and the collateral ledgers hold, or what
/// is left of the locked pool.
pub open spec fn redemption_rejection(
    accounts: RedeemSingleOutcome,
    market: Market,
    position: UserPosition,
    vault_balance: u64,
    params: RedeemSingleOutcomeParams,
) -> Option<TerminatorError> {
    let payout = redemption_payout(market, params);
    if !market.spec_can_redeem() {
        Some(TerminatorError::RedemptionNotAllowed)
    } else if market.global != accounts.global {
        Some(TerminatorError::InvalidGlobalAccount)
    } else if position.user != accounts.user {
        Some(TerminatorError::Unauthorized)
    } else if params.outcome_type > 1 {
        Some(TerminatorError::InvalidOutcome)
    } else if final_price(market, params.outcome_type) is None {
        Some(TerminatorError::MarketNotTerminated)
    } else if position_balance(position, params.outcome_type) < params.token_amount {
        Some(TerminatorError::InsufficientOutcomeTokensForRedemption)
    } else if payout > u64::MAX {
        Some(TerminatorError::ArithmeticOverflow)
    } else if payout == 0 {
        Some(TerminatorError::InvalidAmount)
    } else if vault_balance < payout {
        Some(TerminatorError::InsufficientVaultBalance)
    } else if outcome_supply(market, params.outcome_type) < params.token_amount
        || market.total_redeemable_usdc < market.total_redeemed_usdc {
        Some(TerminatorError::ArithmeticOverflow)
    } else if payout > market.total_redeemable_usdc - market.total_redeemed_usdc {
        Some(TerminatorError::InsufficientVaultBalance)
    } else if market.total_position_collateral < payout {
        Some(TerminatorError::ArithmeticOverflow)
    } else if vault_balance < market.total_position_collateral {
        Some(TerminatorError::InsufficientVaultBalance)
    } else {
        None
    }
}

/// The market after a redemption that pays `payout`.
pub open spec fn market_after_redemption(
    market: Market,
    params: RedeemSingleOutcomeParams,
    payout: u64,
) -> Market {
    let burned = if params.outcome_type == 0 {
        Market { total_yes_supply: (market.total_yes_supply - params.token_amount) as u64, ..market }
    } else {
        Market { total_no_supply: (market.total_no_supply - params.token_amount) as u64, ..market }
    };
    Market {
        total_redeemed_usdc: (market.total_redeemed_usdc + payout) as u64,
        total_position_collateral: (market.total_position_collateral - payout) as u64,
        ..burned
    }
}

/// The position after `token_amount` shares of the outcome were redeemed.
pub open spec fn position_after_redemption(
    position: UserPosition,
    params: RedeemSingleOutcomeParams,
) -> UserPosition {
    if params.outcome_type == 0 {
        UserPosition { yes_balance: (position.yes_balance - params.token_amount) as u64, ..position }
    } else {
        UserPosition { no_balance: (position.no_balance - params.token_amount) as u64, ..position }
    }
}

/// Redeems shares of one outcome of a resolved market. On failure market
/// and position are left as they were.
pub fn handler(
    accounts: &RedeemSingleOutcome,
    clock: &Clock,
    market: &mut Market,
    position: &mut UserPosition,
    vault_balance: u64,
    params: &RedeemSingleOutcomeParams,
) -> (r: Result<Redemption, TerminatorError>)
    ensures
        status_step(old(market).status, final(market).status),
        old(market).wf() ==> final(market).wf(),
        match redemption_rejection(*accounts, *old(market), *old(position), vault_balance, *params) {
            Some(e) => r == Err::<Redemption, TerminatorError>(e) && *final(market) == *old(market)
                && *final(position) == *old(position),
            None => r == Ok::<Redemption, TerminatorError>(
                Redemption {
                    payout: redemption_payout(*old(market), *params) as u64,
                    redeemed: CtfTokensRedeemed {
                        market: accounts.market,
                        user: accounts.user,
                        winning_outcome: params.outcome_type,
                        token_amount: params.token_amount,
                        reward_amount: redemption_payout(*old(market), *params) as u64,
                        timestamp: clock.unix_timestamp,
                    },
                },
            ) && *final(market) == market_after_redemption(
                *old(market),
                *params,
                redemption_payout(*old(market), *params) as u64,
            ) && *final(position) == position_after_redemption(*old(position), *params),
        },
        r is Ok ==> final(market).total_redeemed_usdc == old(market).total_redeemed_usdc
            + r->Ok_0.payout && final(market).redemption_bounded(),
        r is Ok ==> vault_balance - r->Ok_0.payout >= final(market).total_position_collateral,
        final(market).status == old(market).status,
        final(market).total_redeemable_usdc == old(market).total_redeemable_usdc,
{
    if !market.can_redeem() {
        return Err(TerminatorError::RedemptionNotAllowed);
    }
    if !(market.global == accounts.global) {
        return Err(TerminatorError::InvalidGlobalAccount);
    }
    if !(position.user == accounts.user) {
        return Err(TerminatorError::Unauthorized);
    }
    if params.outcome_type > 1 {
        return Err(TerminatorError::InvalidOutcome);
    }
    let yes = params.outcome_type == 0;
    let final_price = if yes {
        market.final_yes_price
    } else {
        market.final_no_price
    };
    let final_price = match final_price {
        Some(price) => price,
        None => { return Err(TerminatorError::MarketNotTerminated); },
    };
    let position_balance = if yes {
        position.yes_balance
    } else {
        position.no_balance
    };
    if position_balance < params.token_amount {
        return Err(TerminatorError::InsufficientOutcomeTokensForRedemption);
    }
    let usdc_amount = scale_price(params.token_amount, final_price)?;
    if usdc_amount == 0 {
        return Err(TerminatorError::InvalidAmount);
    }
    if vault_balance < usdc_amount {
        return Err(TerminatorError::InsufficientVaultBalance);
    }
    let supply = if yes {
        market.total_yes_supply
    } else {
        market.total_no_supply
    };
    if supply < params.token_amount || market.total_redeemable_usdc < market.total_redeemed_usdc {
        return Err(TerminatorError::ArithmeticOverflow);
    }
    let remaining = market.total_redeemable_usdc - market.total_redeemed_usdc;
    if usdc_amount > remaining {
        return Err(TerminatorError::InsufficientVaultBalance);
    }
    if market.total_position_collateral < usdc_amount {
        return Err(TerminatorError::ArithmeticOverflow);
    }
    if vault_balance < market.total_position_collateral {
        return Err(TerminatorError::InsufficientVaultBalance);
    }
    if yes {
        position.yes_balance = position.yes_balance - params.token_amount;
        market.total_yes_supply = market.total_yes_supply - params.token_amount;
    } else {
        position.no_balance = position.no_balance - params.token_amount;
        market.total_no_supply = market.total_no_supply - params.token_amount;
    }
    market.total_redeemed_usdc = market.total_redeemed_usdc + usdc_amount;
    market.total_position_collateral = market.total_position_collateral - usdc_amount;
    Ok(
        Redemption {
            payout: usdc_amount,
            redeemed: CtfTokensRedeemed {
                market: accounts.market,
                user: accounts.user,
                winning_outcome: params.outcome_type,
                token_amount: params.token_amount,
                reward_amount: usdc_amount,
                timestamp: clock.unix_timestamp,
            },
        },
    )
}

} // verus!
