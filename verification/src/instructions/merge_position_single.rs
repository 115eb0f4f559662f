//! Merging a YES and a NO position back into collateral, one for one.
//!
//! A merge is open while the market trades, and again after a
//! termination, where it redeems a pair at the fixed rate of one unit of
//! collateral and counts against the locked redemption pool.

use vstd::prelude::*;
use crate::clock::Clock;
use crate::errors::TerminatorError;
use crate::events::PositionMerged;
use crate::pubkey::Pubkey;
use crate::states::market::{status_step, Market, MarketStatus};
use crate::states::user_position::UserPosition;

verus! {

/// What the user asks to merge.
#[derive(Clone, Copy, Debug)]
pub struct MergePositionSingleParams {
    /// Number of pairs to merge; the user receives this much collateral.
    pub amount: u64,
}

/// The identities of the accounts a merge runs on.
#[derive(Clone, Copy, Debug)]
pub struct MergePositionSingle {
    /// The key of the exchange-wide record.
    pub global: Pubkey,
    /// The key of the market record.
    pub market: Pubkey,
    /// Who merges.
    pub user: Pubkey,
}

/// The first reason, if any, to refuse a merge of `amount` pairs paid out
/// of a vault holding `vault_balance`: the market belongs to another
/// exchange or was settled; the position is not the user's; nothing is
/// merged; the user lacks shares; the vault lacks collateral; on a
/// resolved market, the locked pool lacks collateral; a supply figure
/// would go below zero; on an active market, the supply is out of
/// balance; the vault would not cover the position collateral.
pub open spec fn merge_rejection(
    accounts: MergePositionSingle,
    market: Market,
    position: UserPosition,
    vault_balance: u64,
    amount: u64,
) -> Option<TerminatorError> {
    if market.global != accounts.global {
        Some(TerminatorError::InvalidAccountInput)
    } else if market.status == MarketStatus::Settled {
        Some(TerminatorError::MarketNotActive)
    } else if position.user != accounts.user {
        Some(TerminatorError::Unauthorized)
    } else if amount == 0 {
        Some(TerminatorError::InvalidAmount)
    } else if position.yes_balance < amount || position.no_balance < amount {
        Some(TerminatorError::InsufficientBalance)
    } else if vault_balance < amount {
        Some(TerminatorError::InsufficientVaultBalance)
    } else if market.spec_can_redeem() && market.total_redeemable_usdc
        < market.total_redeemed_usdc {
        Some(TerminatorError::ArithmeticOverflow)
    } else if market.spec_can_redeem() && amount > market.total_redeemable_usdc
        - market.total_redeemed_usdc {
        Some(TerminatorError::InsufficientVaultBalance)
    } else if market.total_position_collateral < amount || market.total_yes_supply < amount
        || market.total_no_supply < amount {
        Some(TerminatorError::ArithmeticOverflow)
    } else if market.spec_is_active() && !market.supply_balanced() {
        Some(TerminatorError::InvalidInput)
    } else if vault_balance < market.total_position_collateral {
        Some(TerminatorError::InsufficientVaultBalance)
    } else {
        None
    }
}

/// The market after `amount` pairs were merged.
pub open spec fn market_after_merge(market: Market, amount: u64) -> Market {
    Market {
        total_redeemed_usdc: if market.spec_can_redeem() {
            (market.total_redeemed_usdc + amount) as u64
        } else {
            market.total_redeemed_usdc
        },
        total_position_collateral: (market.total_position_collateral - amount) as u64,
        total_yes_supply: (market.total_yes_supply - amount) as u64,
        total_no_supply: (market.total_no_supply - amount) as u64,
        ..market
    }
}

/// The position after `amount` pairs were merged out of it.
pub open spec fn position_after_merge(position: UserPosition, amount: u64) -> UserPosition {
    UserPosition {
        yes_balance: (position.yes_balance - amount) as u64,
        no_balance: (position.no_balance - amount) as u64,
        ..position
    }
}

/// Merges equal YES and NO positions back into collateral. The caller
/// moves `amount` from the vault to the user. On failure market and
/// position are left as they were.
pub fn handler(
    accounts: &MergePositionSingle,
    clock: &Clock,
    market: &mut Market,
    position: &mut UserPosition,
    vault_balance: u64,
    params: &MergePositionSingleParams,
) -> (r: Result<PositionMerged, TerminatorError>)
    ensures
        status_step(old(market).status, final(market).status),
        old(market).wf() ==> final(market).wf(),
        match merge_rejection(*accounts, *old(market), *old(position), vault_balance, params.amount) {
            Some(e) => r == Err::<PositionMerged, TerminatorError>(e) && *final(market) == *old(market) && *final(position) == *old(position),
            None => r == Ok::<PositionMerged, TerminatorError>(
                PositionMerged {
                    market: accounts.market,
                    user: accounts.user,
                    amount: params.amount,
                    yes_amount: params.amount,
                    no_amount: params.amount,
                    timestamp: clock.unix_timestamp,
                },
            ) && *final(market) == market_after_merge(*old(market), params.amount) && *final(position) == position_after_merge(*old(position), params.amount),
        },
        r is Ok && old(market).spec_is_active() ==> final(market).supply_balanced(),
        old(market).redemption_bounded() ==> final(market).redemption_bounded(),
        r is Ok ==> vault_balance - params.amount >= final(market).total_position_collateral,
        final(market).status == old(market).status,
        final(market).total_redeemable_usdc == old(market).total_redeemable_usdc,
{
    let amount = params.amount;
    if !(market.global == accounts.global) {
        return Err(TerminatorError::InvalidAccountInput);
    }
    if market.is_settled() {
        return Err(TerminatorError::MarketNotActive);
    }
    if !(position.user == accounts.user) {
        return Err(TerminatorError::Unauthorized);
    }
    if amount == 0 {
        return Err(TerminatorError::InvalidAmount);
    }
    if position.yes_balance < amount || position.no_balance < amount {
        return Err(TerminatorError::InsufficientBalance);
    }
    if vault_balance < amount {
        return Err(TerminatorError::InsufficientVaultBalance);
    }
    let track_redemption = market.can_redeem();
    if track_redemption {
        if market.total_redeemable_usdc < market.total_redeemed_usdc {
            return Err(TerminatorError::ArithmeticOverflow);
        }
        if amount > market.total_redeemable_usdc - market.total_redeemed_usdc {
            return Err(TerminatorError::InsufficientVaultBalance);
        }
    }
    if market.total_position_collateral < amount || market.total_yes_supply < amount
        || market.total_no_supply < amount {
        return Err(TerminatorError::ArithmeticOverflow);
    }
    if market.is_active() && (market.total_yes_supply != market.total_no_supply
        || market.total_position_collateral != market.total_yes_supply) {
        return Err(TerminatorError::InvalidInput);
    }
    if vault_balance < market.total_position_collateral {
        return Err(TerminatorError::InsufficientVaultBalance);
    }
    position.yes_balance = position.yes_balance - amount;
    position.no_balance = position.no_balance - amount;
    if track_redemption {
        market.total_redeemed_usdc = market.total_redeemed_usdc + amount;
    }
    market.total_position_collateral = market.total_position_collateral - amount;
    market.total_yes_supply = market.total_yes_supply - amount;
    market.total_no_supply = market.total_no_supply - amount;
    Ok(
        PositionMerged {
            market: accounts.market,
            user: accounts.user,
            amount,
            yes_amount: amount,
            no_amount: amount,
            timestamp: clock.unix_timestamp,
        },
    )
}

} // verus!
