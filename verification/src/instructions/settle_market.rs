//! Settling a market on its reference trade.
//!
//! Settlement resolves the market to the outcome opposite the one last
//! traded, locks the final prices derived from the last observed prices,
//! and opens redemption against the vault balance.

use vstd::prelude::*;
use crate::clock::Clock;
use crate::constants::{OUTCOME_NO, OUTCOME_YES};
use crate::errors::TerminatorError;
use crate::events::MarketSettled;
use crate::pubkey::Pubkey;
use crate::states::global::Global;
use crate::states::market::{status_step, Market, MarketStatus};
use crate::utils::{derive_final_prices, final_prices};

verus! {

/// The identities of the accounts a settlement runs on.
#[derive(Clone, Copy, Debug)]
pub struct SettleMarket {
    /// Who asks for the settlement.
    pub authority: Pubkey,
    /// The key of the market record.
    pub market: Pubkey,
}

/// What a settlement asks the caller to do.
#[derive(Clone, Copy, Debug)]
pub struct SettleMarketOutcome {
    /// Amount to pay the creator out of the creator treasury.
    pub creator_payout: u64,
    pub settled: MarketSettled,
}

/// The outcome that wins when the last trade was in `last_trade_outcome`:
/// the other one.
pub open spec fn winning_outcome(last_trade_outcome: u8) -> u8 {
    if last_trade_outcome == OUTCOME_NO {
        OUTCOME_YES
    } else {
        OUTCOME_NO
    }
}

/// The first reason, if any, to refuse a settlement: the caller is not the
/// authority; the market is resolved already; there is no reference trade;
/// the supply is out of balance or the vault does not match it.
pub open spec fn settlement_rejection(
    accounts: SettleMarket,
    global: Global,
    market: Market,
    vault_balance: u64,
) -> Option<TerminatorError> {
    if accounts.authority != global.authority {
        Some(TerminatorError::Unauthorized)
    } else if !market.spec_is_active() {
        Some(TerminatorError::MarketAlreadySettled)
    } else if market.reference_agent is None {
        Some(TerminatorError::MissingReferenceAgent)
    } else if market.last_trade_outcome is None {
        Some(TerminatorError::MissingLastTradeOutcome)
    } else {
        market.resolution_rejection(vault_balance)
    }
}

/// The market after settlement.
pub open spec fn settled_market(
    market: Market,
    vault_balance: u64,
    creator_treasury_balance: u64,
) -> Market {
    let prices = final_prices(market.last_trade_yes_price, market.last_trade_no_price);
    (Market {
        final_yes_price: Some(prices.0),
        final_no_price: Some(prices.1),
        status: MarketStatus::Settled,
        ..market
    }).locked_for_redemption(vault_balance, creator_treasury_balance)
}

/// Settles an active market. On failure the market is left as it was.
pub fn handler(
    accounts: &SettleMarket,
    clock: &Clock,
    global: &Global,
    market: &mut Market,
    vault_balance: u64,
    creator_treasury_balance: u64,
) -> (r: Result<SettleMarketOutcome, TerminatorError>)
    ensures
        status_step(old(market).status, final(market).status),
        old(market).wf() ==> final(market).wf(),
        match settlement_rejection(*accounts, *global, *old(market), vault_balance) {
            Some(e) => r == Err::<SettleMarketOutcome, TerminatorError>(e) && *final(market)
                == *old(market),
            None => r == Ok::<SettleMarketOutcome, TerminatorError>(
                SettleMarketOutcome {
                    creator_payout: old(market).creator_payout(creator_treasury_balance),
                    settled: MarketSettled {
                        market: accounts.market,
                        settlement_index: 0,
                        winning_outcome: winning_outcome(old(market).last_trade_outcome->Some_0),
                        reference_agent: old(market).reference_agent->Some_0,
                        vault_balance,
                        total_rewards: vault_balance,
                        timestamp: clock.unix_timestamp,
                    },
                },
            ) && *final(market) == settled_market(
                *old(market),
                vault_balance,
                creator_treasury_balance,
            ),
        },
        old(market).status != MarketStatus::Active ==> *final(market) == *old(market),
        r is Ok ==> final(market).redemption_bounded(),
{
    if !(accounts.authority == global.authority) {
        return Err(TerminatorError::Unauthorized);
    }
    if !market.is_active() {
        return Err(TerminatorError::MarketAlreadySettled);
    }
    let reference_agent = match market.reference_agent {
        Some(agent) => agent,
        None => { return Err(TerminatorError::MissingReferenceAgent); },
    };
    let last_trade_outcome = match market.last_trade_outcome {
        Some(outcome) => outcome,
        None => { return Err(TerminatorError::MissingLastTradeOutcome); },
    };
    market.check_resolvable(vault_balance)?;
    let winner = if last_trade_outcome == OUTCOME_NO {
        OUTCOME_YES
    } else {
        OUTCOME_NO
    };
    let (yes_price, no_price) = derive_final_prices(
        market.last_trade_yes_price,
        market.last_trade_no_price,
    );
    market.final_yes_price = Some(yes_price);
    market.final_no_price = Some(no_price);
    market.set_settled();
    let creator_payout = market.lock_for_redemption(vault_balance, creator_treasury_balance);
    Ok(
        SettleMarketOutcome {
            creator_payout,
            settled: MarketSettled {
                market: accounts.market,
                settlement_index: 0,
                winning_outcome: winner,
                reference_agent,
                vault_balance,
                total_rewards: vault_balance,
                timestamp: clock.unix_timestamp,
            },
        },
    )
}

} // verus!
