//! Terminating a market that nobody trades any more.

use vstd::prelude::*;
use crate::clock::Clock;
use crate::constants::TERMINATION_EXECUTION_REWARD_USDC;
use crate::errors::TerminatorError;
use crate::events::MarketTerminated;
use crate::pubkey::Pubkey;
use crate::states::global::Global;
use crate::states::market::{status_step, Market, MarketStatus};
use crate::utils::final_prices;

verus! {

/// The identities of the accounts a termination runs on.
#[derive(Clone, Copy, Debug)]
pub struct TerminateIfInactive {
    /// Who asks for the termination: the authority or the keeper.
    pub caller: Pubkey,
    /// The key of the market record.
    pub market: Pubkey,
}

/// What a termination asks the caller to do.
#[derive(Clone, Copy, Debug)]
pub struct InactivityTermination {
    /// Amount to pay the caller out of the platform treasury.
    pub execution_reward: u64,
    /// Amount to pay the creator out of the creator treasury.
    pub creator_payout: u64,
    pub terminated: MarketTerminated,
}

/// The reward for executing a termination: the fixed reward if the
/// platform treasury can cover it, else nothing.
pub open spec fn execution_reward(platform_treasury_balance: u64) -> u64 {
    if platform_treasury_balance >= TERMINATION_EXECUTION_REWARD_USDC {
        TERMINATION_EXECUTION_REWARD_USDC
    } else {
        0
    }
}

/// The first reason, if any, to refuse the call outright: the caller may
/// not run keeper tasks, or the market is resolved already.
pub open spec fn termination_refusal(
    accounts: TerminateIfInactive,
    global: Global,
    market: Market,
) -> Option<TerminatorError> {
    if !global.spec_is_keeper(accounts.caller) {
        Some(TerminatorError::Unauthorized)
    } else if !market.spec_is_active() {
        Some(TerminatorError::MarketNotActive)
    } else {
        None
    }
}

/// Terminates an active market whose inactivity timeout has run out.
/// Returns `None`, and changes nothing, while the timeout is still
/// running. On failure the market is left as it was.
pub fn handler(
    accounts: &TerminateIfInactive,
    clock: &Clock,
    global: &Global,
    market: &mut Market,
    vault_balance: u64,
    platform_treasury_balance: u64,
    creator_treasury_balance: u64,
) -> (r: Result<Option<InactivityTermination>, TerminatorError>)
    ensures
        status_step(old(market).status, final(market).status),
        old(market).wf() ==> final(market).wf(),
        termination_refusal(*accounts, *global, *old(market)) matches Some(e) ==> r == Err::<
            Option<InactivityTermination>,
            TerminatorError,
        >(e) && *final(market) == *old(market),
        termination_refusal(*accounts, *global, *old(market)) is None && !old(market).inactive_at(
            clock.unix_timestamp,
        ) ==> r == Ok::<Option<InactivityTermination>, TerminatorError>(None) && *final(market)
            == *old(market),
        termination_refusal(*accounts, *global, *old(market)) is None && old(market).inactive_at(
            clock.unix_timestamp,
        ) ==> match old(market).resolution_rejection(vault_balance) {
            Some(e) => r == Err::<Option<InactivityTermination>, TerminatorError>(e)
                && *final(market) == *old(market),
            None => r == Ok::<Option<InactivityTermination>, TerminatorError>(
                Some(
                    InactivityTermination {
                        execution_reward: execution_reward(platform_treasury_balance),
                        creator_payout: old(market).creator_payout(creator_treasury_balance),
                        terminated: MarketTerminated {
                            market: accounts.market,
                            reason: 1,
                            final_yes_price: final_prices(
                                old(market).last_trade_yes_price,
                                old(market).last_trade_no_price,
                            ).0,
                            final_no_price: final_prices(
                                old(market).last_trade_yes_price,
                                old(market).last_trade_no_price,
                            ).1,
                            termination_slot: clock.slot,
                            timestamp: clock.unix_timestamp,
                        },
                    },
                ),
            ) && *final(market) == old(market).terminated_for_inactivity(
                clock.slot,
            ).locked_for_redemption(vault_balance, creator_treasury_balance),
        },
        old(market).status != MarketStatus::Active ==> *final(market) == *old(market),
{
    if !global.is_keeper(&accounts.caller) {
        return Err(TerminatorError::Unauthorized);
    }
    if !market.is_active() {
        return Err(TerminatorError::MarketNotActive);
    }
    if !market_is_inactive(market, clock.unix_timestamp) {
        return Ok(None);
    }
    market.check_resolvable(vault_balance)?;
    let _ = market.terminate_if_inactive(clock.unix_timestamp, clock.slot);
    let creator_payout = market.lock_for_redemption(vault_balance, creator_treasury_balance);
    let yes_price = match market.final_yes_price {
        Some(price) => price,
        None => 500_000,
    };
    let no_price = match market.final_no_price {
        Some(price) => price,
        None => 500_000,
    };
    let reward = if platform_treasury_balance >= TERMINATION_EXECUTION_REWARD_USDC {
        TERMINATION_EXECUTION_REWARD_USDC
    } else {
        0
    };
    Ok(
        Some(
            InactivityTermination {
                execution_reward: reward,
                creator_payout,
                terminated: MarketTerminated {
                    market: accounts.market,
                    reason: 1,
                    final_yes_price: yes_price,
                    final_no_price: no_price,
                    termination_slot: clock.slot,
                    timestamp: clock.unix_timestamp,
                },
            },
        ),
    )
}

/// Whether the market's inactivity timeout has run out at `now_ts`.
pub fn market_is_inactive(market: &Market, now_ts: i64) -> (r: bool)
    ensures
        r == market.inactive_at(now_ts),
{
    let elapsed: i128 = (now_ts as i128) - (market.last_activity_ts as i128);
    elapsed >= crate::constants::INACTIVITY_TIMEOUT_SECONDS as i128
}

} // verus!
