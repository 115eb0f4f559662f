//! Resuming a paused market.

use vstd::prelude::*;
use crate::clock::Clock;
use crate::errors::TerminatorError;
use crate::events::MarketResumed;
use crate::pubkey::Pubkey;
use crate::states::global::Global;
use crate::states::market::{status_step, Market};

verus! {

/// The identities of the accounts a resume runs on.
#[derive(Clone, Copy, Debug)]
pub struct ResumeMarket {
    /// Who asks; must be the authority.
    pub authority: Pubkey,
    /// The key of the market record.
    pub market: Pubkey,
}

/// Resumes a paused market and restarts its inactivity clock. Only the
/// authority may.
pub fn handler(accounts: &ResumeMarket, clock: &Clock, global: &Global, market: &mut Market) -> (r:
    Result<MarketResumed, TerminatorError>)
    ensures
        status_step(old(market).status, final(market).status),
        old(market).wf() ==> final(market).wf(),
        accounts.authority != global.authority ==> r == Err::<MarketResumed, TerminatorError>(
            TerminatorError::Unauthorized,
        ),
        accounts.authority == global.authority && !old(market).is_paused ==> r == Err::<
            MarketResumed,
            TerminatorError,
        >(TerminatorError::MarketNotPaused),
        r is Err ==> *final(market) == *old(market),
        accounts.authority == global.authority && old(market).is_paused ==> r == Ok::<
            MarketResumed,
            TerminatorError,
        >(
            MarketResumed {
                market: accounts.market,
                resumed_by: accounts.authority,
                resumed_at: clock.unix_timestamp,
            },
        ) && *final(market) == (Market {
            is_paused: false,
            paused_at: None,
            last_activity_ts: clock.unix_timestamp,
            last_trade_slot: Some(clock.slot),
            ..*old(market)
        }),
{
    if !(accounts.authority == global.authority) {
        return Err(TerminatorError::Unauthorized);
    }
    if !market.is_paused {
        return Err(TerminatorError::MarketNotPaused);
    }
    market.resume(clock.unix_timestamp, clock.slot);
    Ok(
        MarketResumed {
            market: accounts.market,
            resumed_by: accounts.authority,
            resumed_at: clock.unix_timestamp,
        },
    )
}

} // verus!
