//! Pausing one market.

use vstd::prelude::*;
use crate::clock::Clock;
use crate::errors::TerminatorError;
use crate::events::MarketPaused;
use crate::pubkey::Pubkey;
use crate::states::global::Global;
use crate::states::market::{status_step, Market};

verus! {

/// The identities of the accounts a pause runs on.
#[derive(Clone, Copy, Debug)]
pub struct PauseMarket {
    /// Who asks; must be the authority.
    pub authority: Pubkey,
    /// The key of the market record.
    pub market: Pubkey,
}

/// Pauses a market. Only the authority may, and only a market that is not
/// paused already.
pub fn handler(accounts: &PauseMarket, clock: &Clock, global: &Global, market: &mut Market) -> (r:
    Result<MarketPaused, TerminatorError>)
    ensures
        status_step(old(market).status, final(market).status),
        old(market).wf() ==> final(market).wf(),
        accounts.authority != global.authority ==> r == Err::<MarketPaused, TerminatorError>(
            TerminatorError::Unauthorized,
        ),
        accounts.authority == global.authority && old(market).is_paused ==> r == Err::<
            MarketPaused,
            TerminatorError,
        >(TerminatorError::InvalidMarketType),
        r is Err ==> *final(market) == *old(market),
        accounts.authority == global.authority && !old(market).is_paused ==> r == Ok::<
            MarketPaused,
            TerminatorError,
        >(
            MarketPaused {
                market: accounts.market,
                paused_by: accounts.authority,
                paused_at: clock.unix_timestamp,
            },
        ) && *final(market) == (Market {
            is_paused: true,
            paused_at: Some(clock.unix_timestamp),
            ..*old(market)
        }),
{
    if !(accounts.authority == global.authority) {
        return Err(TerminatorError::Unauthorized);
    }
    if market.is_paused {
        return Err(TerminatorError::InvalidMarketType);
    }
    market.pause(clock.unix_timestamp);
    Ok(
        MarketPaused {
            market: accounts.market,
            paused_by: accounts.authority,
            paused_at: clock.unix_timestamp,
        },
    )
}

} // verus!
