//! Changing a market's termination probability.

use vstd::prelude::*;
use crate::clock::Clock;
use crate::errors::TerminatorError;
use crate::events::MarketParamsUpdated;
use crate::pubkey::Pubkey;
use crate::states::global::Global;
use crate::states::market::{status_step, Market};

verus! {

/// Highest termination probability: 100%, in parts per million.
pub const MAX_TERMINATION_PROBABILITY: u32 = 1_000_000;

/// The parameters to change; `None` leaves one as it is.
#[derive(Clone, Copy, Debug)]
pub struct UpdateMarketParamsInput {
    pub termination_probability: Option<u32>,
}

/// The identities of the accounts an update runs on.
#[derive(Clone, Copy, Debug)]
pub struct UpdateMarketParamsAccounts {
    /// Who asks; must be the authority.
    pub authority: Pubkey,
    /// The key of the market record.
    pub market: Pubkey,
}

/// The termination probability after the update.
pub open spec fn updated_probability(market: Market, params: UpdateMarketParamsInput) -> u32 {
    match params.termination_probability {
        Some(probability) => probability,
        None => market.termination_probability,
    }
}

/// Changes a market's parameters. Only the authority may; a probability
/// above 100% is refused. On failure the market is left as it was.
pub fn handler(
    accounts: &UpdateMarketParamsAccounts,
    clock: &Clock,
    global: &Global,
    market: &mut Market,
    params: &UpdateMarketParamsInput,
) -> (r: Result<MarketParamsUpdated, TerminatorError>)
    ensures
        status_step(old(market).status, final(market).status),
        old(market).wf() ==> final(market).wf(),
        accounts.authority != global.authority ==> r == Err::<
            MarketParamsUpdated,
            TerminatorError,
        >(TerminatorError::Unauthorized),
        accounts.authority == global.authority && updated_probability(*old(market), *params)
            > MAX_TERMINATION_PROBABILITY && params.termination_probability is Some ==> r
            == Err::<MarketParamsUpdated, TerminatorError>(TerminatorError::InvalidInput),
        r is Err ==> *final(market) == *old(market),
        accounts.authority == global.authority && (params.termination_probability is None
            || updated_probability(*old(market), *params) <= MAX_TERMINATION_PROBABILITY) ==> r
            == Ok::<MarketParamsUpdated, TerminatorError>(
            MarketParamsUpdated {
                market: accounts.market,
                updated_by: accounts.authority,
                termination_probability: updated_probability(*old(market), *params),
                updated_at: clock.unix_timestamp,
            },
        ) && *final(market) == (Market {
            termination_probability: updated_probability(*old(market), *params),
            ..*old(market)
        }),
{
    if !(accounts.authority == global.authority) {
        return Err(TerminatorError::Unauthorized);
    }
    match params.termination_probability {
        Some(probability) => {
            if probability > MAX_TERMINATION_PROBABILITY {
                return Err(TerminatorError::InvalidInput);
            }
            market.termination_probability = probability;
        },
        None => {},
    }
    Ok(
        MarketParamsUpdated {
            market: accounts.market,
            updated_by: accounts.authority,
            termination_probability: market.termination_probability,
            updated_at: clock.unix_timestamp,
        },
    )
}

} // verus!
