//! Pausing and reopening trading on the whole exchange.

use vstd::prelude::*;
use crate::clock::Clock;
use crate::errors::TerminatorError;
use crate::events::{GlobalTradingPaused, GlobalTradingUnpaused};
use crate::pubkey::Pubkey;
use crate::states::global::Global;

verus! {

/// The identities of the accounts a pause runs on.
#[derive(Clone, Copy, Debug)]
pub struct PauseTrading {
    /// Who asks; must be the authority.
    pub admin: Pubkey,
}

/// The identities of the accounts an unpause runs on.
#[derive(Clone, Copy, Debug)]
pub struct UnpauseTrading {
    /// Who asks; must be the authority.
    pub admin: Pubkey,
}

/// Pauses trading. Only the authority may, and only while trading is open.
pub fn handler_pause_trading(accounts: &PauseTrading, clock: &Clock, global: &mut Global) -> (r:
    Result<GlobalTradingPaused, TerminatorError>)
    ensures
        accounts.admin != old(global).authority ==> r == Err::<
            GlobalTradingPaused,
            TerminatorError,
        >(TerminatorError::NotAdmin),
        accounts.admin == old(global).authority && old(global).trading_paused ==> r == Err::<
            GlobalTradingPaused,
            TerminatorError,
        >(TerminatorError::TradingPaused),
        r is Err ==> *final(global) == *old(global),
        accounts.admin == old(global).authority && !old(global).trading_paused ==> r == Ok::<
            GlobalTradingPaused,
            TerminatorError,
        >(GlobalTradingPaused { paused_by: accounts.admin, timestamp: clock.unix_timestamp })
            && *final(global) == (Global { trading_paused: true, ..*old(global) }),
{
    if !(accounts.admin == global.authority) {
        return Err(TerminatorError::NotAdmin);
    }
    if global.trading_paused {
        return Err(TerminatorError::TradingPaused);
    }
    global.pause_trading();
    Ok(GlobalTradingPaused { paused_by: accounts.admin, timestamp: clock.unix_timestamp })
}

/// Reopens trading. Only the authority may, and only while trading is paused.
pub fn handler_unpause_trading(accounts: &UnpauseTrading, clock: &Clock, global: &mut Global) -> (r:
    Result<GlobalTradingUnpaused, TerminatorError>)
    ensures
        accounts.admin != old(global).authority ==> r == Err::<
            GlobalTradingUnpaused,
            TerminatorError,
        >(TerminatorError::NotAdmin),
        accounts.admin == old(global).authority && !old(global).trading_paused ==> r == Err::<
            GlobalTradingUnpaused,
            TerminatorError,
        >(TerminatorError::MarketNotPaused),
        r is Err ==> *final(global) == *old(global),
        accounts.admin == old(global).authority && old(global).trading_paused ==> r == Ok::<
            GlobalTradingUnpaused,
            TerminatorError,
        >(GlobalTradingUnpaused { unpaused_by: accounts.admin, timestamp: clock.unix_timestamp })
            && *final(global) == (Global { trading_paused: false, ..*old(global) }),
{
    if !(accounts.admin == global.authority) {
        return Err(TerminatorError::NotAdmin);
    }
    if !global.trading_paused {
        return Err(TerminatorError::MarketNotPaused);
    }
    global.unpause_trading();
    Ok(GlobalTradingUnpaused { unpaused_by: accounts.admin, timestamp: clock.unix_timestamp })
}

} // verus!
