//! Looking at a market's randomness account before a termination check.
//!
//! The call changes nothing. It tells a client whether the account the
//! market is bound to is the oracle's, belongs to the market's queue and
//! holds a value fresh enough for a check.

use vstd::prelude::*;
use crate::bytes::le_u64;
use crate::clock::Clock;
use crate::constants::MAX_RANDOMNESS_AGE_SLOTS;
use crate::errors::TerminatorError;
use crate::instructions::settle_with_randomness::RandomnessAccount;
use crate::pubkey::lemma_key_equality;
use crate::states::market::Market;
use crate::switchboard_lite::{
    switchboard_program_id,
    switchboard_program_key,
    RandomnessAccountData,
    MIN_RANDOMNESS_ACCOUNT_LEN,
};

verus! {

/// How old the oracle's value is.
#[derive(Clone, Copy, Debug, PartialEq, Eq, Structural)]
pub struct RandomnessAge {
    /// Slots since the value was produced; zero for a value from the future.
    pub slots_since_update: u64,
    /// Whether a termination check would accept the value.
    pub is_recent: bool,
}

/// The first reason, if any, why the account cannot serve the market: the
/// market is resolved; the account is not the one the market is bound to,
/// is not the oracle's, is too short, or belongs to another queue.
pub open spec fn randomness_rejection(market: Market, randomness: RandomnessAccount) -> Option<
    TerminatorError,
> {
    if !market.spec_is_active() {
        Some(TerminatorError::MarketNotActive)
    } else if randomness.key != market.randomness_account || randomness.owner@
        != switchboard_program_id() || randomness.data@.len() < MIN_RANDOMNESS_ACCOUNT_LEN
        || randomness.data@.subrange(8, 40) != market.switchboard_queue@ {
        Some(TerminatorError::InvalidSwitchboardOracle)
    } else {
        None
    }
}

/// The age of the value in an account's data at `current_slot`.
pub open spec fn randomness_age(data: Seq<u8>, current_slot: u64) -> RandomnessAge {
    let produced = le_u64(data.subrange(72, 80));
    let age = if current_slot >= produced {
        (current_slot - produced) as u64
    } else {
        0
    };
    RandomnessAge { slots_since_update: age, is_recent: age <= MAX_RANDOMNESS_AGE_SLOTS }
}

/// Checks a market's randomness account and reports the age of its value.
pub fn handler(clock: &Clock, market: &Market, randomness: &RandomnessAccount) -> (r: Result<
    RandomnessAge,
    TerminatorError,
>)
    ensures
        r == match randomness_rejection(*market, *randomness) {
            Some(e) => Err::<RandomnessAge, TerminatorError>(e),
            None => Ok::<RandomnessAge, TerminatorError>(
                randomness_age(randomness.data@, clock.slot),
            ),
        },
{
    if !market.is_active() {
        return Err(TerminatorError::MarketNotActive);
    }
    if !(randomness.key == market.randomness_account) {
        return Err(TerminatorError::InvalidSwitchboardOracle);
    }
    let oracle = switchboard_program_key();
    proof {
        lemma_key_equality(randomness.owner, oracle);
    }
    if !(randomness.owner == oracle) {
        return Err(TerminatorError::InvalidSwitchboardOracle);
    }
    let parsed = match RandomnessAccountData::parse(randomness.data.as_slice()) {
        Ok(parsed) => parsed,
        Err(_) => { return Err(TerminatorError::InvalidSwitchboardOracle); },
    };
    proof {
        lemma_key_equality(parsed.queue, market.switchboard_queue);
    }
    if !(parsed.queue == market.switchboard_queue) {
        return Err(TerminatorError::InvalidSwitchboardOracle);
    }
    let slots_since_update = if clock.slot >= parsed.slot {
        clock.slot - parsed.slot
    } else {
        0
    };
    Ok(
        RandomnessAge {
            slots_since_update,
            is_recent: slots_since_update <= MAX_RANDOMNESS_AGE_SLOTS,
        },
    )
}

} // verus!
