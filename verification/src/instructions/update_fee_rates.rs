//! Changing the fee curve and the fee split.
//!
//! A configuration is accepted only if the curve's endpoints are within
//! the cap and in order, and the three shares add up to exactly 100%, so
//! that no trade ever meets a split that loses or creates funds.

use vstd::prelude::*;
use crate::clock::Clock;
use crate::errors::TerminatorError;
use crate::events::GlobalFeeRatesUpdated;
use crate::pubkey::Pubkey;
use crate::states::global::Global;

verus! {

/// Highest taker fee rate that can be configured: 10%.
pub const MAX_TAKER_FEE_RATE: u32 = 100_000;

/// The scale of the fee shares: 100%.
pub const RATE_SCALE: u32 = 1_000_000;

/// The fee configuration to install.
#[derive(Clone, Copy, Debug)]
pub struct UpdateFeeRatesParams {
    pub center_taker_fee_rate: u32,
    pub extreme_taker_fee_rate: u32,
    pub platform_fee_rate: u32,
    pub maker_rebate_rate: u32,
    pub creator_incentive_rate: u32,
}

/// The identities of the accounts an update runs on.
#[derive(Clone, Copy, Debug)]
pub struct UpdateFeeRates {
    /// Who asks; must be the authority.
    pub authority: Pubkey,
}

/// The first reason, if any, to refuse a fee configuration: the caller is
/// not the authority; an endpoint of the curve is above the cap; the
/// centre is below the extreme; the shares overflow or do not add up to
/// 100%.
pub open spec fn fee_update_rejection(
    accounts: UpdateFeeRates,
    global: Global,
    params: UpdateFeeRatesParams,
) -> Option<TerminatorError> {
    if accounts.authority != global.authority {
        Some(TerminatorError::Unauthorized)
    } else if params.center_taker_fee_rate > MAX_TAKER_FEE_RATE || params.extreme_taker_fee_rate
        > MAX_TAKER_FEE_RATE {
        Some(TerminatorError::InvalidFeeRate)
    } else if params.center_taker_fee_rate < params.extreme_taker_fee_rate {
        Some(TerminatorError::InvalidFeeConfiguration)
    } else if params.platform_fee_rate + params.maker_rebate_rate > u32::MAX
        || params.platform_fee_rate + params.maker_rebate_rate + params.creator_incentive_rate
        > u32::MAX {
        Some(TerminatorError::ArithmeticOverflow)
    } else if params.platform_fee_rate + params.maker_rebate_rate + params.creator_incentive_rate
        != RATE_SCALE {
        Some(TerminatorError::InvalidFeeConfiguration)
    } else {
        None
    }
}

/// Installs a fee configuration. On failure the record is left as it was.
pub fn handler(
    accounts: &UpdateFeeRates,
    clock: &Clock,
    global: &mut Global,
    params: &UpdateFeeRatesParams,
) -> (r: Result<GlobalFeeRatesUpdated, TerminatorError>)
    ensures
        match fee_update_rejection(*accounts, *old(global), *params) {
            Some(e) => r == Err::<GlobalFeeRatesUpdated, TerminatorError>(e) && *final(global)
                == *old(global),
            None => r == Ok::<GlobalFeeRatesUpdated, TerminatorError>(
                GlobalFeeRatesUpdated {
                    updated_by: accounts.authority,
                    center_taker_fee_rate: params.center_taker_fee_rate,
                    extreme_taker_fee_rate: params.extreme_taker_fee_rate,
                    platform_fee_rate: params.platform_fee_rate,
                    maker_rebate_rate: params.maker_rebate_rate,
                    creator_incentive_rate: params.creator_incentive_rate,
                    updated_at: clock.unix_timestamp,
                },
            ) && *final(global) == (Global {
                center_taker_fee_rate: params.center_taker_fee_rate,
                extreme_taker_fee_rate: params.extreme_taker_fee_rate,
                platform_fee_rate: params.platform_fee_rate,
                maker_rebate_rate: params.maker_rebate_rate,
                creator_incentive_rate: params.creator_incentive_rate,
                ..*old(global)
            }) && final(global).distribution_is_complete(),
        },
{
    if !(accounts.authority == global.authority) {
        return Err(TerminatorError::Unauthorized);
    }
    if params.center_taker_fee_rate > MAX_TAKER_FEE_RATE || params.extreme_taker_fee_rate
        > MAX_TAKER_FEE_RATE {
        return Err(TerminatorError::InvalidFeeRate);
    }
    if params.center_taker_fee_rate < params.extreme_taker_fee_rate {
        return Err(TerminatorError::InvalidFeeConfiguration);
    }
    let total_distribution = match params.platform_fee_rate.checked_add(params.maker_rebate_rate) {
        Some(sum) => sum.checked_add(params.creator_incentive_rate),
        None => None,
    };
    match total_distribution {
        None => { return Err(TerminatorError::ArithmeticOverflow); },
        Some(total) => {
            if total != RATE_SCALE {
                return Err(TerminatorError::InvalidFeeConfiguration);
            }
        },
    }
    global.center_taker_fee_rate = params.center_taker_fee_rate;
    global.extreme_taker_fee_rate = params.extreme_taker_fee_rate;
    global.platform_fee_rate = params.platform_fee_rate;
    global.maker_rebate_rate = params.maker_rebate_rate;
    global.creator_incentive_rate = params.creator_incentive_rate;
    Ok(
        GlobalFeeRatesUpdated {
            updated_by: accounts.authority,
            center_taker_fee_rate: params.center_taker_fee_rate,
            extreme_taker_fee_rate: params.extreme_taker_fee_rate,
            platform_fee_rate: params.platform_fee_rate,
            maker_rebate_rate: params.maker_rebate_rate,
            creator_incentive_rate: params.creator_incentive_rate,
            updated_at: clock.unix_timestamp,
        },
    )
}

} // verus!
