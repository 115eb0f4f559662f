//! Withdrawing fees from the reward treasury.

use vstd::prelude::*;
use crate::clock::Clock;
use crate::errors::TerminatorError;
use crate::events::RewardFeesWithdrawn;
use crate::instructions::treasury_utils::{check_payout, payout_rejection, TokenAccountInfo};
use crate::pubkey::Pubkey;
use crate::states::global::Global;

verus! {

/// The amount to pay.
#[derive(Clone, Copy, Debug)]
pub struct WithdrawRewardFeesParams {
    pub amount: u64,
}

/// The identities of the accounts the call runs on.
#[derive(Clone, Copy, Debug)]
pub struct WithdrawRewardFees {
    /// Who asks; must be the authority.
    pub authority: Pubkey,
}

/// Withdraws reward fees. Only the authority may; the treasury must hold the amount and
/// the recipient account must hold the collateral asset. On success the
/// caller moves `amount` from the treasury to the recipient.
pub fn handler(
    accounts: &WithdrawRewardFees,
    clock: &Clock,
    global: &Global,
    reward_treasury_balance: u64,
    recipient: &TokenAccountInfo,
    params: &WithdrawRewardFeesParams,
) -> (r: Result<RewardFeesWithdrawn, TerminatorError>)
    ensures
        r == match payout_rejection(
            accounts.authority,
            global.authority,
            global.usdc_mint,
            reward_treasury_balance,
            *recipient,
            params.amount,
        ) {
            Some(e) => Err::<RewardFeesWithdrawn, TerminatorError>(e),
            None => Ok::<RewardFeesWithdrawn, TerminatorError>(
                RewardFeesWithdrawn {
                    recipient: recipient.owner,
                    withdrawn_by: accounts.authority,
                    amount: params.amount,
                    withdrawn_at: clock.unix_timestamp,
                },
            ),
        },
{
    check_payout(
        &accounts.authority,
        &global.authority,
        &global.usdc_mint,
        reward_treasury_balance,
        recipient,
        params.amount,
    )?;
    Ok(
        RewardFeesWithdrawn {
            recipient: recipient.owner,
            withdrawn_by: accounts.authority,
            amount: params.amount,
            withdrawn_at: clock.unix_timestamp,
        },
    )
}

} // verus!
