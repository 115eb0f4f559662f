//! Withdrawing fees from the platform treasury.

use vstd::prelude::*;
use crate::clock::Clock;
use crate::errors::TerminatorError;
use crate::events::PlatformFeesWithdrawn;
use crate::instructions::treasury_utils::{check_payout, payout_rejection, TokenAccountInfo};
use crate::pubkey::Pubkey;
use crate::states::global::Global;

verus! {

/// The amount to pay.
#[derive(Clone, Copy, Debug)]
pub struct WithdrawPlatformFeesParams {
    pub amount: u64,
}

/// The identities of the accounts the call runs on.
#[derive(Clone, Copy, Debug)]
pub struct WithdrawPlatformFees {
    /// Who asks; must be the authority.
    pub authority: Pubkey,
}

/// Withdraws platform fees. Only the authority may; the treasury must hold the amount and
/// the recipient account must hold the collateral asset. On success the
/// caller moves `amount` from the treasury to the recipient.
pub fn handler(
    accounts: &WithdrawPlatformFees,
    clock: &Clock,
    global: &Global,
    platform_treasury_balance: u64,
    recipient: &TokenAccountInfo,
    params: &WithdrawPlatformFeesParams,
) -> (r: Result<PlatformFeesWithdrawn, TerminatorError>)
    ensures
        r == match payout_rejection(
            accounts.authority,
            global.authority,
            global.usdc_mint,
            platform_treasury_balance,
            *recipient,
            params.amount,
        ) {
            Some(e) => Err::<PlatformFeesWithdrawn, TerminatorError>(e),
            None => Ok::<PlatformFeesWithdrawn, TerminatorError>(
                PlatformFeesWithdrawn {
                    recipient: recipient.owner,
                    withdrawn_by: accounts.authority,
                    amount: params.amount,
                    withdrawn_at: clock.unix_timestamp,
                },
            ),
        },
{
    check_payout(
        &accounts.authority,
        &global.authority,
        &global.usdc_mint,
        platform_treasury_balance,
        recipient,
        params.amount,
    )?;
    Ok(
        PlatformFeesWithdrawn {
            recipient: recipient.owner,
            withdrawn_by: accounts.authority,
            amount: params.amount,
            withdrawn_at: clock.unix_timestamp,
        },
    )
}

} // verus!
