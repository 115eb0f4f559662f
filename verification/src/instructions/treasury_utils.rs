//! Checks shared by the treasury operations.

use vstd::prelude::*;
use crate::errors::TerminatorError;
use crate::pubkey::Pubkey;

verus! {

/// What the engine reads of a token account: which asset it holds, who
/// may move it, and how much there is.
#[derive(Clone, Copy, Debug)]
pub struct TokenAccountInfo {
    pub mint: Pubkey,
    pub owner: Pubkey,
    pub amount: u64,
}

/// Checks that a mint is the exchange's collateral mint.
pub fn verify_usdc_mint(usdc_mint: &Pubkey, global_usdc_mint: &Pubkey) -> (r: Result<
    (),
    TerminatorError,
>)
    ensures
        *usdc_mint == *global_usdc_mint ==> r == Ok::<(), TerminatorError>(()),
        *usdc_mint != *global_usdc_mint ==> r == Err::<(), TerminatorError>(
            TerminatorError::InvalidUsdcMint,
        ),
{
    if *usdc_mint == *global_usdc_mint {
        Ok(())
    } else {
        Err(TerminatorError::InvalidUsdcMint)
    }
}

/// Checks that a treasury holds the expected asset under the expected owner.
pub fn validate_treasury_token_account(
    treasury: &TokenAccountInfo,
    expected_mint: &Pubkey,
    expected_owner: &Pubkey,
) -> (r: Result<(), TerminatorError>)
    ensures
        treasury.mint != *expected_mint ==> r == Err::<(), TerminatorError>(
            TerminatorError::InvalidUsdcMint,
        ),
        treasury.mint == *expected_mint && treasury.owner != *expected_owner ==> r == Err::<
            (),
            TerminatorError,
        >(TerminatorError::Unauthorized),
        treasury.mint == *expected_mint && treasury.owner == *expected_owner ==> r == Ok::<
            (),
            TerminatorError,
        >(()),
{
    if !(treasury.mint == *expected_mint) {
        return Err(TerminatorError::InvalidUsdcMint);
    }
    if !(treasury.owner == *expected_owner) {
        return Err(TerminatorError::Unauthorized);
    }
    Ok(())
}

/// The first reason, if any, to refuse a payout of `amount` from a
/// treasury to a recipient account: the caller is not the authority;
/// nothing is paid; the treasury holds too little; the recipient holds
/// another asset.
pub open spec fn payout_rejection(
    caller: Pubkey,
    authority: Pubkey,
    usdc_mint: Pubkey,
    treasury_balance: u64,
    recipient: TokenAccountInfo,
    amount: u64,
) -> Option<TerminatorError> {
    if caller != authority {
        Some(TerminatorError::Unauthorized)
    } else if amount == 0 {
        Some(TerminatorError::InvalidAmount)
    } else if treasury_balance < amount {
        Some(TerminatorError::InsufficientVaultBalance)
    } else if recipient.mint != usdc_mint {
        Some(TerminatorError::InvalidTokenMint)
    } else {
        None
    }
}

/// Checks a payout from a treasury.
pub fn check_payout(
    caller: &Pubkey,
    authority: &Pubkey,
    usdc_mint: &Pubkey,
    treasury_balance: u64,
    recipient: &TokenAccountInfo,
    amount: u64,
) -> (r: Result<(), TerminatorError>)
    ensures
        r == match payout_rejection(
            *caller,
            *authority,
            *usdc_mint,
            treasury_balance,
            *recipient,
            amount,
        ) {
            Some(e) => Err::<(), TerminatorError>(e),
            None => Ok::<(), TerminatorError>(()),
        },
{
    if !(*caller == *authority) {
        return Err(TerminatorError::Unauthorized);
    }
    if amount == 0 {
        return Err(TerminatorError::InvalidAmount);
    }
    if treasury_balance < amount {
        return Err(TerminatorError::InsufficientVaultBalance);
    }
    if !(recipient.mint == *usdc_mint) {
        return Err(TerminatorError::InvalidTokenMint);
    }
    Ok(())
}

} // verus!
