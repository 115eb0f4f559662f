//! Withdrawing collateral from a trading balance.

use vstd::prelude::*;
use crate::errors::TerminatorError;
use crate::pubkey::Pubkey;
use crate::states::market::Market;
use crate::states::user_balance::UserBalance;

verus! {

/// What the user asks to withdraw.
#[derive(Clone, Copy, Debug)]
pub struct WithdrawUsdcParams {
    pub amount: u64,
}

/// The identities of the accounts a withdrawal runs on.
#[derive(Clone, Copy, Debug)]
pub struct WithdrawUsdc {
    /// The key of the exchange-wide record.
    pub global: Pubkey,
    /// Who withdraws.
    pub user: Pubkey,
}

/// The first reason, if any, to refuse a withdrawal: the market belongs to
/// another exchange; the balance is not the user's; nothing is withdrawn;
/// the balance is too small; the market is paused while still active.
pub open spec fn withdrawal_rejection(
    accounts: WithdrawUsdc,
    market: Market,
    balance: UserBalance,
    amount: u64,
) -> Option<TerminatorError> {
    if market.global != accounts.global {
        Some(TerminatorError::InvalidAccountInput)
    } else if balance.user != accounts.user {
        Some(TerminatorError::Unauthorized)
    } else if amount == 0 {
        Some(TerminatorError::InvalidAmount)
    } else if balance.usdc_balance < amount {
        Some(TerminatorError::InsufficientBalance)
    } else if !(market.spec_can_trade() || market.spec_can_redeem()) {
        Some(TerminatorError::MarketNotActive)
    } else {
        None
    }
}

/// Debits a withdrawal from the user's balance. The caller moves `amount`
/// from the vault to the user. On failure the balance is left as it was.
pub fn handler(
    accounts: &WithdrawUsdc,
    market: &Market,
    balance: &mut UserBalance,
    params: &WithdrawUsdcParams,
) -> (r: Result<(), TerminatorError>)
    ensures
        match withdrawal_rejection(*accounts, *market, *old(balance), params.amount) {
            Some(e) => r == Err::<(), TerminatorError>(e) && *final(balance) == *old(balance),
            None => r == Ok::<(), TerminatorError>(()) && *final(balance) == (UserBalance {
                usdc_balance: (old(balance).usdc_balance - params.amount) as u64,
                ..*old(balance)
            }),
        },
{
    if !(market.global == accounts.global) {
        return Err(TerminatorError::InvalidAccountInput);
    }
    if !(balance.user == accounts.user) {
        return Err(TerminatorError::Unauthorized);
    }
    if params.amount == 0 {
        return Err(TerminatorError::InvalidAmount);
    }
    if balance.usdc_balance < params.amount {
        return Err(TerminatorError::InsufficientBalance);
    }
    if !(market.can_trade() || market.can_redeem()) {
        return Err(TerminatorError::MarketNotActive);
    }
    balance.usdc_balance = balance.usdc_balance - params.amount;
    Ok(())
}

} // verus!
