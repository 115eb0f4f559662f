//! Depositing collateral into a trading balance.

use vstd::prelude::*;
use crate::errors::TerminatorError;
use crate::pubkey::Pubkey;
use crate::states::market::Market;
use crate::states::user_balance::UserBalance;
use crate::states::user_position::UserPosition;

verus! {

/// What the user asks to deposit.
#[derive(Clone, Copy, Debug)]
pub struct DepositUsdcParams {
    pub amount: u64,
}

/// The identities of the accounts a deposit runs on.
#[derive(Clone, Copy, Debug)]
pub struct DepositUsdc {
    /// The key of the exchange-wide record.
    pub global: Pubkey,
    /// The key of the market record.
    pub market: Pubkey,
    /// Who deposits.
    pub user: Pubkey,
    /// Address bump of the user's balance record.
    pub user_balance_bump: u8,
    /// Address bump of the user's position record.
    pub user_position_bump: u8,
}

/// The first reason, if any, to refuse a deposit: the market belongs to
/// another exchange or cannot trade; nothing is deposited; the balance
/// would overflow.
pub open spec fn deposit_rejection(
    accounts: DepositUsdc,
    market: Market,
    balance: UserBalance,
    amount: u64,
) -> Option<TerminatorError> {
    if market.global != accounts.global {
        Some(TerminatorError::InvalidAccountInput)
    } else if !market.spec_can_trade() {
        Some(TerminatorError::MarketNotActive)
    } else if amount == 0 {
        Some(TerminatorError::InvalidAmount)
    } else if balance.adopted(
        accounts.user,
        accounts.market,
        accounts.user_balance_bump,
    ).usdc_balance + amount > u64::MAX {
        Some(TerminatorError::ArithmeticOverflow)
    } else {
        None
    }
}

/// The balance after a deposit of `amount`.
pub open spec fn balance_after_deposit(accounts: DepositUsdc, balance: UserBalance, amount: u64) -> UserBalance {
    let adopted = balance.adopted(accounts.user, accounts.market, accounts.user_balance_bump);
    UserBalance { usdc_balance: (adopted.usdc_balance + amount) as u64, ..adopted }
}

/// Credits a deposit to the user's balance, taking over the user's
/// records if they are new. The caller moves `amount` from the user into
/// the vault. On failure both records are left as they were.
pub fn handler(
    accounts: &DepositUsdc,
    market: &Market,
    balance: &mut UserBalance,
    position: &mut UserPosition,
    params: &DepositUsdcParams,
) -> (r: Result<(), TerminatorError>)
    ensures
        match deposit_rejection(*accounts, *market, *old(balance), params.amount) {
            Some(e) => r == Err::<(), TerminatorError>(e) && *final(balance) == *old(balance)
                && *final(position) == *old(position),
            None => r == Ok::<(), TerminatorError>(()) && *final(balance) == balance_after_deposit(
                *accounts,
                *old(balance),
                params.amount,
            ) && *final(position) == old(position).adopted(
                accounts.user,
                accounts.market,
                accounts.user_position_bump,
            ),
        },
{
    if !(market.global == accounts.global) {
        return Err(TerminatorError::InvalidAccountInput);
    }
    if !market.can_trade() {
        return Err(TerminatorError::MarketNotActive);
    }
    if params.amount == 0 {
        return Err(TerminatorError::InvalidAmount);
    }
    let mut adopted = *balance;
    adopted.adopt(accounts.user, accounts.market, accounts.user_balance_bump);
    let credited = match adopted.usdc_balance.checked_add(params.amount) {
        Some(sum) => sum,
        None => { return Err(TerminatorError::ArithmeticOverflow); },
    };
    adopted.usdc_balance = credited;
    *balance = adopted;
    position.adopt(accounts.user, accounts.market, accounts.user_position_bump);
    Ok(())
}

} // verus!
