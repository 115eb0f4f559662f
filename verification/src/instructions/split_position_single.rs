//! Splitting collateral into a YES and a NO position, one for one.

use vstd::prelude::*;
use crate::clock::Clock;
use crate::errors::TerminatorError;
use crate::events::PositionSplit;
use crate::pubkey::Pubkey;
use crate::states::market::{status_step, Market};
use crate::states::user_position::UserPosition;

verus! {

/// What the user asks to split.
#[derive(Clone, Copy, Debug)]
pub struct SplitPositionSingleParams {
    /// Collateral to split; the user receives this many shares of each outcome.
    pub amount: u64,
}

/// The identities of the accounts a split runs on.
#[derive(Clone, Copy, Debug)]
pub struct SplitPositionSingle {
    /// The key of the exchange-wide record.
    pub global: Pubkey,
    /// The key of the market record.
    pub market: Pubkey,
    /// Who splits.
    pub user: Pubkey,
    /// Address bump of the user's position record.
    pub user_position_bump: u8,
}

/// The first reason, if any, to refuse a split of `amount` collateral that
/// the user pays into a vault holding `vault_balance`: the market cannot
/// trade or belongs to another exchange; nothing is split; a balance or a
/// supply figure would overflow; the supply would be out of balance; the
/// vault would not cover the position collateral.
pub open spec fn split_rejection(
    accounts: SplitPositionSingle,
    market: Market,
    position: UserPosition,
    vault_balance: u64,
    amount: u64,
) -> Option<TerminatorError> {
    let adopted = position.adopted(accounts.user, accounts.market, accounts.user_position_bump);
    if !market.spec_can_trade() {
        Some(TerminatorError::MarketNotActive)
    } else if market.global != accounts.global {
        Some(TerminatorError::InvalidAccountInput)
    } else if amount == 0 {
        Some(TerminatorError::InvalidAmount)
    } else if adopted.yes_balance + amount > u64::MAX || adopted.no_balance + amount > u64::MAX
        || market.total_position_collateral + amount > u64::MAX || market.total_yes_supply
        + amount > u64::MAX || market.total_no_supply + amount > u64::MAX {
        Some(TerminatorError::ArithmeticOverflow)
    } else if !market.supply_balanced() {
        Some(TerminatorError::InvalidInput)
    } else if vault_balance + amount > u64::MAX {
        Some(TerminatorError::ArithmeticOverflow)
    } else if vault_balance + amount < market.total_position_collateral + amount {
        Some(TerminatorError::InsufficientVaultBalance)
    } else {
        None
    }
}

/// The market after `amount` collateral was split.
pub open spec fn market_after_split(market: Market, amount: u64) -> Market {
    Market {
        total_position_collateral: (market.total_position_collateral + amount) as u64,
        total_yes_supply: (market.total_yes_supply + amount) as u64,
        total_no_supply: (market.total_no_supply + amount) as u64,
        ..market
    }
}

/// The position after `amount` collateral was split into it.
pub open spec fn position_after_split(
    accounts: SplitPositionSingle,
    position: UserPosition,
    amount: u64,
) -> UserPosition {
    let adopted = position.adopted(accounts.user, accounts.market, accounts.user_position_bump);
    UserPosition {
        yes_balance: (adopted.yes_balance + amount) as u64,
        no_balance: (adopted.no_balance + amount) as u64,
        ..adopted
    }
}

/// When a split is owed and what it does: on a market that can trade and
/// whose supply is balanced, with a vault that covers the collateral, a
/// split of a positive amount that overflows nothing succeeds; all three
/// supply figures and both share balances grow by the amount, the supply
/// stays balanced, and the vault with the amount paid in still covers the
/// collateral. The balances of a record first used here start at zero.
pub proof fn lemma_split_effect(
    accounts: SplitPositionSingle,
    market: Market,
    position: UserPosition,
    vault_balance: u64,
    amount: u64,
)
    requires
        market.spec_can_trade(),
        market.global == accounts.global,
        market.supply_balanced(),
        amount > 0,
        vault_balance >= market.total_position_collateral,
        vault_balance + amount <= u64::MAX,
        position.adopted(accounts.user, accounts.market, accounts.user_position_bump).yes_balance
            + amount <= u64::MAX,
        position.adopted(accounts.user, accounts.market, accounts.user_position_bump).no_balance
            + amount <= u64::MAX,
    ensures
        split_rejection(accounts, market, position, vault_balance, amount) is None,
        market_after_split(market, amount).supply_balanced(),
        market_after_split(market, amount).total_position_collateral
            == market.total_position_collateral + amount,
        market_after_split(market, amount).total_yes_supply == market.total_yes_supply + amount,
        market_after_split(market, amount).total_no_supply == market.total_no_supply + amount,
        position_after_split(accounts, position, amount).yes_balance == position.adopted(
            accounts.user,
            accounts.market,
            accounts.user_position_bump,
        ).yes_balance + amount,
        position_after_split(accounts, position, amount).no_balance == position.adopted(
            accounts.user,
            accounts.market,
            accounts.user_position_bump,
        ).no_balance + amount,
        vault_balance + amount >= market_after_split(market, amount).total_position_collateral,
{
}

/// Splits collateral into equal YES and NO positions. The caller moves
/// `amount` from the user into the vault. On failure market and position
/// are left as they were.
pub fn handler(
    accounts: &SplitPositionSingle,
    clock: &Clock,
    market: &mut Market,
    position: &mut UserPosition,
    vault_balance: u64,
    params: &SplitPositionSingleParams,
) -> (r: Result<PositionSplit, TerminatorError>)
    ensures
        status_step(old(market).status, final(market).status),
        old(market).wf() ==> final(market).wf(),
        match split_rejection(*accounts, *old(market), *old(position), vault_balance, params.amount) {
            Some(e) => r == Err::<PositionSplit, TerminatorError>(e) && *final(market) == *old(market) && *final(position) == *old(position),
            None => r == Ok::<PositionSplit, TerminatorError>(
                PositionSplit {
                    market: accounts.market,
                    user: accounts.user,
                    amount: params.amount,
                    yes_amount: params.amount,
                    no_amount: params.amount,
                    timestamp: clock.unix_timestamp,
                },
            ) && *final(market) == market_after_split(*old(market), params.amount) && *final(position) == position_after_split(*accounts, *old(position), params.amount),
        },
        r is Ok ==> final(market).supply_balanced(),
        r is Ok ==> vault_balance + params.amount >= final(market).total_position_collateral,
{
    let amount = params.amount;
    if !market.can_trade() {
        return Err(TerminatorError::MarketNotActive);
    }
    if !(market.global == accounts.global) {
        return Err(TerminatorError::InvalidAccountInput);
    }
    if amount == 0 {
        return Err(TerminatorError::InvalidAmount);
    }
    let mut adopted = *position;
    adopted.adopt(accounts.user, accounts.market, accounts.user_position_bump);
    let sums = (
        adopted.yes_balance.checked_add(amount),
        adopted.no_balance.checked_add(amount),
        market.total_position_collateral.checked_add(amount),
        market.total_yes_supply.checked_add(amount),
        market.total_no_supply.checked_add(amount),
    );
    let (yes_balance, no_balance, collateral, yes_supply, no_supply) = match sums {
        (Some(a), Some(b), Some(c), Some(d), Some(e)) => (a, b, c, d, e),
        _ => { return Err(TerminatorError::ArithmeticOverflow); },
    };
    if yes_supply != no_supply || collateral != yes_supply {
        return Err(TerminatorError::InvalidInput);
    }
    let vault_after = match vault_balance.checked_add(amount) {
        Some(balance) => balance,
        None => { return Err(TerminatorError::ArithmeticOverflow); },
    };
    if vault_after < collateral {
        return Err(TerminatorError::InsufficientVaultBalance);
    }
    adopted.yes_balance = yes_balance;
    adopted.no_balance = no_balance;
    *position = adopted;
    market.total_position_collateral = collateral;
    market.total_yes_supply = yes_supply;
    market.total_no_supply = no_supply;
    Ok(
        PositionSplit {
            market: accounts.market,
            user: accounts.user,
            amount,
            yes_amount: amount,
            no_amount: amount,
            timestamp: clock.unix_timestamp,
        },
    )
}

} // verus!
