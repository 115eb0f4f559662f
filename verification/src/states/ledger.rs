//! What a user holds in a market and what a market has issued, as plain
//! triples. The matching engine computes on these and writes the results
//! back to the stored records only when a whole call has succeeded.

use vstd::prelude::*;
use crate::states::market::Market;
use crate::states::user_balance::UserBalance;
use crate::states::user_position::UserPosition;

verus! {

/// A user's collateral and outcome shares in one market.
#[derive(Clone, Copy, Debug, PartialEq, Eq, Structural)]
pub struct Holdings {
    pub usdc: u64,
    pub yes: u64,
    pub no: u64,
}

/// A market's position collateral and the outstanding shares of each outcome.
#[derive(Clone, Copy, Debug, PartialEq, Eq, Structural)]
pub struct Supply {
    pub collateral: u64,
    pub yes: u64,
    pub no: u64,
}

impl Holdings {
    /// The holdings stored in a balance record and a position record.
    pub open spec fn spec_of(balance: UserBalance, position: UserPosition) -> Holdings {
        Holdings { usdc: balance.usdc_balance, yes: position.yes_balance, no: position.no_balance }
    }

    /// The YES shares if `yes`, else the NO shares.
    pub open spec fn spec_shares(self, yes: bool) -> u64 {
        if yes {
            self.yes
        } else {
            self.no
        }
    }

    /// These holdings with the YES shares (if `yes`, else the NO shares) set to `amount`.
    pub open spec fn spec_with_shares(self, yes: bool, amount: u64) -> Holdings {
        if yes {
            Holdings { yes: amount, ..self }
        } else {
            Holdings { no: amount, ..self }
        }
    }

    /// The balance record with its amount replaced by these holdings'.
    pub open spec fn spec_balance(self, balance: UserBalance) -> UserBalance {
        UserBalance { usdc_balance: self.usdc, ..balance }
    }

    /// The position record with its amounts replaced by these holdings'.
    pub open spec fn spec_position(self, position: UserPosition) -> UserPosition {
        UserPosition { yes_balance: self.yes, no_balance: self.no, ..position }
    }

    #[verifier::when_used_as_spec(spec_of)]
    pub fn of(balance: UserBalance, position: UserPosition) -> (h: Holdings)
        ensures
            h == Holdings::spec_of(balance, position),
    {
        Holdings { usdc: balance.usdc_balance, yes: position.yes_balance, no: position.no_balance }
    }

    #[verifier::when_used_as_spec(spec_shares)]
    pub fn shares(self, yes: bool) -> (amount: u64)
        ensures
            amount == self.spec_shares(yes),
    {
        if yes {
            self.yes
        } else {
            self.no
        }
    }

    #[verifier::when_used_as_spec(spec_with_shares)]
    pub fn with_shares(self, yes: bool, amount: u64) -> (h: Holdings)
        ensures
            h == self.spec_with_shares(yes, amount),
    {
        if yes {
            Holdings { yes: amount, ..self }
        } else {
            Holdings { no: amount, ..self }
        }
    }

    /// Writes these holdings into a balance record and a position record.
    pub fn store(self, balance: &mut UserBalance, position: &mut UserPosition)
        ensures
            *final(balance) == self.spec_balance(*old(balance)),
            *final(position) == self.spec_position(*old(position)),
    {
        balance.usdc_balance = self.usdc;
        position.yes_balance = self.yes;
        position.no_balance = self.no;
    }
}

impl Supply {
    /// The supply figures of a market.
    pub open spec fn spec_of(market: Market) -> Supply {
        Supply {
            collateral: market.total_position_collateral,
            yes: market.total_yes_supply,
            no: market.total_no_supply,
        }
    }

    /// As many YES as NO shares, each pair backed by one unit of collateral.
    pub open spec fn balanced(self) -> bool {
        self.yes == self.no && self.collateral == self.yes
    }

    /// The market with its supply figures replaced by these.
    pub open spec fn spec_market(self, market: Market) -> Market {
        Market {
            total_position_collateral: self.collateral,
            total_yes_supply: self.yes,
            total_no_supply: self.no,
            ..market
        }
    }

    pub fn of(market: &Market) -> (s: Supply)
        ensures
            s == Supply::spec_of(*market),
    {
        Supply {
            collateral: market.total_position_collateral,
            yes: market.total_yes_supply,
            no: market.total_no_supply,
        }
    }

    /// Writes these figures into a market.
    pub fn store(self, market: &mut Market)
        ensures
            *final(market) == self.spec_market(*old(market)),
    {
        market.total_position_collateral = self.collateral;
        market.total_yes_supply = self.yes;
        market.total_no_supply = self.no;
    }
}

} // verus!
