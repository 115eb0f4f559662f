//! Collateral balances.

use vstd::prelude::*;
use crate::pubkey::Pubkey;

verus! {

/// The collateral a user holds inside one market.
#[derive(Clone, Copy, Debug)]
pub struct UserBalance {
    pub user: Pubkey,
    pub market: Pubkey,
    pub usdc_balance: u64,
    pub bump: u8,
}

impl UserBalance {
    /// The record after its owner first uses it: an unowned record is
    /// taken over with nothing in it; an owned record stays as it is.
    pub open spec fn adopted(self, user: Pubkey, market: Pubkey, bump: u8) -> UserBalance {
        if self.user == Pubkey::zero() {
            UserBalance { user, market, usdc_balance: 0, bump }
        } else {
            self
        }
    }

    /// Takes over an unowned record.
    pub fn adopt(&mut self, user: Pubkey, market: Pubkey, bump: u8)
        ensures
            *final(self) == old(self).adopted(user, market, bump),
    {
        if self.user.is_default() {
            self.user = user;
            self.market = market;
            self.usdc_balance = 0;
            self.bump = bump;
        }
    }
}

} // verus!
