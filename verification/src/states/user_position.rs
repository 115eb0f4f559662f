//! Outcome-share balances.

use vstd::prelude::*;
use crate::pubkey::Pubkey;

verus! {

/// The outcome shares a user holds in one market.
#[derive(Clone, Copy, Debug)]
pub struct UserPosition {
    pub user: Pubkey,
    pub market: Pubkey,
    pub yes_balance: u64,
    pub no_balance: u64,
    pub bump: u8,
}

impl UserPosition {
    /// The record after its owner first uses it: an unowned record is
    /// taken over with nothing in it; an owned record stays as it is.
    pub open spec fn adopted(self, user: Pubkey, market: Pubkey, bump: u8) -> UserPosition {
        if self.user == Pubkey::zero() {
            UserPosition { user, market, yes_balance: 0, no_balance: 0, bump }
        } else {
            self
        }
    }

    /// Takes over an unowned record.
    pub fn adopt(&mut self, user: Pubkey, market: Pubkey, bump: u8)
        ensures
            *final(self) == old(self).adopted(user, market, bump),
    {
        if self.user.is_default() {
            self.user = user;
            self.market = market;
            self.yes_balance = 0;
            self.no_balance = 0;
            self.bump = bump;
        }
    }
}

} // verus!
