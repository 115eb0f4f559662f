//! Cancelling every outstanding order of a user at once.

use vstd::prelude::*;
use crate::clock::Clock;
use crate::errors::TerminatorError;
use crate::events::NonceIncremented;
use crate::pubkey::Pubkey;
use crate::states::user_nonce::UserNonce;

verus! {

/// The identities of the accounts a nonce increment runs on.
#[derive(Clone, Copy, Debug)]
pub struct IncrementNonce {
    /// Whose nonce advances.
    pub user: Pubkey,
    /// Address bump of the user's nonce record.
    pub user_nonce_bump: u8,
}

/// The nonce record after its owner first uses it: an unowned record is
/// taken over with the counter at zero.
pub open spec fn adopted_nonce(accounts: IncrementNonce, nonce: UserNonce) -> UserNonce {
    if nonce.user == Pubkey::zero() {
        UserNonce { user: accounts.user, current_nonce: 0, bump: accounts.user_nonce_bump }
    } else {
        nonce
    }
}

/// Advances the user's nonce by one, which voids every order the user
/// signed with a lower nonce. On failure the record is left as it was.
pub fn handler(accounts: &IncrementNonce, clock: &Clock, user_nonce: &mut UserNonce) -> (r: Result<
    NonceIncremented,
    TerminatorError,
>)
    ensures
        adopted_nonce(*accounts, *old(user_nonce)).user != accounts.user ==> r == Err::<
            NonceIncremented,
            TerminatorError,
        >(TerminatorError::Unauthorized),
        adopted_nonce(*accounts, *old(user_nonce)).user == accounts.user && adopted_nonce(
            *accounts,
            *old(user_nonce),
        ).current_nonce == u64::MAX ==> r == Err::<NonceIncremented, TerminatorError>(
            TerminatorError::ArithmeticOverflow,
        ),
        r is Err ==> *final(user_nonce) == *old(user_nonce),
        adopted_nonce(*accounts, *old(user_nonce)).user == accounts.user && adopted_nonce(
            *accounts,
            *old(user_nonce),
        ).current_nonce < u64::MAX ==> r == Ok::<NonceIncremented, TerminatorError>(
            NonceIncremented {
                user: accounts.user,
                new_nonce: (adopted_nonce(*accounts, *old(user_nonce)).current_nonce + 1) as u64,
                slot: clock.slot,
                timestamp: clock.unix_timestamp,
            },
        ) && *final(user_nonce) == (UserNonce {
            current_nonce: (adopted_nonce(*accounts, *old(user_nonce)).current_nonce + 1) as u64,
            ..adopted_nonce(*accounts, *old(user_nonce))
        }),
        final(user_nonce).current_nonce >= old(user_nonce).current_nonce || old(user_nonce).user
            == Pubkey::zero(),
{
    let mut adopted = *user_nonce;
    if adopted.user.is_default() {
        adopted.user = accounts.user;
        adopted.current_nonce = 0;
        adopted.bump = accounts.user_nonce_bump;
    }
    if !(adopted.user == accounts.user) {
        return Err(TerminatorError::Unauthorized);
    }
    let new_nonce = adopted.increment()?;
    *user_nonce = adopted;
    Ok(
        NonceIncremented {
            user: accounts.user,
            new_nonce,
            slot: clock.slot,
            timestamp: clock.unix_timestamp,
        },
    )
}

} // verus!
