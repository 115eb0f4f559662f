//! Per-user nonces for batch cancellation.

use vstd::prelude::*;
use crate::errors::TerminatorError;
use crate::pubkey::Pubkey;

verus! {

/// A user's nonce counter. Every order signed with a nonce below the
/// counter is void.
#[derive(Clone, Copy, Debug)]
pub struct UserNonce {
    pub user: Pubkey,
    /// Orders with a nonce below this value are cancelled.
    pub current_nonce: u64,
    pub bump: u8,
}

impl UserNonce {
    /// Whether an order signed with `nonce` is still alive.
    pub open spec fn spec_is_valid_nonce(&self, nonce: u64) -> bool {
        nonce >= self.current_nonce
    }

    #[verifier::when_used_as_spec(spec_is_valid_nonce)]
    pub fn is_valid_nonce(&self, nonce: u64) -> (r: bool)
        ensures
            r == (nonce >= self.current_nonce),
    {
        nonce >= self.current_nonce
    }

    /// Advances the counter by one, voiding every order signed below the
    /// new value, and returns the new value.
    pub fn increment(&mut self) -> (r: Result<u64, TerminatorError>)
        ensures
            old(self).current_nonce < u64::MAX ==> r == Ok::<u64, TerminatorError>(
                (old(self).current_nonce + 1) as u64,
            ) && *final(self) == (UserNonce {
                current_nonce: (old(self).current_nonce + 1) as u64,
                ..*old(self)
            }),
            old(self).current_nonce == u64::MAX ==> r == Err::<u64, TerminatorError>(
                TerminatorError::ArithmeticOverflow,
            ) && *final(self) == *old(self),
    {
        match self.current_nonce.checked_add(1) {
            Some(next) => {
                self.current_nonce = next;
                Ok(next)
            },
            None => Err(TerminatorError::ArithmeticOverflow),
        }
    }

    /// Moves the counter forward to `new_nonce`; it never moves back.
    pub fn set_nonce(&mut self, new_nonce: u64) -> (r: Result<(), TerminatorError>)
        ensures
            new_nonce >= old(self).current_nonce ==> r == Ok::<(), TerminatorError>(())
                && *final(self) == (UserNonce { current_nonce: new_nonce, ..*old(self) }),
            new_nonce < old(self).current_nonce ==> r == Err::<(), TerminatorError>(
                TerminatorError::InvalidInput,
            ) && *final(self) == *old(self),
    {
        if new_nonce >= self.current_nonce {
            self.current_nonce = new_nonce;
            Ok(())
        } else {
            Err(TerminatorError::InvalidInput)
        }
    }
}

} // verus!
