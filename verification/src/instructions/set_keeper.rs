//! Naming the keeper.

use vstd::prelude::*;
use crate::errors::TerminatorError;
use crate::pubkey::Pubkey;
use crate::states::global::Global;

verus! {

/// The keeper to install; the zero key for none.
#[derive(Clone, Copy, Debug)]
pub struct SetKeeperParams {
    pub new_keeper: Pubkey,
}

/// The identities of the accounts the call runs on.
#[derive(Clone, Copy, Debug)]
pub struct SetKeeper {
    /// Who asks; must be the authority.
    pub authority: Pubkey,
}

/// Installs a keeper. Only the authority may.
pub fn handler(accounts: &SetKeeper, global: &mut Global, params: &SetKeeperParams) -> (r: Result<
    (),
    TerminatorError,
>)
    ensures
        accounts.authority != old(global).authority ==> r == Err::<(), TerminatorError>(
            TerminatorError::Unauthorized,
        ) && *final(global) == *old(global),
        accounts.authority == old(global).authority ==> r == Ok::<(), TerminatorError>(())
            && *final(global) == (Global { keeper: params.new_keeper, ..*old(global) }),
{
    if !(accounts.authority == global.authority) {
        return Err(TerminatorError::Unauthorized);
    }
    global.keeper = params.new_keeper;
    Ok(())
}

} // verus!
