//! Adding and removing operators.

use vstd::prelude::*;
use crate::clock::Clock;
use crate::errors::TerminatorError;
use crate::events::{OperatorAdded, OperatorRemoved};
use crate::pubkey::Pubkey;
use crate::states::global::{removed_first, Global, MAX_OPERATORS};

verus! {

/// The identities of the accounts an addition runs on.
#[derive(Clone, Copy, Debug)]
pub struct AddOperator {
    /// Who asks; must be the authority.
    pub admin: Pubkey,
}

/// The operator to add.
#[derive(Clone, Copy, Debug)]
pub struct AddOperatorParams {
    pub operator: Pubkey,
}

/// The identities of the accounts a removal runs on.
#[derive(Clone, Copy, Debug)]
pub struct RemoveOperator {
    /// Who asks; must be the authority.
    pub admin: Pubkey,
}

/// The operator to remove.
#[derive(Clone, Copy, Debug)]
pub struct RemoveOperatorParams {
    pub operator: Pubkey,
}

/// The first reason, if any, to refuse an addition: the caller is not the
/// authority; the list is full; the key may execute trades already.
pub open spec fn addition_rejection(accounts: AddOperator, global: Global, operator: Pubkey) -> Option<
    TerminatorError,
> {
    if accounts.admin != global.authority {
        Some(TerminatorError::NotAdmin)
    } else if global.operator_count >= MAX_OPERATORS {
        Some(TerminatorError::MaxOperatorsReached)
    } else if global.spec_is_operator(operator) {
        Some(TerminatorError::AlreadyOperator)
    } else {
        None
    }
}

/// Adds an operator. On failure the record is left as it was.
pub fn handler_add_operator(
    accounts: &AddOperator,
    clock: &Clock,
    global: &mut Global,
    params: &AddOperatorParams,
) -> (r: Result<OperatorAdded, TerminatorError>)
    requires
        old(global).wf(),
    ensures
        final(global).wf(),
        match addition_rejection(*accounts, *old(global), params.operator) {
            Some(e) => r == Err::<OperatorAdded, TerminatorError>(e) && *final(global) == *old(global),
            None => r == Ok::<OperatorAdded, TerminatorError>(
                OperatorAdded {
                    operator: params.operator,
                    added_by: accounts.admin,
                    timestamp: clock.unix_timestamp,
                },
            ) && final(global).operator_list() == old(global).operator_list().push(
                params.operator,
            ) && final(global).spec_is_operator(params.operator) && *final(global) == (Global {
                operators: final(global).operators,
                operator_count: (old(global).operator_count + 1) as u8,
                ..*old(global)
            }),
        },
{
    if !(accounts.admin == global.authority) {
        return Err(TerminatorError::NotAdmin);
    }
    global.add_operator(params.operator)?;
    assert(global.operator_list()[old(global).operator_count as int] == params.operator);
    Ok(
        OperatorAdded {
            operator: params.operator,
            added_by: accounts.admin,
            timestamp: clock.unix_timestamp,
        },
    )
}

/// Removes an operator. On failure the record is left as it was.
pub fn handler_remove_operator(
    accounts: &RemoveOperator,
    clock: &Clock,
    global: &mut Global,
    params: &RemoveOperatorParams,
) -> (r: Result<OperatorRemoved, TerminatorError>)
    requires
        old(global).wf(),
    ensures
        final(global).wf(),
        accounts.admin != old(global).authority ==> r == Err::<OperatorRemoved, TerminatorError>(
            TerminatorError::NotAdmin,
        ),
        accounts.admin == old(global).authority && !old(global).operator_list().contains(
            params.operator,
        ) ==> r == Err::<OperatorRemoved, TerminatorError>(TerminatorError::OperatorNotFound),
        r is Err ==> *final(global) == *old(global),
        accounts.admin == old(global).authority && old(global).operator_list().contains(
            params.operator,
        ) ==> r == Ok::<OperatorRemoved, TerminatorError>(
            OperatorRemoved {
                operator: params.operator,
                removed_by: accounts.admin,
                timestamp: clock.unix_timestamp,
            },
        ) && final(global).operators@ == removed_first(
            old(global).operator_list(),
            params.operator,
        ) + seq![Pubkey::zero()] + old(global).operators@.skip(old(global).operator_count as int)
            && *final(global) == (Global {
            operators: final(global).operators,
            operator_count: (old(global).operator_count - 1) as u8,
            ..*old(global)
        }),
{
    if !(accounts.admin == global.authority) {
        return Err(TerminatorError::NotAdmin);
    }
    global.remove_operator(params.operator)?;
    Ok(
        OperatorRemoved {
            operator: params.operator,
            removed_by: accounts.admin,
            timestamp: clock.unix_timestamp,
        },
    )
}

} // verus!
