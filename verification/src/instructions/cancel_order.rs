//! Cancelling an order on the books.

use vstd::prelude::*;
use crate::clock::Clock;
use crate::errors::TerminatorError;
use crate::events::OrderCancelled;
use crate::pubkey::Pubkey;
use crate::states::order_status::OrderStatus;
use crate::states::order_types::{hash_order, order_hash, Order};

verus! {

/// The order to cancel.
#[derive(Clone, Copy, Debug)]
pub struct CancelOrderParams {
    pub order: Order,
}

/// The identities of the accounts a cancellation runs on.
#[derive(Clone, Copy, Debug)]
pub struct CancelOrder {
    /// Who cancels; must be the order's maker.
    pub maker: Pubkey,
    /// Address bump of the order's fill record.
    pub order_status_bump: u8,
}

/// The first reason, if any, to refuse the cancellation of an order that
/// hashes to `hash`: the caller is not its maker; the fill record is
/// another order's; the order is filled or cancelled already.
pub open spec fn cancellation_rejection(
    accounts: CancelOrder,
    order_status: OrderStatus,
    order: Order,
    hash: [u8; 32],
) -> Option<TerminatorError> {
    if order.maker != accounts.maker {
        Some(TerminatorError::NotOrderMaker)
    } else if !order_status.spec_is_unset() && order_status.order_hash@ != hash@ {
        Some(TerminatorError::OrderHashMismatch)
    } else if order_status.after_touch(
        hash,
        order.maker_amount,
        accounts.order_status_bump,
    ).is_filled_or_cancelled {
        Some(TerminatorError::OrderAlreadyCancelledOrFilled)
    } else {
        None
    }
}

/// Cancels an order whose hash the caller has computed.
pub fn cancel_hashed(
    accounts: &CancelOrder,
    clock: &Clock,
    order_status: &mut OrderStatus,
    params: &CancelOrderParams,
    hash: [u8; 32],
) -> (r: Result<OrderCancelled, TerminatorError>)
    ensures
        match cancellation_rejection(*accounts, *old(order_status), params.order, hash) {
            Some(e) => r == Err::<OrderCancelled, TerminatorError>(e) && *final(order_status)
                == *old(order_status),
            None => r == Ok::<OrderCancelled, TerminatorError>(
                OrderCancelled {
                    order_hash: hash,
                    maker: params.order.maker,
                    market: params.order.market,
                    slot: clock.slot,
                    timestamp: clock.unix_timestamp,
                },
            ) && *final(order_status) == (OrderStatus {
                is_filled_or_cancelled: true,
                ..old(order_status).after_touch(
                    hash,
                    params.order.maker_amount,
                    accounts.order_status_bump,
                )
            }),
        },
        final(order_status).remaining <= old(order_status).remaining || old(order_status).spec_is_unset(),
{
    let order = &params.order;
    if !(order.maker == accounts.maker) {
        return Err(TerminatorError::NotOrderMaker);
    }
    let mut status = *order_status;
    status.touch(hash, order.maker_amount, accounts.order_status_bump)?;
    status.cancel()?;
    *order_status = status;
    Ok(
        OrderCancelled {
            order_hash: hash,
            maker: order.maker,
            market: order.market,
            slot: clock.slot,
            timestamp: clock.unix_timestamp,
        },
    )
}

/// Cancels an order. The record of an order never seen before is created
/// cancelled. Cancelling an order that is filled or cancelled fails, and
/// a failure leaves the record as it was.
pub fn handler(
    accounts: &CancelOrder,
    clock: &Clock,
    order_status: &mut OrderStatus,
    params: &CancelOrderParams,
) -> (r: Result<OrderCancelled, TerminatorError>)
    ensures
        match cancellation_rejection(
            *accounts,
            *old(order_status),
            params.order,
            order_hash(params.order),
        ) {
            Some(e) => r == Err::<OrderCancelled, TerminatorError>(e) && *final(order_status)
                == *old(order_status),
            None => r == Ok::<OrderCancelled, TerminatorError>(
                OrderCancelled {
                    order_hash: order_hash(params.order),
                    maker: params.order.maker,
                    market: params.order.market,
                    slot: clock.slot,
                    timestamp: clock.unix_timestamp,
                },
            ) && *final(order_status) == (OrderStatus {
                is_filled_or_cancelled: true,
                ..old(order_status).after_touch(
                    order_hash(params.order),
                    params.order.maker_amount,
                    accounts.order_status_bump,
                )
            }),
        },
{
    let hash = hash_order(&params.order);
    cancel_hashed(accounts, clock, order_status, params, hash)
}

} // verus!
