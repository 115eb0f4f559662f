//! What holds of a market across any sequence of calls.
//!
//! The handlers state what one call does. The proofs here chain calls:
//! whatever sequence of splits, merges and matches runs on a market, its
//! supply stays balanced; whatever sequence of redemptions runs on a
//! resolved market, the payouts together stay within the locked pool.

use vstd::prelude::*;
use crate::clock::Clock;
use crate::instructions::ed25519_verify::{Instruction, TransactionInstructions};
use crate::instructions::match_orders::{
    lemma_match_makers_unfold,
    maker_step,
    match_makers,
    match_result,
    MakerAccounts,
    MatchOrders,
    MatchOrdersParams,
    MatchProgress,
};
use crate::instructions::merge_position_single::{
    market_after_merge,
    merge_rejection,
    MergePositionSingle,
};
use crate::instructions::redeem_single_outcome::{
    market_after_redemption,
    redemption_payout,
    redemption_rejection,
    RedeemSingleOutcome,
    RedeemSingleOutcomeParams,
};
use crate::instructions::split_position_single::{
    market_after_split,
    split_rejection,
    SplitPositionSingle,
};
use crate::pubkey::Pubkey;
use crate::states::global::Global;
use crate::states::ledger::Supply;
use crate::states::market::Market;
use crate::states::order_status::OrderStatus;
use crate::states::order_types::{Order, SignedOrder};
use crate::states::user_balance::UserBalance;
use crate::states::user_nonce::UserNonce;
use crate::states::user_position::UserPosition;

verus! {

/// One call that can change a market's supply, with everything it is
/// called on besides the market itself.
#[allow(inconsistent_fields)]
pub enum SupplyCall {
    Split { accounts: SplitPositionSingle, position: UserPosition, vault_balance: u64, amount: u64 },
    Merge { accounts: MergePositionSingle, position: UserPosition, vault_balance: u64, amount: u64 },
    Match {
        accounts: MatchOrders,
        clock: Clock,
        instructions: TransactionInstructions,
        global: Global,
        taker_order_status: OrderStatus,
        taker_nonce: UserNonce,
        taker_balance: UserBalance,
        taker_position: UserPosition,
        makers: Seq<MakerAccounts>,
        params: MatchOrdersParams,
    },
}

/// The market after one call: what the call's handler leaves, which is
/// the market unchanged where the handler refuses.
pub open spec fn market_after_call(market: Market, call: SupplyCall) -> Market {
    match call {
        SupplyCall::Split { accounts, position, vault_balance, amount } => if split_rejection(
            accounts,
            market,
            position,
            vault_balance,
            amount,
        ) is None {
            market_after_split(market, amount)
        } else {
            market
        },
        SupplyCall::Merge { accounts, position, vault_balance, amount } => if merge_rejection(
            accounts,
            market,
            position,
            vault_balance,
            amount,
        ) is None {
            market_after_merge(market, amount)
        } else {
            market
        },
        SupplyCall::Match {
            accounts,
            clock,
            instructions,
            global,
            taker_order_status,
            taker_nonce,
            taker_balance,
            taker_position,
            makers,
            params,
        } => match match_result(
            accounts,
            clock,
            instructions,
            global,
            market,
            taker_order_status,
            taker_nonce,
            taker_balance,
            taker_position,
            makers,
            params,
        ) {
            Ok(after) => after.0,
            Err(_) => market,
        },
    }
}

/// The market after a sequence of calls, in order.
pub open spec fn market_after_calls(market: Market, calls: Seq<SupplyCall>) -> Market
    decreases calls.len(),
{
    if calls.len() == 0 {
        market
    } else {
        market_after_call(market_after_calls(market, calls.drop_last()), calls.last())
    }
}

/// Matching any number of makers leaves a balanced supply balanced.
pub proof fn lemma_match_makers_conserve(
    market_key: Pubkey,
    clock: Clock,
    instructions: Seq<Instruction>,
    current_index: u16,
    taker_order: Order,
    orders: Seq<SignedOrder>,
    fill_amounts: Seq<u64>,
    makers: Seq<MakerAccounts>,
    start: MatchProgress,
    upto: int,
)
    requires
        start.supply.balanced(),
    ensures
        match_makers(
            market_key,
            clock,
            instructions,
            current_index,
            taker_order,
            orders,
            fill_amounts,
            makers,
            start,
            upto,
        ) matches Ok(after) ==> after.1.supply.balanced(),
    decreases upto,
{
    lemma_match_makers_unfold(
        market_key,
        clock,
        instructions,
        current_index,
        taker_order,
        orders,
        fill_amounts,
        makers,
        start,
        upto,
    );
    if upto > 0 {
        lemma_match_makers_conserve(
            market_key,
            clock,
            instructions,
            current_index,
            taker_order,
            orders,
            fill_amounts,
            makers,
            start,
            upto - 1,
        );
        reveal(maker_step);
    }
}

/// One call leaves a balanced supply balanced.
pub proof fn lemma_call_conserves(market: Market, call: SupplyCall)
    requires
        market.supply_balanced(),
    ensures
        market_after_call(market, call).supply_balanced(),
{
    match call {
        SupplyCall::Match {
            accounts,
            clock,
            instructions,
            global,
            taker_order_status,
            taker_nonce,
            taker_balance,
            taker_position,
            makers,
            params,
        } => {
            lemma_match_makers_conserve(
                accounts.market,
                clock,
                instructions.instructions@,
                instructions.current_index,
                params.taker_order.order,
                params.maker_orders@,
                params.maker_fill_amounts@,
                makers,
                MatchProgress {
                    taker_balance,
                    taker_position,
                    supply: Supply::spec_of(market),
                    total_taker_taking: 0,
                },
                params.maker_orders@.len() as int,
            );
        },
        _ => {},
    }
}

/// Conservation: on a market whose supply is balanced, the supply is
/// balanced after every call of any sequence of splits, merges and
/// matches: as many YES as NO shares, each pair backed by one unit of
/// position collateral.
pub proof fn lemma_conservation(market: Market, calls: Seq<SupplyCall>)
    requires
        market.supply_balanced(),
    ensures
        forall|k: int|
            0 <= k <= calls.len() ==> (#[trigger] market_after_calls(
                market,
                calls.take(k),
            )).supply_balanced(),
    decreases calls.len(),
{
    assert forall|k: int| 0 <= k <= calls.len() implies (#[trigger] market_after_calls(
        market,
        calls.take(k),
    )).supply_balanced() by {
        lemma_calls_conserve(market, calls.take(k));
    }
}

/// A whole sequence of calls leaves a balanced supply balanced.
pub proof fn lemma_calls_conserve(market: Market, calls: Seq<SupplyCall>)
    requires
        market.supply_balanced(),
    ensures
        market_after_calls(market, calls).supply_balanced(),
    decreases calls.len(),
{
    if calls.len() > 0 {
        lemma_calls_conserve(market, calls.drop_last());
        lemma_call_conserves(market_after_calls(market, calls.drop_last()), calls.last());
    }
}

/// One redemption call, with everything it is called on besides the market.
pub struct RedemptionCall {
    pub accounts: RedeemSingleOutcome,
    pub position: UserPosition,
    pub vault_balance: u64,
    pub params: RedeemSingleOutcomeParams,
}

/// What one redemption call pays: nothing where the handler refuses.
pub open spec fn call_payout(market: Market, call: RedemptionCall) -> int {
    if redemption_rejection(call.accounts, market, call.position, call.vault_balance, call.params)
        is None {
        redemption_payout(market, call.params)
    } else {
        0
    }
}

/// The market after one redemption call.
pub open spec fn market_after_redemption_call(market: Market, call: RedemptionCall) -> Market {
    if redemption_rejection(call.accounts, market, call.position, call.vault_balance, call.params)
        is None {
        market_after_redemption(market, call.params, redemption_payout(market, call.params) as u64)
    } else {
        market
    }
}

/// The market after a sequence of redemption calls, in order.
pub open spec fn market_after_redemptions(market: Market, calls: Seq<RedemptionCall>) -> Market
    decreases calls.len(),
{
    if calls.len() == 0 {
        market
    } else {
        market_after_redemption_call(
            market_after_redemptions(market, calls.drop_last()),
            calls.last(),
        )
    }
}

/// What a sequence of redemption calls pays in total.
pub open spec fn total_payout(market: Market, calls: Seq<RedemptionCall>) -> int
    decreases calls.len(),
{
    if calls.len() == 0 {
        0
    } else {
        total_payout(market, calls.drop_last()) + call_payout(
            market_after_redemptions(market, calls.drop_last()),
            calls.last(),
        )
    }
}

/// Redemption bound: whatever redemption calls run on a market, in
/// whatever order, the locked pool stays as it is, the redeemed total grows
/// by exactly what was paid, and it never passes the pool. From the moment
/// the pool is locked, when nothing is redeemed yet, all payouts together
/// are at most the pool.
pub proof fn lemma_redemption_bound(market: Market, calls: Seq<RedemptionCall>)
    requires
        market.redemption_bounded(),
    ensures
        market_after_redemptions(market, calls).total_redeemable_usdc
            == market.total_redeemable_usdc,
        market_after_redemptions(market, calls).total_redeemed_usdc == market.total_redeemed_usdc
            + total_payout(market, calls),
        market.total_redeemed_usdc + total_payout(market, calls) <= market.total_redeemable_usdc,
        market.total_redeemed_usdc == 0 ==> total_payout(market, calls)
            <= market.total_redeemable_usdc,
    decreases calls.len(),
{
    if calls.len() > 0 {
        lemma_redemption_bound(market, calls.drop_last());
    }
}

} // verus!
