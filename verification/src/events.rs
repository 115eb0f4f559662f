//! The records the exchange hands out for off-chain indexing: flat
//! structures of identifiers, amounts and a timestamp.

use vstd::prelude::*;
use crate::pubkey::Pubkey;

verus! {

/// A market was created.
#[derive(Clone, Debug)]
pub struct MarketCreated {
    pub market: Pubkey,
    pub creator: Pubkey,
    pub question: String,
    pub description: String,
    pub yes_description: String,
    pub no_description: String,
    pub market_id: [u8; 32],
    pub timestamp: i64,
}

/// A market was resolved by settlement; redemption is open.
#[derive(Clone, Copy, Debug)]
pub struct MarketSettled {
    pub market: Pubkey,
    pub settlement_index: u32,
    pub winning_outcome: u8,
    pub reference_agent: Pubkey,
    pub vault_balance: u64,
    pub total_rewards: u64,
    pub timestamp: i64,
}

/// Collateral was split into a YES and a NO position.
#[derive(Clone, Copy, Debug)]
pub struct PositionSplit {
    pub market: Pubkey,
    pub user: Pubkey,
    pub amount: u64,
    pub yes_amount: u64,
    pub no_amount: u64,
    pub timestamp: i64,
}

/// A YES and a NO position were merged back into collateral.
#[derive(Clone, Copy, Debug)]
pub struct PositionMerged {
    pub market: Pubkey,
    pub user: Pubkey,
    pub amount: u64,
    pub yes_amount: u64,
    pub no_amount: u64,
    pub timestamp: i64,
}

/// A single-outcome position was redeemed at the final price.
#[derive(Clone, Copy, Debug)]
pub struct CtfTokensRedeemed {
    pub market: Pubkey,
    pub user: Pubkey,
    pub winning_outcome: u8,
    pub token_amount: u64,
    pub reward_amount: u64,
    pub timestamp: i64,
}

/// A market was terminated; `reason` is 0 for the random check and 1 for inactivity.
#[derive(Clone, Copy, Debug)]
pub struct MarketTerminated {
    pub market: Pubkey,
    pub reason: u8,
    pub final_yes_price: u64,
    pub final_no_price: u64,
    pub termination_slot: u64,
    pub timestamp: i64,
}

/// The outcome of one termination check, whether or not it terminated the market.
#[derive(Clone, Copy, Debug)]
pub struct TerminationCheckResult {
    pub market: Pubkey,
    pub user: Pubkey,
    pub trade_nonce: u64,
    pub random_value: u64,
    pub threshold: u64,
    pub was_terminated: bool,
    pub slot: u64,
    pub timestamp: i64,
}

/// A taker fee was charged on a settled trade.
#[derive(Clone, Copy, Debug)]
pub struct TradingFeeCollected {
    pub market: Pubkey,
    pub maker: Pubkey,
    pub taker: Pubkey,
    pub user: Pubkey,
    pub outcome_type: u8,
    pub side: u8,
    pub size: u64,
    pub fee_amount: u64,
    pub fee_rate: u32,
    pub price: u64,
    pub slot: u64,
    pub timestamp: i64,
}

/// A market's parameters were changed.
#[derive(Clone, Copy, Debug)]
pub struct MarketParamsUpdated {
    pub market: Pubkey,
    pub updated_by: Pubkey,
    pub termination_probability: u32,
    pub updated_at: i64,
}

/// A liquidity reward was paid from the reward treasury.
#[derive(Clone, Copy, Debug)]
pub struct LiquidityRewardDistributed {
    pub recipient: Pubkey,
    pub distributed_by: Pubkey,
    pub amount: u64,
    pub distributed_at: i64,
}

/// The fee for creating a market was collected.
#[derive(Clone, Copy, Debug)]
pub struct MarketCreationFeeCollected {
    pub market: Pubkey,
    pub creator: Pubkey,
    pub fee_amount: u64,
    pub slot: u64,
    pub timestamp: i64,
}

/// A market was paused.
#[derive(Clone, Copy, Debug)]
pub struct MarketPaused {
    pub market: Pubkey,
    pub paused_by: Pubkey,
    pub paused_at: i64,
}

/// A market was resumed.
#[derive(Clone, Copy, Debug)]
pub struct MarketResumed {
    pub market: Pubkey,
    pub resumed_by: Pubkey,
    pub resumed_at: i64,
}

/// The fee curve or the fee split was changed.
#[derive(Clone, Copy, Debug)]
pub struct GlobalFeeRatesUpdated {
    pub updated_by: Pubkey,
    pub center_taker_fee_rate: u32,
    pub extreme_taker_fee_rate: u32,
    pub platform_fee_rate: u32,
    pub maker_rebate_rate: u32,
    pub creator_incentive_rate: u32,
    pub updated_at: i64,
}

/// Fees were withdrawn from the platform treasury.
#[derive(Clone, Copy, Debug)]
pub struct PlatformFeesWithdrawn {
    pub recipient: Pubkey,
    pub withdrawn_by: Pubkey,
    pub amount: u64,
    pub withdrawn_at: i64,
}

/// Fees were withdrawn from the reward treasury.
#[derive(Clone, Copy, Debug)]
pub struct RewardFeesWithdrawn {
    pub recipient: Pubkey,
    pub withdrawn_by: Pubkey,
    pub amount: u64,
    pub withdrawn_at: i64,
}

/// An order was filled, in part or in full.
#[derive(Clone, Copy, Debug)]
pub struct OrderFilled {
    pub order_hash: [u8; 32],
    pub maker: Pubkey,
    pub taker: Pubkey,
    pub maker_asset_id: u8,
    pub taker_asset_id: u8,
    pub maker_amount_filled: u64,
    pub taker_amount_filled: u64,
    pub fee: u64,
    pub market: Pubkey,
    pub slot: u64,
    pub timestamp: i64,
}

/// An order was cancelled by its maker.
#[derive(Clone, Copy, Debug)]
pub struct OrderCancelled {
    pub order_hash: [u8; 32],
    pub maker: Pubkey,
    pub market: Pubkey,
    pub slot: u64,
    pub timestamp: i64,
}

/// A taker order was matched against one or more maker orders.
#[derive(Clone, Copy, Debug)]
pub struct OrdersMatched {
    pub taker_order_hash: [u8; 32],
    pub taker_maker: Pubkey,
    pub maker_asset_id: u8,
    pub taker_asset_id: u8,
    pub maker_amount_filled: u64,
    pub taker_amount_filled: u64,
    pub maker_orders_count: u8,
    pub market: Pubkey,
    pub slot: u64,
    pub timestamp: i64,
}

/// A user's nonce was advanced, voiding the orders below it.
#[derive(Clone, Copy, Debug)]
pub struct NonceIncremented {
    pub user: Pubkey,
    pub new_nonce: u64,
    pub slot: u64,
    pub timestamp: i64,
}

/// An operator was added.
#[derive(Clone, Copy, Debug)]
pub struct OperatorAdded {
    pub operator: Pubkey,
    pub added_by: Pubkey,
    pub timestamp: i64,
}

/// An operator was removed.
#[derive(Clone, Copy, Debug)]
pub struct OperatorRemoved {
    pub operator: Pubkey,
    pub removed_by: Pubkey,
    pub timestamp: i64,
}

/// Trading was paused on the whole exchange.
#[derive(Clone, Copy, Debug)]
pub struct GlobalTradingPaused {
    pub paused_by: Pubkey,
    pub timestamp: i64,
}

/// Trading was reopened on the whole exchange.
#[derive(Clone, Copy, Debug)]
pub struct GlobalTradingUnpaused {
    pub unpaused_by: Pubkey,
    pub timestamp: i64,
}

} // verus!
