//! The operations of the exchange, one module each. Every handler is a
//! function of the records it touches and its inputs: it either returns
//! what happened and leaves the records updated, or returns an error and
//! leaves them as they were.

pub mod calculator;
pub mod cancel_order;
pub mod create_market;
pub mod deposit_usdc;
pub mod distribute_liquidity_reward;
pub mod ed25519_verify;
pub mod fill_order;
pub mod global_pause;
pub mod increment_nonce;
pub mod initialize;
pub mod match_orders;
pub mod merge_position_single;
pub mod operator_management;
pub mod pause_market;
pub mod redeem_single_outcome;
pub mod request_randomness;
pub mod resume_market;
pub mod set_keeper;
pub mod settle_market;
pub mod settle_trade;
pub mod settle_with_randomness;
pub mod split_position_single;
pub mod terminate_if_inactive;
pub mod treasury_utils;
pub mod update_fee_rates;
pub mod update_market_params;
pub mod withdraw_platform_fees;
pub mod withdraw_reward_fees;
pub mod withdraw_usdc;
