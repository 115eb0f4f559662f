//! Scales, limits and fixed amounts shared by the whole engine.

use vstd::prelude::*;

verus! {

/// Number of decimals of the collateral asset.
pub const USDC_DECIMALS: u8 = 6;

/// Outcome index of the YES share.
pub const OUTCOME_YES: u8 = 0;

/// Outcome index of the NO share.
pub const OUTCOME_NO: u8 = 1;

/// A market always has exactly two complementary outcomes.
pub const MAX_OUTCOME_TOKENS: usize = 2;

/// Prices and rates are parts per million: 1.0 is 1,000,000.
pub const PRICE_SCALE: u64 = 1_000_000;

/// How far a pair of final prices may be from summing to 1.0.
pub const PRICE_TOLERANCE: u64 = 100;

/// Longest market question, in UTF-8 bytes.
pub const MAX_QUESTION_LEN: usize = 200;

/// Longest market description, in UTF-8 bytes.
pub const MAX_DESCRIPTION_LEN: usize = 500;

/// Longest description of one outcome, in UTF-8 bytes.
pub const MAX_OUTCOME_DESCRIPTION_LEN: usize = 200;

/// Fee charged for a termination check, in lamports.
pub const VRF_FEE_LAMPORTS: u64 = 5_000_000;

/// A market with no activity for this many seconds may be terminated.
pub const INACTIVITY_TIMEOUT_SECONDS: i64 = 7 * 24 * 60 * 60;

/// Termination probability given to a new market, in parts per million.
pub const DEFAULT_TERMINATION_PROBABILITY: u32 = 1_000;

/// Fee for creating a market, in collateral units.
pub const MARKET_CREATION_FEE: u64 = 10_000_000;

/// Reward paid to whoever executes an inactivity termination.
pub const TERMINATION_EXECUTION_REWARD_USDC: u64 = 100_000;

/// Oracle randomness older than this many slots is stale.
pub const MAX_RANDOMNESS_AGE_SLOTS: u64 = 150;

/// The termination draw is uniform over `[0, RANDOM_RANGE)`.
pub const RANDOM_RANGE: u64 = 100_000_001;

/// Upper bound of a termination threshold (100%).
pub const MAX_SETTLEMENT_THRESHOLD: u64 = 100_000_000;

} // verus!
