//! Fee configuration of a freshly initialised exchange.

use vstd::prelude::*;

verus! {

/// Taker fee rate at a price of one half: 3.2%.
pub const CENTER_TAKER_FEE_RATE: u32 = 32_000;

/// Taker fee rate at a price of zero or one: 0.2%.
pub const EXTREME_TAKER_FEE_RATE: u32 = 2_000;

/// Share of the taker fee that goes to the platform: 75%.
pub const PLATFORM_FEE_RATE: u32 = 750_000;

/// Share of the taker fee that goes back to makers: 20%.
pub const MAKER_REBATE_RATE: u32 = 200_000;

/// Share of the taker fee that goes to the market's creator: 5%.
pub const CREATOR_INCENTIVE_RATE: u32 = 50_000;

} // verus!
