//! Asset identifiers carried by an order.

use vstd::prelude::*;

verus! {

/// The collateral asset.
pub const USDC: u8 = 0;

/// The YES outcome share.
pub const YES: u8 = 1;

/// The NO outcome share.
pub const NO: u8 = 2;

} // verus!
