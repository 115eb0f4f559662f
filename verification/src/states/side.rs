//! Order sides.

use vstd::prelude::*;

verus! {

/// The maker pays collateral and receives shares.
pub const BUY: u8 = 0;

/// The maker pays shares and receives collateral.
pub const SELL: u8 = 1;

} // verus!
