//! The host's notion of now.

use vstd::prelude::*;

verus! {

/// The slot and the wall-clock time at which a call executes.
#[derive(Clone, Copy, Debug)]
pub struct Clock {
    pub slot: u64,
    pub unix_timestamp: i64,
}

} // verus!
