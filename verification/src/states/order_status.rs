//! Per-order fill tracking.
//!
//! A record starts unset (its hash is all zeros), becomes fillable on first
//! touch with the order's full amount remaining, and ends filled or
//! cancelled. Remaining only ever decreases and the terminal flag is set at
//! most once.

use vstd::prelude::*;
use crate::errors::TerminatorError;

verus! {

/// The fill state of one order hash.
#[derive(Clone, Copy, Debug)]
pub struct OrderStatus {
    /// Hash of the order this record tracks; all zeros while unset.
    pub order_hash: [u8; 32],
    /// Set once the order is fully filled or cancelled.
    pub is_filled_or_cancelled: bool,
    /// How much of the maker amount can still be filled.
    pub remaining: u64,
    /// Address bump of the record's account.
    pub bump: u8,
}

/// The all-zero hash that marks an unset record.
pub open spec fn zero_hash() -> Seq<u8> {
    Seq::new(32, |i: int| 0u8)
}

/// Whether two 32-byte hashes are equal.
pub fn hash_eq(a: &[u8; 32], b: &[u8; 32]) -> (r: bool)
    ensures
        r == (a@ == b@),
{
    let mut i: usize = 0;
    while i < 32
        invariant
            0 <= i <= 32,
            forall|j: int| 0 <= j < i ==> a@[j] == b@[j],
        decreases 32 - i,
    {
        if a[i] != b[i] {
            return false;
        }
        i += 1;
    }
    assert(a@ =~= b@);
    true
}

impl OrderStatus {
    /// Whether the order can take another fill.
    pub open spec fn spec_is_fillable(&self) -> bool {
        !self.is_filled_or_cancelled && self.remaining > 0
    }

    /// Whether the record has never been touched.
    pub open spec fn spec_is_unset(&self) -> bool {
        self.order_hash@ == zero_hash()
    }

    /// The amount a fill request of `amount` actually fills.
    pub open spec fn fill_amount(&self, amount: u64) -> u64 {
        if amount <= self.remaining {
            amount
        } else {
            self.remaining
        }
    }

    /// The record after a successful fill request of `amount`.
    pub open spec fn after_fill(&self, amount: u64) -> OrderStatus {
        let left = (self.remaining - self.fill_amount(amount)) as u64;
        OrderStatus {
            remaining: left,
            is_filled_or_cancelled: self.is_filled_or_cancelled || left == 0,
            ..*self
        }
    }

    /// The record after its first touch by an order with this hash.
    pub open spec fn after_touch(&self, order_hash: [u8; 32], maker_amount: u64, bump: u8) -> OrderStatus {
        if self.spec_is_unset() {
            OrderStatus { order_hash, is_filled_or_cancelled: false, remaining: maker_amount, bump }
        } else {
            *self
        }
    }

    /// A record that has never been touched.
    pub fn unset() -> (status: Self)
        ensures
            status.spec_is_unset(),
            !status.is_filled_or_cancelled,
            status.remaining == 0,
            status.bump == 0,
    {
        let status = OrderStatus {
            order_hash: [0u8; 32],
            is_filled_or_cancelled: false,
            remaining: 0,
            bump: 0,
        };
        assert(status.order_hash@ =~= zero_hash());
        status
    }

    /// Starts tracking an order with its full amount remaining.
    pub fn init(&mut self, order_hash: [u8; 32], maker_amount: u64, bump: u8)
        ensures
            *final(self) == (OrderStatus {
                order_hash,
                is_filled_or_cancelled: false,
                remaining: maker_amount,
                bump,
            }),
    {
        self.order_hash = order_hash;
        self.is_filled_or_cancelled = false;
        self.remaining = maker_amount;
        self.bump = bump;
    }

    /// Whether the record has never been touched.
    #[verifier::when_used_as_spec(spec_is_unset)]
    pub fn is_unset(&self) -> (r: bool)
        ensures
            r == self.spec_is_unset(),
    {
        let zero = [0u8; 32];
        assert(zero@ =~= zero_hash());
        hash_eq(&self.order_hash, &zero)
    }

    /// First touch: an unset record starts tracking the order; a record
    /// already in use must belong to the same order hash.
    pub fn touch(&mut self, order_hash: [u8; 32], maker_amount: u64, bump: u8) -> (r: Result<
        (),
        TerminatorError,
    >)
        ensures
            old(self).spec_is_unset() || old(self).order_hash@ == order_hash@ ==> r == Ok::<
                (),
                TerminatorError,
            >(()) && *final(self) == old(self).after_touch(order_hash, maker_amount, bump),
            !old(self).spec_is_unset() && old(self).order_hash@ != order_hash@ ==> r == Err::<
                (),
                TerminatorError,
            >(TerminatorError::OrderHashMismatch) && *final(self) == *old(self),
    {
        if self.is_unset() {
            self.init(order_hash, maker_amount, bump);
            Ok(())
        } else if hash_eq(&self.order_hash, &order_hash) {
            Ok(())
        } else {
            Err(TerminatorError::OrderHashMismatch)
        }
    }

    /// Whether the order can take another fill.
    #[verifier::when_used_as_spec(spec_is_fillable)]
    pub fn is_fillable(&self) -> (r: bool)
        ensures
            r == self.spec_is_fillable(),
    {
        !self.is_filled_or_cancelled && self.remaining > 0
    }

    /// Fills up to `amount` of the order and returns what was actually
    /// filled, which is capped at the remaining amount. The record becomes
    /// terminal when nothing remains. A terminal or empty record refuses.
    pub fn fill(&mut self, amount: u64) -> (r: Result<u64, TerminatorError>)
        ensures
            old(self).spec_is_fillable() ==> r == Ok::<u64, TerminatorError>(
                old(self).fill_amount(amount),
            ) && *final(self) == old(self).after_fill(amount),
            !old(self).spec_is_fillable() ==> r == Err::<u64, TerminatorError>(
                TerminatorError::OrderNotFillable,
            ) && *final(self) == *old(self),
            final(self).remaining <= old(self).remaining,
            old(self).is_filled_or_cancelled ==> final(self).is_filled_or_cancelled,
    {
        if !self.is_fillable() {
            return Err(TerminatorError::OrderNotFillable);
        }
        let actual_fill = if amount <= self.remaining {
            amount
        } else {
            self.remaining
        };
        self.remaining = self.remaining - actual_fill;
        if self.remaining == 0 {
            self.is_filled_or_cancelled = true;
        }
        Ok(actual_fill)
    }

    /// Cancels the order: marks it terminal, whatever remains. The move
    /// is one-way: a record that is filled or cancelled already refuses
    /// and stays as it is.
    pub fn cancel(&mut self) -> (r: Result<(), TerminatorError>)
        ensures
            !old(self).is_filled_or_cancelled ==> r == Ok::<(), TerminatorError>(()) && *final(self)
                == (OrderStatus { is_filled_or_cancelled: true, ..*old(self) }),
            old(self).is_filled_or_cancelled ==> r == Err::<(), TerminatorError>(
                TerminatorError::OrderAlreadyCancelledOrFilled,
            ) && *final(self) == *old(self),
            !final(self).spec_is_fillable(),
            final(self).remaining == old(self).remaining,
    {
        if self.is_filled_or_cancelled {
            return Err(TerminatorError::OrderAlreadyCancelledOrFilled);
        }
        self.is_filled_or_cancelled = true;
        Ok(())
    }

    /// Whether the order ended with something left unfilled.
    pub fn is_cancelled(&self) -> (r: bool)
        ensures
            r == (self.is_filled_or_cancelled && self.remaining > 0),
    {
        self.is_filled_or_cancelled && self.remaining > 0
    }

    /// Whether the order ended with nothing left.
    pub fn is_fully_filled(&self) -> (r: bool)
        ensures
            r == (self.is_filled_or_cancelled && self.remaining == 0),
    {
        self.is_filled_or_cancelled && self.remaining == 0
    }

    /// How much of an order of `maker_amount` has been filled so far.
    pub fn get_filled_amount(&self, maker_amount: u64) -> (filled: u64)
        ensures
            filled == if maker_amount >= self.remaining {
                maker_amount - self.remaining
            } else {
                0
            },
    {
        if maker_amount >= self.remaining {
            maker_amount - self.remaining
        } else {
            0
        }
    }
}

/// Across two successive fill requests on one record, the remaining amount
/// never grows, and once the record is terminal the next request fails and
/// leaves the record as it is.
pub proof fn lemma_fill_monotonic(status: OrderStatus, first: u64, second: u64)
    requires
        status.spec_is_fillable(),
    ensures
        status.after_fill(first).remaining <= status.remaining,
        status.after_fill(first).spec_is_fillable() ==> status.after_fill(first).after_fill(
            second,
        ).remaining <= status.after_fill(first).remaining,
        status.after_fill(first).is_filled_or_cancelled ==> !status.after_fill(
            first,
        ).spec_is_fillable(),
{
}

} // verus!
