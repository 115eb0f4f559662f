//! Exchange-wide configuration: authorities, the fee curve and the fee split.

use vstd::prelude::*;
use crate::errors::TerminatorError;
use crate::pubkey::Pubkey;

verus! {

/// Maximum number of operators.
pub const MAX_OPERATORS: usize = 10;

/// Highest fee rate an order may carry, in basis points (10%).
pub const MAX_FEE_RATE_BPS: u16 = 1000;

/// The price of one half, where the fee curve peaks.
pub const CENTER_PRICE: u64 = 500_000;

/// Exchange-wide state.
#[derive(Clone, Copy, Debug)]
pub struct Global {
    pub authority: Pubkey,
    pub usdc_mint: Pubkey,
    /// May run keeper tasks besides the authority; the zero key for nobody.
    pub keeper: Pubkey,
    /// Signs trade-settlement messages on behalf of the exchange.
    pub settlement_signer: Pubkey,
    pub bump: u8,
    pub platform_treasury_bump: u8,
    pub total_trading_fees_collected: u64,
    pub total_creation_fees_collected: u64,
    /// Taker fee rate at a price of one half, in parts per million.
    pub center_taker_fee_rate: u32,
    /// Taker fee rate at a price of zero or one, in parts per million.
    pub extreme_taker_fee_rate: u32,
    /// Platform's share of a taker fee, in parts per million.
    pub platform_fee_rate: u32,
    /// Makers' share of a taker fee, in parts per million.
    pub maker_rebate_rate: u32,
    /// Market creator's share of a taker fee, in parts per million.
    pub creator_incentive_rate: u32,
    /// While set, no order may be filled or matched.
    pub trading_paused: bool,
    /// How many leading slots of `operators` are in use.
    pub operator_count: u8,
    pub operators: [Pubkey; 10],
}

/// The distance of a price from one half.
pub open spec fn distance_from_center(price: u64) -> int {
    if price > CENTER_PRICE {
        price - CENTER_PRICE
    } else {
        CENTER_PRICE - price
    }
}

/// The taker fee rate at `price` for a curve that runs linearly from
/// `center` at a price of one half down to `extreme` at zero and one:
/// `center - (center - extreme) * |price - 1/2| / (1/2)`, never below zero.
pub open spec fn fee_rate(center: u32, extreme: u32, price: u64) -> int {
    let range = if center >= extreme {
        center - extreme
    } else {
        0
    };
    let reduction = (range * distance_from_center(price)) / (CENTER_PRICE as int);
    if reduction >= center {
        0
    } else {
        center - reduction
    }
}

/// The fee curve is symmetric about one half.
pub proof fn lemma_fee_symmetry(center: u32, extreme: u32, price: u64)
    requires
        price <= 1_000_000,
    ensures
        fee_rate(center, extreme, price) == fee_rate(center, extreme, (1_000_000 - price) as u64),
{
}

/// Inside the price range the fee rate lies between the two endpoints.
pub proof fn lemma_fee_rate_bounds(center: u32, extreme: u32, price: u64)
    requires
        price <= 1_000_000,
        extreme <= center,
    ensures
        extreme <= fee_rate(center, extreme, price) <= center,
        fee_rate(center, extreme, 500_000) == center,
        fee_rate(center, extreme, 0) == extreme,
        fee_rate(center, extreme, 1_000_000) == extreme,
{
    let range = center - extreme;
    let d = distance_from_center(price);
    assert((range * d) / 500_000 <= range) by (nonlinear_arith)
        requires
            0 <= d <= 500_000,
            0 <= range,
    ;
    assert((range * d) / 500_000 >= 0) by (nonlinear_arith)
        requires
            0 <= d <= 500_000,
            0 <= range,
    ;
    assert((range * 500_000) / 500_000 == range) by (nonlinear_arith);
    assert((range * 0) / 500_000 == 0) by (nonlinear_arith);
}

/// A list with the first occurrence of `key` taken out.
pub open spec fn removed_first(list: Seq<Pubkey>, key: Pubkey) -> Seq<Pubkey>
    decreases list.len(),
{
    if list.len() == 0 {
        list
    } else if list[0] == key {
        list.drop_first()
    } else {
        seq![list[0]] + removed_first(list.drop_first(), key)
    }
}

/// Taking out the first occurrence is removing at its index.
pub proof fn lemma_removed_first_at(list: Seq<Pubkey>, key: Pubkey, idx: int)
    requires
        0 <= idx < list.len(),
        list[idx] == key,
        forall|j: int| 0 <= j < idx ==> list[j] != key,
    ensures
        removed_first(list, key) == list.remove(idx),
    decreases list.len(),
{
    if idx == 0 {
        assert(list.remove(0) =~= list.drop_first());
    } else {
        let rest = list.drop_first();
        assert(list[0] != key);
        assert forall|j: int| 0 <= j < idx - 1 implies rest[j] != key by {
            assert(rest[j] == list[j + 1]);
        }
        lemma_removed_first_at(rest, key, idx - 1);
        assert(seq![list[0]] + rest.remove(idx - 1) =~= list.remove(idx));
    }
}

impl Global {
    /// The record is well formed when the operator count fits the table.
    pub open spec fn wf(&self) -> bool {
        self.operator_count <= MAX_OPERATORS
    }

    /// The operators in use, in the order they were added.
    pub open spec fn operator_list(&self) -> Seq<Pubkey> {
        self.operators@.take(self.operator_count as int)
    }

    /// Whether `pubkey` may execute trades: the authority always may, and
    /// so may every listed operator.
    pub open spec fn spec_is_operator(&self, pubkey: Pubkey) -> bool {
        pubkey == self.authority || self.operator_list().contains(pubkey)
    }

    /// Whether `pubkey` may run keeper tasks.
    pub open spec fn spec_is_keeper(&self, pubkey: Pubkey) -> bool {
        pubkey == self.authority || (pubkey == self.keeper && self.keeper != Pubkey::zero())
    }

    /// The taker fee rate this configuration charges at `price`.
    pub open spec fn taker_fee_rate(&self, price: u64) -> int {
        fee_rate(self.center_taker_fee_rate, self.extreme_taker_fee_rate, price)
    }

    /// Whether the three fee shares add up to exactly 100%.
    pub open spec fn distribution_is_complete(&self) -> bool {
        self.platform_fee_rate + self.maker_rebate_rate + self.creator_incentive_rate
            == 1_000_000
    }

    pub fn is_keeper(&self, pubkey: &Pubkey) -> (r: bool)
        ensures
            r == self.spec_is_keeper(*pubkey),
    {
        *pubkey == self.authority || (*pubkey == self.keeper && !self.keeper.is_default())
    }

    pub fn is_admin(&self, pubkey: &Pubkey) -> (r: bool)
        ensures
            r == (*pubkey == self.authority),
    {
        *pubkey == self.authority
    }

    pub fn is_operator(&self, pubkey: &Pubkey) -> (r: bool)
        requires
            self.wf(),
        ensures
            r == self.spec_is_operator(*pubkey),
    {
        if *pubkey == self.authority {
            return true;
        }
        let count = self.operator_count as usize;
        let mut i: usize = 0;
        while i < count
            invariant
                0 <= i <= count,
                count == self.operator_count,
                count <= 10,
                forall|j: int| 0 <= j < i ==> self.operators@[j] != *pubkey,
            decreases count - i,
        {
            if self.operators[i] == *pubkey {
                assert(self.operator_list()[i as int] == *pubkey);
                return true;
            }
            i += 1;
        }
        false
    }

    /// Appends an operator to the list.
    pub fn add_operator(&mut self, operator: Pubkey) -> (r: Result<(), TerminatorError>)
        requires
            old(self).wf(),
        ensures
            final(self).wf(),
            old(self).operator_count >= MAX_OPERATORS ==> r == Err::<(), TerminatorError>(
                TerminatorError::MaxOperatorsReached,
            ),
            old(self).operator_count < MAX_OPERATORS && old(self).spec_is_operator(operator) ==> r
                == Err::<(), TerminatorError>(TerminatorError::AlreadyOperator),
            r is Err ==> *final(self) == *old(self),
            old(self).operator_count < MAX_OPERATORS && !old(self).spec_is_operator(operator) ==> r
                == Ok::<(), TerminatorError>(()) && *final(self) == (Global {
                operators: final(self).operators,
                operator_count: (old(self).operator_count + 1) as u8,
                ..*old(self)
            }) && final(self).operators@ == old(self).operators@.update(
                old(self).operator_count as int,
                operator,
            ) && final(self).operator_list() == old(self).operator_list().push(operator),
    {
        if self.operator_count as usize >= MAX_OPERATORS {
            return Err(TerminatorError::MaxOperatorsReached);
        }
        if self.is_operator(&operator) {
            return Err(TerminatorError::AlreadyOperator);
        }
        let slot = self.operator_count as usize;
        self.operators[slot] = operator;
        self.operator_count = self.operator_count + 1;
        assert(self.operator_list() =~= old(self).operator_list().push(operator));
        Ok(())
    }

    /// Removes the first listed occurrence of an operator, closing the gap
    /// and clearing the slot that falls free.
    pub fn remove_operator(&mut self, operator: Pubkey) -> (r: Result<(), TerminatorError>)
        requires
            old(self).wf(),
        ensures
            final(self).wf(),
            !old(self).operator_list().contains(operator) ==> r == Err::<(), TerminatorError>(
                TerminatorError::OperatorNotFound,
            ) && *final(self) == *old(self),
            old(self).operator_list().contains(operator) ==> r == Ok::<(), TerminatorError>(())
                && *final(self) == (Global {
                operators: final(self).operators,
                operator_count: (old(self).operator_count - 1) as u8,
                ..*old(self)
            }) && final(self).operators@ == removed_first(old(self).operator_list(), operator)
                + seq![Pubkey::zero()] + old(self).operators@.skip(
                old(self).operator_count as int,
            ),
    {
        let count = self.operator_count as usize;
        let mut idx: usize = 0;
        while idx < count && !(self.operators[idx] == operator)
            invariant
                0 <= idx <= count,
                count == self.operator_count,
                count <= 10,
                *self == *old(self),
                forall|j: int| 0 <= j < idx ==> self.operators@[j] != operator,
            decreases count - idx,
        {
            idx += 1;
        }
        if idx >= count {
            assert(!self.operator_list().contains(operator)) by {
                if self.operator_list().contains(operator) {
                    let j = choose|j: int|
                        0 <= j < self.operator_list().len() && self.operator_list()[j] == operator;
                    assert(self.operators@[j] == operator);
                }
            }
            return Err(TerminatorError::OperatorNotFound);
        }
        assert(old(self).operator_list()[idx as int] == operator);
        proof {
            lemma_removed_first_at(old(self).operator_list(), operator, idx as int);
        }
        let mut i: usize = idx;
        while i < count - 1
            invariant
                idx <= i <= count - 1,
                count <= 10,
                *self == (Global { operators: self.operators, ..*old(self) }),
                forall|j: int| 0 <= j < idx ==> self.operators@[j] == old(self).operators@[j],
                forall|j: int| idx <= j < i ==> self.operators@[j] == old(self).operators@[j + 1],
                forall|j: int| i <= j < 10 ==> self.operators@[j] == old(self).operators@[j],
            decreases count - 1 - i,
        {
            let next = self.operators[i + 1];
            self.operators[i] = next;
            i += 1;
        }
        self.operators[count - 1] = Pubkey::default();
        self.operator_count = self.operator_count - 1;
        assert(self.operators@ =~= old(self).operator_list().remove(idx as int) + seq![
            Pubkey::zero(),
        ] + old(self).operators@.skip(count as int));
        Ok(())
    }

    pub fn is_trading_allowed(&self) -> (r: bool)
        ensures
            r == !self.trading_paused,
    {
        !self.trading_paused
    }

    pub fn pause_trading(&mut self)
        ensures
            *final(self) == (Global { trading_paused: true, ..*old(self) }),
    {
        self.trading_paused = true;
    }

    pub fn unpause_trading(&mut self)
        ensures
            *final(self) == (Global { trading_paused: false, ..*old(self) }),
    {
        self.trading_paused = false;
    }

    /// The taker fee rate at `price`, in parts per million.
    pub fn calculate_taker_fee_rate(&self, price: u64) -> (rate: u32)
        ensures
            rate == self.taker_fee_rate(price),
            rate <= self.center_taker_fee_rate,
            price <= 1_000_000 && self.extreme_taker_fee_rate <= self.center_taker_fee_rate
                ==> rate >= self.extreme_taker_fee_rate,
    {
        let distance: u64 = if price > CENTER_PRICE {
            price - CENTER_PRICE
        } else {
            CENTER_PRICE - price
        };
        let range: u32 = if self.center_taker_fee_rate >= self.extreme_taker_fee_rate {
            self.center_taker_fee_rate - self.extreme_taker_fee_rate
        } else {
            0
        };
        proof {
            crate::utils::lemma_product_fits(range as u64, distance);
            if price <= 1_000_000 && self.extreme_taker_fee_rate <= self.center_taker_fee_rate {
                lemma_fee_rate_bounds(
                    self.center_taker_fee_rate,
                    self.extreme_taker_fee_rate,
                    price,
                );
            }
        }
        let reduction: u128 = ((range as u128) * (distance as u128)) / (CENTER_PRICE as u128);
        if reduction >= self.center_taker_fee_rate as u128 {
            0
        } else {
            self.center_taker_fee_rate - (reduction as u32)
        }
    }
}

} // verus!
