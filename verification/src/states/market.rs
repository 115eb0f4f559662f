//! One prediction market: its lifecycle, its supply ledger and its last
//! observed prices.

use vstd::prelude::*;
use crate::bytes::{le_u64, push_all, push_u64_le, read_u64_le, u64_le};
use crate::constants::{INACTIVITY_TIMEOUT_SECONDS, MAX_OUTCOME_TOKENS, PRICE_SCALE};
use crate::errors::TerminatorError;
use crate::hashing::{blake3_digest, blake3_hash};
use crate::pubkey::Pubkey;
use crate::utils::{derive_final_prices, final_prices};

verus! {

/// Where a market stands in its life. `Active` is the only state that
/// trades; the other two are final and unlock redemption.
#[derive(Clone, Copy, Debug, PartialEq, Eq, Structural)]
pub enum MarketStatus {
    /// Open for trading.
    Active,
    /// Resolved by an explicit settlement.
    Settled,
    /// Resolved by the random check or by inactivity.
    Terminated,
}

/// The moves the lifecycle allows: a market stays where it is, or leaves
/// `Active` for good. No move leads out of a resolved state.
pub open spec fn status_step(before: MarketStatus, after: MarketStatus) -> bool {
    before == after || before == MarketStatus::Active
}

/// The state of one market.
#[derive(Clone, Debug)]
pub struct Market {
    pub creator: Pubkey,
    pub global: Pubkey,
    /// Identifier chosen by the creator.
    pub market_id: [u8; 32],
    pub question: String,
    pub description: String,
    pub yes_description: String,
    pub no_description: String,
    /// Unix time of creation.
    pub created_at: i64,
    /// Unix time of the last trade, or of the last resume.
    pub last_activity_ts: i64,
    pub status: MarketStatus,
    pub switchboard_queue: Pubkey,
    /// The one randomness account this market accepts.
    pub randomness_account: Pubkey,
    /// Share mints for tokenised positions; zero keys while unused.
    pub outcome_token_mints: [Pubkey; 2],
    /// Collateral that backs the outstanding shares.
    pub total_position_collateral: u64,
    pub total_yes_supply: u64,
    pub total_no_supply: u64,
    /// Collateral locked for redemption when the market resolved.
    pub total_redeemable_usdc: u64,
    /// Collateral already paid out of the locked amount.
    pub total_redeemed_usdc: u64,
    /// Outcome index of the last settled trade.
    pub last_trade_outcome: Option<u8>,
    /// Taker of the last settled trade.
    pub reference_agent: Option<Pubkey>,
    pub total_trades: u64,
    pub last_trade_slot: Option<u64>,
    pub last_trade_yes_price: Option<u64>,
    pub last_trade_no_price: Option<u64>,
    pub random_termination_enabled: bool,
    /// Chance of termination per checked trade, in parts per million.
    pub termination_probability: u32,
    /// Locked YES price; set when the market resolves.
    pub final_yes_price: Option<u64>,
    /// Locked NO price; set when the market resolves.
    pub final_no_price: Option<u64>,
    pub termination_trade_slot: Option<u64>,
    /// Counts termination checks; part of every derived random value.
    pub trade_nonce: u64,
    /// Nonce of the last settled trade message.
    pub settle_trade_nonce: u64,
    /// Creator incentive earned and not yet paid out.
    pub creator_incentive_accrued: u64,
    pub is_paused: bool,
    pub paused_at: Option<i64>,
    pub bump: u8,
}

/// The bytes whose digest is the random value of one termination check:
/// the oracle value, the market, the caller, the check nonce and the slot,
/// in this order.
pub open spec fn randomness_preimage(
    vrf_value: Seq<u8>,
    market_key: Pubkey,
    user_key: Pubkey,
    trade_nonce: u64,
    slot: u64,
) -> Seq<u8> {
    vrf_value + market_key@ + user_key@ + u64_le(trade_nonce) + u64_le(slot)
}

/// The integer in `[0, max)` that a 32-byte random value stands for: its
/// first eight bytes, little-endian, reduced modulo `max`.
pub open spec fn random_draw(randomness: Seq<u8>, max: u64) -> int {
    le_u64(randomness.subrange(0, 8)) as int % max as int
}

/// Writes the bytes that `derive_unique_randomness` digests.
pub fn randomness_preimage_bytes(
    vrf_value: &[u8; 32],
    market_key: &Pubkey,
    user_key: &Pubkey,
    trade_nonce: u64,
    slot: u64,
) -> (out: Vec<u8>)
    ensures
        out@ == randomness_preimage(vrf_value@, *market_key, *user_key, trade_nonce, slot),
        out@.len() == 112,
{
    let mut out: Vec<u8> = Vec::new();
    push_all(&mut out, vrf_value.as_slice());
    assert(out@ =~= vrf_value@);
    push_all(&mut out, market_key.bytes.as_slice());
    push_all(&mut out, user_key.bytes.as_slice());
    push_u64_le(&mut out, trade_nonce);
    push_u64_le(&mut out, slot);
    out
}

/// Digests the preimage of one termination check.
pub fn unique_randomness(
    vrf_value: &[u8; 32],
    market_key: &Pubkey,
    user_key: &Pubkey,
    trade_nonce: u64,
    slot: u64,
) -> (out: [u8; 32])
    ensures
        out == blake3_digest(
            randomness_preimage(vrf_value@, *market_key, *user_key, trade_nonce, slot),
        ),
{
    let input = randomness_preimage_bytes(vrf_value, market_key, user_key, trade_nonce, slot);
    blake3_hash(input.as_slice())
}

impl Market {
    /// Supply conservation: as many YES as NO shares exist, and each pair
    /// is backed by one unit of collateral.
    pub open spec fn supply_balanced(&self) -> bool {
        self.total_yes_supply == self.total_no_supply && self.total_position_collateral
            == self.total_yes_supply
    }

    /// The ledger is sound: no more has been redeemed than was locked,
    /// and while the market trades its supply is balanced.
    pub open spec fn wf(&self) -> bool {
        self.redemption_bounded() && (self.status == MarketStatus::Active
            ==> self.supply_balanced())
    }

    /// No more has been redeemed than was locked.
    pub open spec fn redemption_bounded(&self) -> bool {
        self.total_redeemed_usdc <= self.total_redeemable_usdc
    }

    pub open spec fn spec_is_active(&self) -> bool {
        self.status == MarketStatus::Active
    }

    /// Trading needs an active market that is not paused.
    pub open spec fn spec_can_trade(&self) -> bool {
        self.status == MarketStatus::Active && !self.is_paused
    }

    /// Redemption opens when the market resolves.
    pub open spec fn spec_can_redeem(&self) -> bool {
        self.status != MarketStatus::Active
    }

    /// Whether the inactivity timeout has run out at `now_ts`.
    pub open spec fn inactive_at(&self, now_ts: i64) -> bool {
        now_ts - self.last_activity_ts >= INACTIVITY_TIMEOUT_SECONDS
    }

    /// The market after its last prices were set from a trade of
    /// `outcome_index` at `price`: the other outcome gets the complement.
    pub open spec fn with_last_price(self, outcome_index: u8, price: u64) -> Market {
        if outcome_index == 0 {
            Market {
                last_trade_yes_price: Some(price),
                last_trade_no_price: Some((PRICE_SCALE - price) as u64),
                ..self
            }
        } else {
            Market {
                last_trade_no_price: Some(price),
                last_trade_yes_price: Some((PRICE_SCALE - price) as u64),
                ..self
            }
        }
    }

    /// The market after termination at the given final prices.
    pub open spec fn terminated_at(self, yes_price: u64, no_price: u64, trade_slot: u64) -> Market {
        Market {
            final_yes_price: Some(yes_price),
            final_no_price: Some(no_price),
            termination_trade_slot: Some(trade_slot),
            status: MarketStatus::Terminated,
            ..self
        }
    }

    /// The market after an inactivity termination at `now_slot`: the final
    /// prices are derived from the last observed ones, which are replaced
    /// by the derived pair.
    pub open spec fn terminated_for_inactivity(self, now_slot: u64) -> Market {
        let prices = final_prices(self.last_trade_yes_price, self.last_trade_no_price);
        (Market {
            last_trade_yes_price: Some(prices.0),
            last_trade_no_price: Some(prices.1),
            ..self
        }).terminated_at(prices.0, prices.1, now_slot)
    }

    /// The first reason, if any, why the market cannot be resolved against
    /// a vault holding `vault_balance`: its supply is out of balance, or
    /// the vault does not hold exactly the position collateral.
    pub open spec fn resolution_rejection(&self, vault_balance: u64) -> Option<TerminatorError> {
        if !self.supply_balanced() {
            Some(TerminatorError::InvalidInput)
        } else if vault_balance != self.total_position_collateral {
            Some(TerminatorError::InsufficientVaultBalance)
        } else {
            None
        }
    }

    /// What the creator is paid when the market resolves: everything
    /// accrued if the creator treasury can cover it, else nothing for now.
    pub open spec fn creator_payout(&self, creator_treasury_balance: u64) -> u64 {
        if creator_treasury_balance >= self.creator_incentive_accrued {
            self.creator_incentive_accrued
        } else {
            0
        }
    }

    /// The market after its redemption pool was locked: the vault balance
    /// becomes the pool, nothing of it is redeemed yet, and what was paid
    /// to the creator is no longer accrued.
    pub open spec fn locked_for_redemption(
        self,
        vault_balance: u64,
        creator_treasury_balance: u64,
    ) -> Market {
        Market {
            total_redeemable_usdc: vault_balance,
            total_redeemed_usdc: 0,
            creator_incentive_accrued: (self.creator_incentive_accrued - self.creator_payout(
                creator_treasury_balance,
            )) as u64,
            ..self
        }
    }

    #[verifier::when_used_as_spec(spec_is_active)]
    pub fn is_active(&self) -> (r: bool)
        ensures
            r == (self.status == MarketStatus::Active),
    {
        self.status == MarketStatus::Active
    }

    pub fn is_settled(&self) -> (r: bool)
        ensures
            r == (self.status == MarketStatus::Settled),
    {
        self.status == MarketStatus::Settled
    }

    pub fn is_terminated(&self) -> (r: bool)
        ensures
            r == (self.status == MarketStatus::Terminated),
    {
        self.status == MarketStatus::Terminated
    }

    #[verifier::when_used_as_spec(spec_can_trade)]
    pub fn can_trade(&self) -> (r: bool)
        ensures
            r == self.spec_can_trade(),
    {
        self.is_active() && !self.is_paused
    }

    #[verifier::when_used_as_spec(spec_can_redeem)]
    pub fn can_redeem(&self) -> (r: bool)
        ensures
            r == self.spec_can_redeem(),
    {
        !self.is_active()
    }

    /// Moves an active market to `Settled`. A resolved market stays as it is.
    pub fn set_settled(&mut self)
        ensures
            status_step(old(self).status, final(self).status),
            old(self).wf() ==> final(self).wf(),
            *final(self) == (Market {
                status: if old(self).status == MarketStatus::Active {
                    MarketStatus::Settled
                } else {
                    old(self).status
                },
                ..*old(self)
            }),
    {
        if self.is_active() {
            self.status = MarketStatus::Settled;
        }
    }

    /// Moves an active market to `Terminated`. A resolved market stays as it is.
    pub fn set_terminated(&mut self)
        ensures
            status_step(old(self).status, final(self).status),
            old(self).wf() ==> final(self).wf(),
            *final(self) == (Market {
                status: if old(self).status == MarketStatus::Active {
                    MarketStatus::Terminated
                } else {
                    old(self).status
                },
                ..*old(self)
            }),
    {
        if self.is_active() {
            self.status = MarketStatus::Terminated;
        }
    }

    /// The YES share mint, if one was set.
    pub fn yes_token_mint(&self) -> (r: Option<Pubkey>)
        ensures
            r == if self.outcome_token_mints[0] != Pubkey::zero() {
                Some(self.outcome_token_mints[0])
            } else {
                None
            },
    {
        self.get_outcome_mint(0)
    }

    /// The NO share mint, if one was set.
    pub fn no_token_mint(&self) -> (r: Option<Pubkey>)
        ensures
            r == if self.outcome_token_mints[1] != Pubkey::zero() {
                Some(self.outcome_token_mints[1])
            } else {
                None
            },
    {
        self.get_outcome_mint(1)
    }

    /// Whether both share mints were set.
    pub fn tokens_initialized(&self) -> (r: bool)
        ensures
            r == (self.outcome_token_mints[0] != Pubkey::zero() && self.outcome_token_mints[1]
                != Pubkey::zero()),
    {
        !self.outcome_token_mints[0].is_default() && !self.outcome_token_mints[1].is_default()
    }

    /// The share mint of an outcome, if the index is valid and one was set.
    pub fn get_outcome_mint(&self, index: usize) -> (r: Option<Pubkey>)
        ensures
            r == if index < MAX_OUTCOME_TOKENS && self.outcome_token_mints[index as int]
                != Pubkey::zero() {
                Some(self.outcome_token_mints[index as int])
            } else {
                None
            },
    {
        if index < MAX_OUTCOME_TOKENS {
            let mint = self.outcome_token_mints[index];
            if !mint.is_default() {
                return Some(mint);
            }
        }
        None
    }

    /// Sets the share mint of an outcome.
    pub fn set_outcome_mint(&mut self, index: usize, mint: Pubkey) -> (r: Result<
        (),
        TerminatorError,
    >)
        ensures
            status_step(old(self).status, final(self).status),
            old(self).wf() ==> final(self).wf(),
            index < MAX_OUTCOME_TOKENS ==> r == Ok::<(), TerminatorError>(()) && *final(self) == (
            Market { outcome_token_mints: final(self).outcome_token_mints, ..*old(self) })
                && final(self).outcome_token_mints@ == old(self).outcome_token_mints@.update(
                index as int,
                mint,
            ),
            index >= MAX_OUTCOME_TOKENS ==> r == Err::<(), TerminatorError>(
                TerminatorError::InvalidOutcomeIndex,
            ) && *final(self) == *old(self),
    {
        if index >= MAX_OUTCOME_TOKENS {
            return Err(TerminatorError::InvalidOutcomeIndex);
        }
        self.outcome_token_mints[index] = mint;
        Ok(())
    }

    /// Stops trading in this market.
    pub fn pause(&mut self, now_ts: i64)
        ensures
            status_step(old(self).status, final(self).status),
            old(self).wf() ==> final(self).wf(),
            *final(self) == (Market { is_paused: true, paused_at: Some(now_ts), ..*old(self) }),
    {
        self.is_paused = true;
        self.paused_at = Some(now_ts);
    }

    /// Reopens trading and restarts the inactivity clock, so that a long
    /// pause does not count as inactivity.
    pub fn resume(&mut self, now_ts: i64, now_slot: u64)
        ensures
            status_step(old(self).status, final(self).status),
            old(self).wf() ==> final(self).wf(),
            *final(self) == (Market {
                is_paused: false,
                paused_at: None,
                last_activity_ts: now_ts,
                last_trade_slot: Some(now_slot),
                ..*old(self)
            }),
    {
        self.is_paused = false;
        self.paused_at = None;
        self.last_activity_ts = now_ts;
        self.last_trade_slot = Some(now_slot);
    }

    /// Notes that the market was active just now.
    pub fn record_activity(&mut self, now_ts: i64, now_slot: u64)
        ensures
            status_step(old(self).status, final(self).status),
            old(self).wf() ==> final(self).wf(),
            *final(self) == (Market {
                last_activity_ts: now_ts,
                last_trade_slot: Some(now_slot),
                ..*old(self)
            }),
    {
        self.last_activity_ts = now_ts;
        self.last_trade_slot = Some(now_slot);
    }

    /// Records the price of the outcome just traded and the complementary
    /// price of the other one.
    pub fn record_binary_last_price(&mut self, outcome_index: u8, price: u64) -> (r: Result<
        (),
        TerminatorError,
    >)
        ensures
            status_step(old(self).status, final(self).status),
            old(self).wf() ==> final(self).wf(),
            price > PRICE_SCALE ==> r == Err::<(), TerminatorError>(TerminatorError::InvalidInput),
            price <= PRICE_SCALE && outcome_index > 1 ==> r == Err::<(), TerminatorError>(
                TerminatorError::InvalidOutcomeIndex,
            ),
            r is Err ==> *final(self) == *old(self),
            price <= PRICE_SCALE && outcome_index <= 1 ==> r == Ok::<(), TerminatorError>(())
                && *final(self) == old(self).with_last_price(outcome_index, price),
    {
        if price > PRICE_SCALE {
            return Err(TerminatorError::InvalidInput);
        }
        if outcome_index == 0 {
            self.last_trade_yes_price = Some(price);
            self.last_trade_no_price = Some(PRICE_SCALE - price);
            Ok(())
        } else if outcome_index == 1 {
            self.last_trade_no_price = Some(price);
            self.last_trade_yes_price = Some(PRICE_SCALE - price);
            Ok(())
        } else {
            Err(TerminatorError::InvalidOutcomeIndex)
        }
    }

    /// Terminates the market if it is active and has seen no activity for
    /// the inactivity timeout. Returns whether it did.
    pub fn terminate_if_inactive(&mut self, now_ts: i64, now_slot: u64) -> (r: Result<
        bool,
        TerminatorError,
    >)
        ensures
            status_step(old(self).status, final(self).status),
            old(self).wf() ==> final(self).wf(),
            r == Ok::<bool, TerminatorError>(
                old(self).spec_is_active() && old(self).inactive_at(now_ts),
            ),
            old(self).spec_is_active() && old(self).inactive_at(now_ts) ==> *final(self) == old(
                self,
            ).terminated_for_inactivity(now_slot),
            !(old(self).spec_is_active() && old(self).inactive_at(now_ts)) ==> *final(self)
                == *old(self),
    {
        if !self.is_active() {
            return Ok(false);
        }
        let elapsed: i128 = (now_ts as i128) - (self.last_activity_ts as i128);
        if elapsed < INACTIVITY_TIMEOUT_SECONDS as i128 {
            return Ok(false);
        }
        let (yes_price, no_price) = derive_final_prices(
            self.last_trade_yes_price,
            self.last_trade_no_price,
        );
        self.last_trade_yes_price = Some(yes_price);
        self.last_trade_no_price = Some(no_price);
        self.final_yes_price = Some(yes_price);
        self.final_no_price = Some(no_price);
        self.termination_trade_slot = Some(now_slot);
        self.status = MarketStatus::Terminated;
        Ok(true)
    }

    /// Terminates an active market at the given final prices.
    pub fn terminate_market(&mut self, yes_price: u64, no_price: u64, trade_slot: u64) -> (r:
        Result<(), TerminatorError>)
        ensures
            status_step(old(self).status, final(self).status),
            old(self).wf() ==> final(self).wf(),
            old(self).spec_is_active() ==> r == Ok::<(), TerminatorError>(()) && *final(self)
                == old(self).terminated_at(yes_price, no_price, trade_slot),
            !old(self).spec_is_active() ==> r == Err::<(), TerminatorError>(
                TerminatorError::MarketNotActive,
            ) && *final(self) == *old(self),
    {
        if !self.is_active() {
            return Err(TerminatorError::MarketNotActive);
        }
        self.final_yes_price = Some(yes_price);
        self.final_no_price = Some(no_price);
        self.termination_trade_slot = Some(trade_slot);
        self.status = MarketStatus::Terminated;
        Ok(())
    }

    /// Checks that the market can be resolved against the vault.
    pub fn check_resolvable(&self, vault_balance: u64) -> (r: Result<(), TerminatorError>)
        ensures
            r == match self.resolution_rejection(vault_balance) {
                Some(e) => Err::<(), TerminatorError>(e),
                None => Ok::<(), TerminatorError>(()),
            },
    {
        if self.total_yes_supply != self.total_no_supply || self.total_position_collateral
            != self.total_yes_supply {
            return Err(TerminatorError::InvalidInput);
        }
        if vault_balance != self.total_position_collateral {
            return Err(TerminatorError::InsufficientVaultBalance);
        }
        Ok(())
    }

    /// Locks the vault balance as the redemption pool and settles the
    /// creator's accrued incentive as far as the creator treasury allows.
    /// Returns the amount to pay the creator.
    pub fn lock_for_redemption(&mut self, vault_balance: u64, creator_treasury_balance: u64) -> (payout:
        u64)
        ensures
            status_step(old(self).status, final(self).status),
            old(self).wf() ==> final(self).wf(),
            payout == old(self).creator_payout(creator_treasury_balance),
            *final(self) == old(self).locked_for_redemption(
                vault_balance,
                creator_treasury_balance,
            ),
            final(self).redemption_bounded(),
    {
        self.total_redeemable_usdc = vault_balance;
        self.total_redeemed_usdc = 0;
        if creator_treasury_balance >= self.creator_incentive_accrued {
            let payout = self.creator_incentive_accrued;
            self.creator_incentive_accrued = 0;
            payout
        } else {
            0
        }
    }

    /// Advances the termination-check nonce and returns the new value.
    pub fn increment_trade_nonce(&mut self) -> (r: Result<u64, TerminatorError>)
        ensures
            status_step(old(self).status, final(self).status),
            old(self).wf() ==> final(self).wf(),
            old(self).trade_nonce < u64::MAX ==> r == Ok::<u64, TerminatorError>(
                (old(self).trade_nonce + 1) as u64,
            ) && *final(self) == (Market {
                trade_nonce: (old(self).trade_nonce + 1) as u64,
                ..*old(self)
            }),
            old(self).trade_nonce == u64::MAX ==> r == Err::<u64, TerminatorError>(
                TerminatorError::ArithmeticOverflow,
            ) && *final(self) == *old(self),
    {
        match self.trade_nonce.checked_add(1) {
            Some(next) => {
                self.trade_nonce = next;
                Ok(next)
            },
            None => Err(TerminatorError::ArithmeticOverflow),
        }
    }

    /// Derives the random value of one termination check from the oracle
    /// value and what makes the check unique: market, caller, the market's
    /// current check nonce and the slot.
    pub fn derive_unique_randomness(
        &self,
        vrf_value: &[u8; 32],
        market_key: &Pubkey,
        user_key: &Pubkey,
        slot: u64,
    ) -> (out: [u8; 32])
        ensures
            out == blake3_digest(
                randomness_preimage(vrf_value@, *market_key, *user_key, self.trade_nonce, slot),
            ),
    {
        unique_randomness(vrf_value, market_key, user_key, self.trade_nonce, slot)
    }

    /// Reduces a derived random value to an integer in `[0, max)`.
    pub fn get_unique_random_u64(unique_randomness: &[u8; 32], max: u64) -> (draw: u64)
        requires
            max > 0,
        ensures
            draw == random_draw(unique_randomness@, max),
            draw < max,
    {
        let value = read_u64_le(unique_randomness.as_slice(), 0);
        value % max
    }

    /// Checks that as many YES as NO shares exist.
    pub fn verify_position_invariants(&self) -> (r: Result<(), TerminatorError>)
        ensures
            self.total_yes_supply == self.total_no_supply ==> r == Ok::<(), TerminatorError>(()),
            self.total_yes_supply != self.total_no_supply ==> r == Err::<(), TerminatorError>(
                TerminatorError::InvalidInput,
            ),
    {
        if self.total_yes_supply == self.total_no_supply {
            Ok(())
        } else {
            Err(TerminatorError::InvalidInput)
        }
    }

    /// Checks that the vault covers the position collateral.
    pub fn verify_vault_invariant(&self, vault_balance: u64) -> (r: Result<(), TerminatorError>)
        ensures
            vault_balance >= self.total_position_collateral ==> r == Ok::<(), TerminatorError>(
                (),
            ),
            vault_balance < self.total_position_collateral ==> r == Err::<(), TerminatorError>(
                TerminatorError::InsufficientVaultBalance,
            ),
    {
        if vault_balance >= self.total_position_collateral {
            Ok(())
        } else {
            Err(TerminatorError::InsufficientVaultBalance)
        }
    }

    /// Runs both checks, the supply check first.
    pub fn verify_all_invariants(&self, vault_balance: u64) -> (r: Result<(), TerminatorError>)
        ensures
            self.total_yes_supply != self.total_no_supply ==> r == Err::<(), TerminatorError>(
                TerminatorError::InvalidInput,
            ),
            self.total_yes_supply == self.total_no_supply && vault_balance
                < self.total_position_collateral ==> r == Err::<(), TerminatorError>(
                TerminatorError::InsufficientVaultBalance,
            ),
            self.total_yes_supply == self.total_no_supply && vault_balance
                >= self.total_position_collateral ==> r == Ok::<(), TerminatorError>(()),
    {
        self.verify_position_invariants()?;
        self.verify_vault_invariant(vault_balance)?;
        Ok(())
    }
}

/// A market that never traded terminates for inactivity at exactly one
/// half for each outcome, and whatever the last prices were, the locked
/// pair sums to 1.0.
pub proof fn lemma_inactivity_final_prices(market: Market, now_slot: u64)
    ensures
        market.last_trade_yes_price is None && market.last_trade_no_price is None ==> {
            &&& market.terminated_for_inactivity(now_slot).final_yes_price == Some(500_000u64)
            &&& market.terminated_for_inactivity(now_slot).final_no_price == Some(500_000u64)
        },
        market.terminated_for_inactivity(now_slot).final_yes_price->Some_0
            + market.terminated_for_inactivity(now_slot).final_no_price->Some_0 == PRICE_SCALE,
{
}

} // verus!
