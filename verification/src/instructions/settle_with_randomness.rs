//! The randomized termination check.
//!
//! After a trade whose user opted in, the market is terminated with the
//! probability it was configured with. The draw is derived from the
//! oracle's value together with the market, the caller, a nonce that
//! advances on every check and the slot, so that no two checks share a
//! draw. Every check reports its result, terminated or not.

use vstd::prelude::*;
use crate::bytes::le_u64;
use crate::clock::Clock;
use crate::constants::{MAX_RANDOMNESS_AGE_SLOTS, MAX_SETTLEMENT_THRESHOLD, RANDOM_RANGE};
use crate::errors::TerminatorError;
use crate::events::{MarketSettled, MarketTerminated, TerminationCheckResult};
use crate::hashing::blake3_digest;
use crate::pubkey::{lemma_key_equality, Pubkey};
use crate::states::market::{
    random_draw,
    randomness_preimage,
    status_step,
    unique_randomness,
    Market,
    MarketStatus,
};
use crate::switchboard_lite::{
    switchboard_program_id,
    switchboard_program_key,
    RandomnessAccountData,
    MIN_RANDOMNESS_ACCOUNT_LEN,
};
use crate::utils::{price_sum_in_tolerance, validate_price_sum};

verus! {

/// Largest drift allowed between the prices a check names and the prices
/// the market last recorded.
pub const PRICE_DRIFT_TOLERANCE: u64 = 100;

/// What the caller of a termination check asserts.
#[derive(Clone, Copy, Debug)]
pub struct SettleWithRandomnessParams {
    /// The termination threshold on the scale of the draw: the market's
    /// termination probability times one hundred.
    pub settlement_threshold: u64,
    /// YES price of the last trade.
    pub last_trade_yes_price: u64,
    /// NO price of the last trade.
    pub last_trade_no_price: u64,
    /// Slot of the last trade.
    pub last_trade_slot: u64,
    /// Whether the user asked and paid for the check.
    pub user_opted_termination_check: bool,
}

/// The identities of the accounts a check runs on.
#[derive(Clone, Copy, Debug)]
pub struct SettleWithRandomness {
    /// The key of the market record.
    pub market: Pubkey,
    /// Who asks for the check.
    pub caller: Pubkey,
}

/// An oracle randomness account as the host presents it.
#[derive(Clone, Debug)]
pub struct RandomnessAccount {
    pub key: Pubkey,
    /// The program that owns the account.
    pub owner: Pubkey,
    pub data: Vec<u8>,
}

/// What a termination did, for the caller to carry out and emit.
#[derive(Clone, Copy, Debug)]
pub struct Termination {
    /// Amount to pay the creator out of the creator treasury.
    pub creator_payout: u64,
    pub settled: MarketSettled,
    pub terminated: MarketTerminated,
}

/// The result of one call.
#[derive(Clone, Copy, Debug)]
pub enum CheckOutcome {
    /// No check was made: the user did not opt in, or the market has
    /// random termination switched off.
    Skipped,
    /// A check was made.
    Checked { result: TerminationCheckResult, termination: Option<Termination> },
}

/// The absolute difference of two prices.
pub open spec fn price_drift(a: u64, b: u64) -> int {
    if a > b {
        a - b
    } else {
        b - a
    }
}

/// The first reason, if any, that keeps a call from being looked at: the
/// market is resolved already, has no reference trade, or the randomness
/// account is not the one the market is bound to.
pub open spec fn check_refusal(market: Market, randomness_key: Pubkey) -> Option<TerminatorError> {
    if !market.spec_is_active() {
        Some(TerminatorError::MarketNotActive)
    } else if market.reference_agent is None {
        Some(TerminatorError::MissingReferenceAgent)
    } else if randomness_key != market.randomness_account {
        Some(TerminatorError::InvalidSwitchboardOracle)
    } else {
        None
    }
}

/// Whether a call makes a check at all.
pub open spec fn check_wanted(market: Market, params: SettleWithRandomnessParams) -> bool {
    params.user_opted_termination_check && market.random_termination_enabled
}

/// The first reason, if any, to refuse a check: the threshold is not the
/// market's; the prices do not sum to 1.0 or drift from the recorded ones;
/// the supply is out of balance or the vault does not match it; the
/// randomness account is not the oracle's, is too short, belongs to
/// another queue or is stale; the check nonce is exhausted.
pub open spec fn check_rejection(
    clock: Clock,
    market: Market,
    vault_balance: u64,
    randomness_owner: Pubkey,
    randomness_data: Seq<u8>,
    params: SettleWithRandomnessParams,
) -> Option<TerminatorError> {
    let yes = params.last_trade_yes_price;
    let no = params.last_trade_no_price;
    if market.termination_probability * 100 > MAX_SETTLEMENT_THRESHOLD
        || params.settlement_threshold != market.termination_probability * 100 {
        Some(TerminatorError::InvalidInput)
    } else if yes + no > u64::MAX {
        Some(TerminatorError::ArithmeticOverflow)
    } else if !price_sum_in_tolerance(yes, no) {
        Some(TerminatorError::InvalidInput)
    } else if market.last_trade_yes_price is Some && market.last_trade_no_price is Some && (
    price_drift(market.last_trade_yes_price->Some_0, yes) > PRICE_DRIFT_TOLERANCE || price_drift(
        market.last_trade_no_price->Some_0,
        no,
    ) > PRICE_DRIFT_TOLERANCE) {
        Some(TerminatorError::InvalidInput)
    } else if market.resolution_rejection(vault_balance) is Some {
        market.resolution_rejection(vault_balance)
    } else if randomness_owner@ != switchboard_program_id() || randomness_data.len()
        < MIN_RANDOMNESS_ACCOUNT_LEN || randomness_data.subrange(8, 40)
        != market.switchboard_queue@ {
        Some(TerminatorError::InvalidSwitchboardOracle)
    } else if clock.slot - le_u64(randomness_data.subrange(72, 80)) > MAX_RANDOMNESS_AGE_SLOTS {
        Some(TerminatorError::SwitchboardUpdateRequired)
    } else if market.trade_nonce == u64::MAX {
        Some(TerminatorError::ArithmeticOverflow)
    } else {
        None
    }
}

/// The market after a check was admitted: prices and slot of the last
/// trade are taken from the call where the market had none, and the check
/// nonce has advanced.
pub open spec fn market_checked(market: Market, params: SettleWithRandomnessParams) -> Market {
    let both = market.last_trade_yes_price is Some && market.last_trade_no_price is Some;
    Market {
        last_trade_yes_price: if both {
            market.last_trade_yes_price
        } else {
            Some(params.last_trade_yes_price)
        },
        last_trade_no_price: if both {
            market.last_trade_no_price
        } else {
            Some(params.last_trade_no_price)
        },
        last_trade_slot: if market.last_trade_slot is Some {
            market.last_trade_slot
        } else {
            Some(params.last_trade_slot)
        },
        trade_nonce: (market.trade_nonce + 1) as u64,
        ..market
    }
}

/// The report of a check with the given draw.
pub open spec fn check_report(
    accounts: SettleWithRandomness,
    clock: Clock,
    market: Market,
    params: SettleWithRandomnessParams,
    draw: u64,
) -> TerminationCheckResult {
    TerminationCheckResult {
        market: accounts.market,
        user: accounts.caller,
        trade_nonce: market.trade_nonce,
        random_value: draw,
        threshold: params.settlement_threshold,
        was_terminated: draw < params.settlement_threshold,
        slot: clock.slot,
        timestamp: clock.unix_timestamp,
    }
}

/// What the derived random value decides for an admitted check. The draw
/// is the value reduced to `[0, 100000001)`; below the threshold the
/// market terminates at the prices the call names, its redemption pool is
/// locked and the creator is paid as far as the treasury allows. A market
/// that terminates must know the outcome of its last trade.
pub open spec fn check_conclusion(
    accounts: SettleWithRandomness,
    clock: Clock,
    market: Market,
    vault_balance: u64,
    creator_treasury_balance: u64,
    params: SettleWithRandomnessParams,
    unique_randomness: [u8; 32],
) -> Result<(Market, CheckOutcome), TerminatorError> {
    let draw = random_draw(unique_randomness@, RANDOM_RANGE) as u64;
    let result = check_report(accounts, clock, market, params, draw);
    if draw >= params.settlement_threshold {
        Ok((market, CheckOutcome::Checked { result, termination: None }))
    } else if !market.spec_is_active() {
        Err(TerminatorError::MarketNotActive)
    } else if market.last_trade_outcome is None {
        Err(TerminatorError::MissingLastTradeOutcome)
    } else if market.reference_agent is None {
        Err(TerminatorError::MissingReferenceAgent)
    } else {
        Ok(
            (
                market.terminated_at(
                    params.last_trade_yes_price,
                    params.last_trade_no_price,
                    params.last_trade_slot,
                ).locked_for_redemption(vault_balance, creator_treasury_balance),
                CheckOutcome::Checked {
                    result,
                    termination: Some(
                        Termination {
                            creator_payout: market.creator_payout(creator_treasury_balance),
                            settled: MarketSettled {
                                market: accounts.market,
                                settlement_index: 0,
                                winning_outcome: market.last_trade_outcome->Some_0,
                                reference_agent: market.reference_agent->Some_0,
                                vault_balance,
                                total_rewards: vault_balance,
                                timestamp: clock.unix_timestamp,
                            },
                            terminated: MarketTerminated {
                                market: accounts.market,
                                reason: 0,
                                final_yes_price: params.last_trade_yes_price,
                                final_no_price: params.last_trade_no_price,
                                termination_slot: params.last_trade_slot,
                                timestamp: clock.unix_timestamp,
                            },
                        },
                    ),
                },
            ),
        )
    }
}

/// What a call does, as a whole, given the random value derived for it.
pub open spec fn settle_with_randomness_result(
    accounts: SettleWithRandomness,
    clock: Clock,
    market: Market,
    vault_balance: u64,
    creator_treasury_balance: u64,
    randomness: RandomnessAccount,
    params: SettleWithRandomnessParams,
    unique_randomness: [u8; 32],
) -> Result<(Market, CheckOutcome), TerminatorError> {
    if check_refusal(market, randomness.key) is Some {
        Err(check_refusal(market, randomness.key)->Some_0)
    } else if !check_wanted(market, params) {
        Ok((market, CheckOutcome::Skipped))
    } else if check_rejection(
        clock,
        market,
        vault_balance,
        randomness.owner,
        randomness.data@,
        params,
    ) is Some {
        Err(
            check_rejection(
                clock,
                market,
                vault_balance,
                randomness.owner,
                randomness.data@,
                params,
            )->Some_0,
        )
    } else {
        check_conclusion(
            accounts,
            clock,
            market_checked(market, params),
            vault_balance,
            creator_treasury_balance,
            params,
            unique_randomness,
        )
    }
}

/// The random value a call derives: the digest of the oracle value found
/// in the randomness account, the market, the caller, the advanced check
/// nonce and the slot.
pub open spec fn derived_randomness(
    accounts: SettleWithRandomness,
    clock: Clock,
    market: Market,
    randomness_data: Seq<u8>,
) -> [u8; 32] {
    blake3_digest(
        randomness_preimage(
            randomness_data.subrange(40, 72),
            accounts.market,
            accounts.caller,
            (market.trade_nonce + 1) as u64,
            clock.slot,
        ),
    )
}

/// Runs the checks of an admitted call and returns the oracle's value.
pub fn admit_check(
    clock: &Clock,
    market: &Market,
    vault_balance: u64,
    randomness: &RandomnessAccount,
    params: &SettleWithRandomnessParams,
) -> (r: Result<[u8; 32], TerminatorError>)
    ensures
        match check_rejection(
            *clock,
            *market,
            vault_balance,
            randomness.owner,
            randomness.data@,
            *params,
        ) {
            Some(e) => r == Err::<[u8; 32], TerminatorError>(e),
            None => r is Ok && r->Ok_0@ == randomness.data@.subrange(40, 72),
        },
{
    let expected_threshold = (market.termination_probability as u64) * 100;
    if expected_threshold > MAX_SETTLEMENT_THRESHOLD || params.settlement_threshold
        != expected_threshold {
        return Err(TerminatorError::InvalidInput);
    }
    validate_price_sum(params.last_trade_yes_price, params.last_trade_no_price)?;
    match (market.last_trade_yes_price, market.last_trade_no_price) {
        (Some(yes), Some(no)) => {
            let yes_diff = if yes > params.last_trade_yes_price {
                yes - params.last_trade_yes_price
            } else {
                params.last_trade_yes_price - yes
            };
            let no_diff = if no > params.last_trade_no_price {
                no - params.last_trade_no_price
            } else {
                params.last_trade_no_price - no
            };
            if !(yes_diff <= PRICE_DRIFT_TOLERANCE && no_diff <= PRICE_DRIFT_TOLERANCE) {
                return Err(TerminatorError::InvalidInput);
            }
        },
        _ => {},
    }
    market.check_resolvable(vault_balance)?;
    let oracle = switchboard_program_key();
    proof {
        lemma_key_equality(randomness.owner, oracle);
    }
    if !(randomness.owner == oracle) {
        return Err(TerminatorError::InvalidSwitchboardOracle);
    }
    let parsed = match RandomnessAccountData::parse(randomness.data.as_slice()) {
        Ok(parsed) => parsed,
        Err(_) => { return Err(TerminatorError::InvalidSwitchboardOracle); },
    };
    proof {
        lemma_key_equality(parsed.queue, market.switchboard_queue);
    }
    if !(parsed.queue == market.switchboard_queue) {
        return Err(TerminatorError::InvalidSwitchboardOracle);
    }
    let vrf_value = match parsed.get_value(clock.slot) {
        Ok(value) => value,
        Err(_) => { return Err(TerminatorError::SwitchboardUpdateRequired); },
    };
    if market.trade_nonce == u64::MAX {
        return Err(TerminatorError::ArithmeticOverflow);
    }
    Ok(vrf_value)
}

/// Records what an admitted check changes before the draw: the last-trade
/// data the market lacked and the advanced check nonce.
pub fn note_check(market: &mut Market, params: &SettleWithRandomnessParams)
    requires
        old(market).trade_nonce < u64::MAX,
    ensures
        status_step(old(market).status, final(market).status),
        old(market).wf() ==> final(market).wf(),
        *final(market) == market_checked(*old(market), *params),
{
    match (market.last_trade_yes_price, market.last_trade_no_price) {
        (Some(_), Some(_)) => {},
        _ => {
            market.last_trade_yes_price = Some(params.last_trade_yes_price);
            market.last_trade_no_price = Some(params.last_trade_no_price);
        },
    }
    if market.last_trade_slot.is_none() {
        market.last_trade_slot = Some(params.last_trade_slot);
    }
    market.trade_nonce = market.trade_nonce + 1;
}

/// Decides an admitted check from the random value derived for it: draws,
/// compares with the threshold and, below it, terminates the market.
pub fn conclude_check(
    accounts: &SettleWithRandomness,
    clock: &Clock,
    market: &mut Market,
    vault_balance: u64,
    creator_treasury_balance: u64,
    params: &SettleWithRandomnessParams,
    unique_randomness: &[u8; 32],
) -> (r: Result<CheckOutcome, TerminatorError>)
    ensures
        status_step(old(market).status, final(market).status),
        old(market).wf() ==> final(market).wf(),
        match check_conclusion(
            *accounts,
            *clock,
            *old(market),
            vault_balance,
            creator_treasury_balance,
            *params,
            *unique_randomness,
        ) {
            Ok((after, outcome)) => r == Ok::<CheckOutcome, TerminatorError>(outcome) && *final(market)
                == after,
            Err(e) => r == Err::<CheckOutcome, TerminatorError>(e) && *final(market)
                == *old(market),
        },
        old(market).status != MarketStatus::Active ==> final(market).status == old(market).status,
{
    let draw = Market::get_unique_random_u64(unique_randomness, RANDOM_RANGE);
    let was_terminated = draw < params.settlement_threshold;
    let result = TerminationCheckResult {
        market: accounts.market,
        user: accounts.caller,
        trade_nonce: market.trade_nonce,
        random_value: draw,
        threshold: params.settlement_threshold,
        was_terminated,
        slot: clock.slot,
        timestamp: clock.unix_timestamp,
    };
    if !was_terminated {
        return Ok(CheckOutcome::Checked { result, termination: None });
    }
    if !market.is_active() {
        return Err(TerminatorError::MarketNotActive);
    }
    let winning_outcome = match market.last_trade_outcome {
        Some(outcome) => outcome,
        None => { return Err(TerminatorError::MissingLastTradeOutcome); },
    };
    let reference_agent = match market.reference_agent {
        Some(agent) => agent,
        None => { return Err(TerminatorError::MissingReferenceAgent); },
    };
    let _ = market.terminate_market(
        params.last_trade_yes_price,
        params.last_trade_no_price,
        params.last_trade_slot,
    );
    let creator_payout = market.lock_for_redemption(vault_balance, creator_treasury_balance);
    Ok(
        CheckOutcome::Checked {
            result,
            termination: Some(
                Termination {
                    creator_payout,
                    settled: MarketSettled {
                        market: accounts.market,
                        settlement_index: 0,
                        winning_outcome,
                        reference_agent,
                        vault_balance,
                        total_rewards: vault_balance,
                        timestamp: clock.unix_timestamp,
                    },
                    terminated: MarketTerminated {
                        market: accounts.market,
                        reason: 0,
                        final_yes_price: params.last_trade_yes_price,
                        final_no_price: params.last_trade_no_price,
                        termination_slot: params.last_trade_slot,
                        timestamp: clock.unix_timestamp,
                    },
                },
            ),
        },
    )
}

/// Runs a termination check, all or nothing. A call that makes no check
/// changes nothing. A check that does not terminate still advances the
/// nonce and reports its draw. A failure leaves the market as it was.
pub fn handler(
    accounts: &SettleWithRandomness,
    clock: &Clock,
    market: &mut Market,
    vault_balance: u64,
    creator_treasury_balance: u64,
    randomness: &RandomnessAccount,
    params: &SettleWithRandomnessParams,
) -> (r: Result<CheckOutcome, TerminatorError>)
    ensures
        status_step(old(market).status, final(market).status),
        old(market).wf() ==> final(market).wf(),
        match settle_with_randomness_result(
            *accounts,
            *clock,
            *old(market),
            vault_balance,
            creator_treasury_balance,
            *randomness,
            *params,
            derived_randomness(*accounts, *clock, *old(market), randomness.data@),
        ) {
            Ok((after, outcome)) => r == Ok::<CheckOutcome, TerminatorError>(outcome) && *final(market)
                == after,
            Err(e) => r == Err::<CheckOutcome, TerminatorError>(e) && *final(market)
                == *old(market),
        },
        old(market).status != MarketStatus::Active ==> *final(market) == *old(market),
{
    if !market.is_active() {
        return Err(TerminatorError::MarketNotActive);
    }
    if market.reference_agent.is_none() {
        return Err(TerminatorError::MissingReferenceAgent);
    }
    if !(randomness.key == market.randomness_account) {
        return Err(TerminatorError::InvalidSwitchboardOracle);
    }
    if !params.user_opted_termination_check || !market.random_termination_enabled {
        return Ok(CheckOutcome::Skipped);
    }
    let vrf_value = admit_check(clock, market, vault_balance, randomness, params)?;
    let unique = unique_randomness(
        &vrf_value,
        &accounts.market,
        &accounts.caller,
        market.trade_nonce + 1,
        clock.slot,
    );
    let draw = Market::get_unique_random_u64(&unique, RANDOM_RANGE);
    if draw < params.settlement_threshold && market.last_trade_outcome.is_none() {
        return Err(TerminatorError::MissingLastTradeOutcome);
    }
    note_check(market, params);
    conclude_check(
        accounts,
        clock,
        market,
        vault_balance,
        creator_treasury_balance,
        params,
        &unique,
    )
}

} // verus!
