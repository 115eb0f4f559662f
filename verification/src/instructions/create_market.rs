//! Creating a market.

use vstd::prelude::*;
use crate::clock::Clock;
use crate::constants::{
    DEFAULT_TERMINATION_PROBABILITY,
    MARKET_CREATION_FEE,
    MAX_DESCRIPTION_LEN,
    MAX_OUTCOME_DESCRIPTION_LEN,
    MAX_QUESTION_LEN,
};
use crate::errors::TerminatorError;
use crate::events::{MarketCreated, MarketCreationFeeCollected};
use crate::instructions::settle_with_randomness::RandomnessAccount;
use crate::pubkey::{lemma_key_equality, Pubkey};
use crate::states::global::Global;
use crate::states::market::{Market, MarketStatus};
use crate::switchboard_lite::{
    switchboard_program_id,
    switchboard_program_key,
    RandomnessAccountData,
    MIN_RANDOMNESS_ACCOUNT_LEN,
};

verus! {

/// What the creator says about the market.
#[derive(Clone, Debug)]
pub struct CreateMarketParams {
    pub question: String,
    pub description: String,
    pub yes_description: String,
    pub no_description: String,
    /// Identifier chosen by the creator.
    pub market_id: [u8; 32],
}

/// The identities of the accounts a creation runs on.
#[derive(Clone, Copy, Debug)]
pub struct CreateMarket {
    /// Who creates the market.
    pub creator: Pubkey,
    /// The key of the exchange-wide record.
    pub global: Pubkey,
    /// The key of the market record.
    pub market: Pubkey,
    /// The oracle queue the market is bound to.
    pub switchboard_queue: Pubkey,
    /// Address bump of the market record.
    pub market_bump: u8,
}

/// What a creation hands back: the new market and the events. The caller
/// moves the creation fee from the creator to the platform treasury.
#[derive(Clone, Debug)]
pub struct CreatedMarket {
    pub market: Market,
    pub created: MarketCreated,
    pub fee_collected: MarketCreationFeeCollected,
}

/// The length of a text in UTF-8 bytes, as a machine word.
pub open spec fn utf8_len(text: String) -> usize {
    vstd::utf8::encode_utf8(text@).len() as usize
}

/// The first reason, if any, to refuse a creation: a text is too long;
/// the running total of creation fees would overflow; the randomness
/// account is not the oracle's, is too short or belongs to another queue.
pub open spec fn creation_rejection(
    accounts: CreateMarket,
    global: Global,
    randomness: RandomnessAccount,
    params: CreateMarketParams,
) -> Option<TerminatorError> {
    if utf8_len(params.question) > MAX_QUESTION_LEN || utf8_len(params.description)
        > MAX_DESCRIPTION_LEN || utf8_len(params.yes_description) > MAX_OUTCOME_DESCRIPTION_LEN
        || utf8_len(params.no_description) > MAX_OUTCOME_DESCRIPTION_LEN {
        Some(TerminatorError::InvalidInput)
    } else if global.total_creation_fees_collected + MARKET_CREATION_FEE > u64::MAX {
        Some(TerminatorError::ArithmeticOverflow)
    } else if randomness.owner@ != switchboard_program_id() || randomness.data@.len()
        < MIN_RANDOMNESS_ACCOUNT_LEN || randomness.data@.subrange(8, 40)
        != accounts.switchboard_queue@ {
        Some(TerminatorError::InvalidSwitchboardOracle)
    } else {
        None
    }
}

/// A market as it is created: active, empty, never traded, with random
/// termination on at the default probability.
pub open spec fn new_market(
    accounts: CreateMarket,
    clock: Clock,
    randomness_key: Pubkey,
    params: CreateMarketParams,
) -> Market {
    Market {
        creator: accounts.creator,
        global: accounts.global,
        market_id: params.market_id,
        question: params.question,
        description: params.description,
        yes_description: params.yes_description,
        no_description: params.no_description,
        created_at: clock.unix_timestamp,
        last_activity_ts: clock.unix_timestamp,
        status: MarketStatus::Active,
        switchboard_queue: accounts.switchboard_queue,
        randomness_account: randomness_key,
        outcome_token_mints: vstd::array::spec_array_fill_for_copy_type::<Pubkey, 2>(
            Pubkey::zero(),
        ),
        total_position_collateral: 0,
        total_yes_supply: 0,
        total_no_supply: 0,
        total_redeemable_usdc: 0,
        total_redeemed_usdc: 0,
        last_trade_outcome: None,
        reference_agent: None,
        total_trades: 0,
        last_trade_slot: None,
        last_trade_yes_price: None,
        last_trade_no_price: None,
        random_termination_enabled: true,
        termination_probability: DEFAULT_TERMINATION_PROBABILITY,
        final_yes_price: None,
        final_no_price: None,
        termination_trade_slot: None,
        trade_nonce: 0,
        settle_trade_nonce: 0,
        creator_incentive_accrued: 0,
        is_paused: false,
        paused_at: None,
        bump: accounts.market_bump,
    }
}

/// Creates a market and counts its creation fee. On failure the
/// exchange-wide record is left as it was.
pub fn handler(
    accounts: &CreateMarket,
    clock: &Clock,
    global: &mut Global,
    randomness: &RandomnessAccount,
    params: CreateMarketParams,
) -> (r: Result<CreatedMarket, TerminatorError>)
    ensures
        match creation_rejection(*accounts, *old(global), *randomness, params) {
            Some(e) => r is Err && r->Err_0 == e && *final(global) == *old(global),
            None => r is Ok && r->Ok_0.market == new_market(
                *accounts,
                *clock,
                randomness.key,
                params,
            ) && r->Ok_0.created == (MarketCreated {
                market: accounts.market,
                creator: accounts.creator,
                question: params.question,
                description: params.description,
                yes_description: params.yes_description,
                no_description: params.no_description,
                market_id: params.market_id,
                timestamp: clock.unix_timestamp,
            }) && r->Ok_0.fee_collected == (MarketCreationFeeCollected {
                market: accounts.market,
                creator: accounts.creator,
                fee_amount: MARKET_CREATION_FEE,
                slot: clock.slot,
                timestamp: clock.unix_timestamp,
            }) && *final(global) == (Global {
                total_creation_fees_collected: (old(global).total_creation_fees_collected
                    + MARKET_CREATION_FEE) as u64,
                ..*old(global)
            }),
        },
        r is Ok ==> r->Ok_0.market.wf() && r->Ok_0.market.supply_balanced(),
{
    if params.question.as_str().len() > MAX_QUESTION_LEN || params.description.as_str().len()
        > MAX_DESCRIPTION_LEN || params.yes_description.as_str().len()
        > MAX_OUTCOME_DESCRIPTION_LEN || params.no_description.as_str().len()
        > MAX_OUTCOME_DESCRIPTION_LEN {
        return Err(TerminatorError::InvalidInput);
    }
    let fees_collected = match global.total_creation_fees_collected.checked_add(
        MARKET_CREATION_FEE,
    ) {
        Some(total) => total,
        None => { return Err(TerminatorError::ArithmeticOverflow); },
    };
    let oracle = switchboard_program_key();
    proof {
        lemma_key_equality(randomness.owner, oracle);
    }
    if !(randomness.owner == oracle) {
        return Err(TerminatorError::InvalidSwitchboardOracle);
    }
    let parsed = match RandomnessAccountData::parse(randomness.data.as_slice()) {
        Ok(parsed) => parsed,
        Err(_) => { return Err(TerminatorError::InvalidSwitchboardOracle); },
    };
    proof {
        lemma_key_equality(parsed.queue, accounts.switchboard_queue);
    }
    if !(parsed.queue == accounts.switchboard_queue) {
        return Err(TerminatorError::InvalidSwitchboardOracle);
    }
    let created = MarketCreated {
        market: accounts.market,
        creator: accounts.creator,
        question: params.question.clone(),
        description: params.description.clone(),
        yes_description: params.yes_description.clone(),
        no_description: params.no_description.clone(),
        market_id: params.market_id,
        timestamp: clock.unix_timestamp,
    };
    let market = Market {
        creator: accounts.creator,
        global: accounts.global,
        market_id: params.market_id,
        question: params.question,
        description: params.description,
        yes_description: params.yes_description,
        no_description: params.no_description,
        created_at: clock.unix_timestamp,
        last_activity_ts: clock.unix_timestamp,
        status: MarketStatus::Active,
        switchboard_queue: accounts.switchboard_queue,
        randomness_account: randomness.key,
        outcome_token_mints: [Pubkey::default();2],
        total_position_collateral: 0,
        total_yes_supply: 0,
        total_no_supply: 0,
        total_redeemable_usdc: 0,
        total_redeemed_usdc: 0,
        last_trade_outcome: None,
        reference_agent: None,
        total_trades: 0,
        last_trade_slot: None,
        last_trade_yes_price: None,
        last_trade_no_price: None,
        random_termination_enabled: true,
        termination_probability: DEFAULT_TERMINATION_PROBABILITY,
        final_yes_price: None,
        final_no_price: None,
        termination_trade_slot: None,
        trade_nonce: 0,
        settle_trade_nonce: 0,
        creator_incentive_accrued: 0,
        is_paused: false,
        paused_at: None,
        bump: accounts.market_bump,
    };
    assert(market.outcome_token_mints =~= vstd::array::spec_array_fill_for_copy_type::<Pubkey, 2>(
        Pubkey::zero(),
    ));
    global.total_creation_fees_collected = fees_collected;
    Ok(
        CreatedMarket {
            market,
            created,
            fee_collected: MarketCreationFeeCollected {
                market: accounts.market,
                creator: accounts.creator,
                fee_amount: MARKET_CREATION_FEE,
                slot: clock.slot,
                timestamp: clock.unix_timestamp,
            },
        },
    )
}

} // verus!
