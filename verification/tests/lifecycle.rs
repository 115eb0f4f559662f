use catallaxyz::clock::Clock;
use catallaxyz::errors::TerminatorError;
use catallaxyz::instructions::create_market::{
    handler as create_market, CreateMarket, CreateMarketParams,
};
use catallaxyz::instructions::ed25519_verify::{
    ed25519_program_key, Instruction, TransactionInstructions,
};
use catallaxyz::instructions::initialize::{handler as initialize, Initialize, InitializeParams};
use catallaxyz::instructions::merge_position_single::{
    handler as merge, MergePositionSingle, MergePositionSingleParams,
};
use catallaxyz::instructions::redeem_single_outcome::{
    handler as redeem, RedeemSingleOutcome, RedeemSingleOutcomeParams,
};
use catallaxyz::instructions::settle_market::{handler as settle_market, SettleMarket};
use catallaxyz::instructions::settle_trade::{
    compute_trade_amounts, handler as settle_trade, settle_fill, FillInput, SettleTrade,
    SettleTradeMessage, SettleTradeParams, TradeAmounts, SETTLE_TRADE_MESSAGE_SIZE,
};
use catallaxyz::instructions::settle_with_randomness::{
    conclude_check, handler as settle_with_randomness, CheckOutcome, RandomnessAccount,
    SettleWithRandomness, SettleWithRandomnessParams,
};
use catallaxyz::instructions::split_position_single::{
    handler as split, SplitPositionSingle, SplitPositionSingleParams,
};
use catallaxyz::instructions::terminate_if_inactive::{
    handler as terminate_if_inactive, market_is_inactive, TerminateIfInactive,
};
use catallaxyz::pubkey::Pubkey;
use catallaxyz::states::global::Global;
use catallaxyz::states::ledger::Holdings;
use catallaxyz::states::market::{
    randomness_preimage_bytes, unique_randomness, Market, MarketStatus,
};
use catallaxyz::states::user_balance::UserBalance;
use catallaxyz::states::user_position::UserPosition;
use catallaxyz::switchboard_lite::switchboard_program_key;

const AUTHORITY: u8 = 1;
const GLOBAL: u8 = 2;
const MARKET: u8 = 3;
const TAKER: u8 = 4;
const MAKER: u8 = 5;
const QUEUE: u8 = 7;
const SIGNER: u8 = 8;
const KEEPER: u8 = 9;
const USER: u8 = 10;
const RANDOMNESS: u8 = 40;
const WEEK: i64 = 7 * 24 * 60 * 60;

fn key(tag: u8) -> Pubkey {
    Pubkey { bytes: [tag; 32] }
}

fn clock() -> Clock {
    Clock { slot: 1_000, unix_timestamp: 1_700_000_000 }
}

fn global() -> Global {
    initialize(
        &Initialize { authority: key(AUTHORITY), global_bump: 255 },
        &InitializeParams {
            usdc_mint: key(20),
            keeper: Some(key(KEEPER)),
            settlement_signer: Some(key(SIGNER)),
        },
    )
}

fn randomness_account(slot: u64, value: [u8; 32]) -> RandomnessAccount {
    let mut data = vec![0u8; 100];
    data[8..40].copy_from_slice(&key(QUEUE).bytes);
    data[40..72].copy_from_slice(&value);
    data[72..80].copy_from_slice(&slot.to_le_bytes());
    RandomnessAccount { key: key(RANDOMNESS), owner: switchboard_program_key(), data }
}

fn market() -> Market {
    let mut g = global();
    create_market(
        &CreateMarket {
            creator: key(50),
            global: key(GLOBAL),
            market: key(MARKET),
            switchboard_queue: key(QUEUE),
            market_bump: 254,
        },
        &Clock { slot: 1, unix_timestamp: 1_600_000_000 },
        &mut g,
        &randomness_account(0, [0u8; 32]),
        CreateMarketParams {
            question: "Will it rain?".to_string(),
            description: String::new(),
            yes_description: "yes".to_string(),
            no_description: "no".to_string(),
            market_id: [9u8; 32],
        },
    )
    .unwrap()
    .market
}

fn funded_market(supply: u64) -> Market {
    let mut m = market();
    m.total_yes_supply = supply;
    m.total_no_supply = supply;
    m.total_position_collateral = supply;
    m
}

fn balance(user: u8, usdc: u64) -> UserBalance {
    UserBalance { user: key(user), market: key(MARKET), usdc_balance: usdc, bump: 1 }
}

fn position(user: u8, yes: u64, no: u64) -> UserPosition {
    UserPosition { user: key(user), market: key(MARKET), yes_balance: yes, no_balance: no, bump: 1 }
}

// ---------------------------------------------------------------- split and merge

fn split_accounts() -> SplitPositionSingle {
    SplitPositionSingle { global: key(GLOBAL), market: key(MARKET), user: key(USER), user_position_bump: 11 }
}

fn merge_accounts() -> MergePositionSingle {
    MergePositionSingle { global: key(GLOBAL), market: key(MARKET), user: key(USER) }
}

#[test]
fn split_credits_both_outcomes_one_for_one() {
    let mut m = market();
    let mut p = UserPosition {
        user: Pubkey::default(),
        market: Pubkey::default(),
        yes_balance: 0,
        no_balance: 0,
        bump: 0,
    };
    let event =
        split(&split_accounts(), &clock(), &mut m, &mut p, 0, &SplitPositionSingleParams { amount: 250 })
            .unwrap();
    assert_eq!((p.user, p.market, p.bump), (key(USER), key(MARKET), 11));
    assert_eq!((p.yes_balance, p.no_balance), (250, 250));
    assert_eq!((m.total_yes_supply, m.total_no_supply, m.total_position_collateral), (250, 250, 250));
    assert_eq!((event.amount, event.yes_amount, event.no_amount), (250, 250, 250));
    assert_eq!(event.timestamp, 1_700_000_000);
    // the vault holds the 250 by now
    split(&split_accounts(), &clock(), &mut m, &mut p, 250, &SplitPositionSingleParams { amount: 50 })
        .unwrap();
    assert_eq!((p.yes_balance, p.no_balance), (300, 300));
    assert_eq!((m.total_yes_supply, m.total_no_supply, m.total_position_collateral), (300, 300, 300));
}

#[test]
fn split_errors() {
    let run = |m: &mut Market, p: &mut UserPosition, vault: u64, amount: u64| {
        let before = format!("{:?}{:?}", m, p);
        let r = split(&split_accounts(), &clock(), m, p, vault, &SplitPositionSingleParams { amount });
        if r.is_err() {
            assert_eq!(format!("{:?}{:?}", m, p), before);
        }
        r.err()
    };
    let mut p = position(USER, 0, 0);
    let mut m = market();
    m.is_paused = true;
    assert_eq!(run(&mut m, &mut p, 0, 1), Some(TerminatorError::MarketNotActive));
    let mut m = market();
    m.status = MarketStatus::Settled;
    assert_eq!(run(&mut m, &mut p, 0, 1), Some(TerminatorError::MarketNotActive));
    let mut m = market();
    m.global = key(99);
    assert_eq!(run(&mut m, &mut p, 0, 1), Some(TerminatorError::InvalidAccountInput));
    let mut m = market();
    assert_eq!(run(&mut m, &mut p, 0, 0), Some(TerminatorError::InvalidAmount));
    let mut rich = position(USER, u64::MAX, 0);
    assert_eq!(run(&mut m, &mut rich, 0, 1), Some(TerminatorError::ArithmeticOverflow));
    let mut m = funded_market(u64::MAX);
    assert_eq!(run(&mut m, &mut p, u64::MAX, 1), Some(TerminatorError::ArithmeticOverflow));
    let mut m = funded_market(10);
    m.total_no_supply = 9;
    assert_eq!(run(&mut m, &mut p, 10, 1), Some(TerminatorError::InvalidInput));
    let mut m = funded_market(10);
    m.total_position_collateral = 11;
    assert_eq!(run(&mut m, &mut p, 11, 1), Some(TerminatorError::InvalidInput));
    let mut m = funded_market(10);
    assert_eq!(run(&mut m, &mut p, 9, 1), Some(TerminatorError::InsufficientVaultBalance));
    assert_eq!(run(&mut m, &mut p, u64::MAX, 1), Some(TerminatorError::ArithmeticOverflow));
    assert_eq!(run(&mut m, &mut p, 10, 1), None);
}

#[test]
fn merge_returns_collateral_one_for_one() {
    let mut m = funded_market(300);
    let mut p = position(USER, 300, 200);
    let event =
        merge(&merge_accounts(), &clock(), &mut m, &mut p, 300, &MergePositionSingleParams { amount: 120 })
            .unwrap();
    assert_eq!((p.yes_balance, p.no_balance), (180, 80));
    assert_eq!((m.total_yes_supply, m.total_no_supply, m.total_position_collateral), (180, 180, 180));
    assert_eq!(m.total_redeemed_usdc, 0);
    assert_eq!((event.amount, event.yes_amount, event.no_amount), (120, 120, 120));
}

#[test]
fn merge_after_termination_counts_against_the_pool() {
    let mut m = funded_market(300);
    m.terminate_market(700_000, 300_000, 5).unwrap();
    m.total_redeemable_usdc = 100;
    let mut p = position(USER, 300, 300);
    merge(&merge_accounts(), &clock(), &mut m, &mut p, 300, &MergePositionSingleParams { amount: 60 })
        .unwrap();
    assert_eq!(m.total_redeemed_usdc, 60);
    assert_eq!((m.total_yes_supply, m.total_no_supply, m.total_position_collateral), (240, 240, 240));
    let before = format!("{:?}{:?}", m, p);
    assert_eq!(
        merge(&merge_accounts(), &clock(), &mut m, &mut p, 240, &MergePositionSingleParams { amount: 41 })
            .err(),
        Some(TerminatorError::InsufficientVaultBalance)
    );
    assert_eq!(format!("{:?}{:?}", m, p), before);
    merge(&merge_accounts(), &clock(), &mut m, &mut p, 240, &MergePositionSingleParams { amount: 40 })
        .unwrap();
    assert_eq!(m.total_redeemed_usdc, 100);
}

#[test]
fn merge_errors() {
    let run = |m: &mut Market, p: &mut UserPosition, vault: u64, amount: u64| {
        let before = format!("{:?}{:?}", m, p);
        let r = merge(&merge_accounts(), &clock(), m, p, vault, &MergePositionSingleParams { amount });
        if r.is_err() {
            assert_eq!(format!("{:?}{:?}", m, p), before);
        }
        r.err()
    };
    let mut p = position(USER, 10, 10);
    let mut m = funded_market(10);
    m.global = key(99);
    assert_eq!(run(&mut m, &mut p, 10, 1), Some(TerminatorError::InvalidAccountInput));
    let mut m = funded_market(10);
    m.status = MarketStatus::Settled;
    assert_eq!(run(&mut m, &mut p, 10, 1), Some(TerminatorError::MarketNotActive));
    let mut m = funded_market(10);
    assert_eq!(run(&mut m, &mut position(MAKER, 10, 10), 10, 1), Some(TerminatorError::Unauthorized));
    assert_eq!(run(&mut m, &mut p, 10, 0), Some(TerminatorError::InvalidAmount));
    assert_eq!(run(&mut m, &mut position(USER, 10, 0), 10, 1), Some(TerminatorError::InsufficientBalance));
    assert_eq!(run(&mut m, &mut position(USER, 0, 10), 10, 1), Some(TerminatorError::InsufficientBalance));
    assert_eq!(run(&mut m, &mut p, 0, 1), Some(TerminatorError::InsufficientVaultBalance));
    assert_eq!(run(&mut m, &mut p, 9, 1), Some(TerminatorError::InsufficientVaultBalance));
    let mut m = funded_market(5);
    assert_eq!(run(&mut m, &mut p, 10, 6), Some(TerminatorError::ArithmeticOverflow));
    let mut m = funded_market(10);
    m.total_no_supply = 11;
    assert_eq!(run(&mut m, &mut p, 10, 1), Some(TerminatorError::InvalidInput));
    let mut m = funded_market(10);
    m.status = MarketStatus::Terminated;
    m.total_redeemable_usdc = 1;
    m.total_redeemed_usdc = 2;
    assert_eq!(run(&mut m, &mut p, 10, 1), Some(TerminatorError::ArithmeticOverflow));
    // a paused but active market still merges
    let mut m = funded_market(10);
    m.is_paused = true;
    assert_eq!(run(&mut m, &mut p, 10, 1), None);
}

#[test]
fn supply_stays_balanced_through_split_and_merge() {
    let mut m = market();
    let mut p = position(USER, 0, 0);
    let mut vault = 0u64;
    let steps: [(bool, u64); 7] =
        [(true, 100), (true, 50), (false, 30), (false, 200), (true, 1), (false, 121), (false, 1)];
    for (is_split, amount) in steps {
        let done = if is_split {
            split(&split_accounts(), &clock(), &mut m, &mut p, vault, &SplitPositionSingleParams { amount })
                .map(|_| vault += amount)
                .is_ok()
        } else {
            merge(&merge_accounts(), &clock(), &mut m, &mut p, vault, &MergePositionSingleParams { amount })
                .map(|_| vault -= amount)
                .is_ok()
        };
        assert_eq!(m.total_yes_supply, m.total_no_supply);
        assert_eq!(m.total_position_collateral, m.total_yes_supply);
        assert!(vault >= m.total_position_collateral);
        assert_eq!(done, !(amount == 200 || (amount == 1 && !is_split)));
    }
    assert_eq!(m.total_yes_supply, 0);
}

// ---------------------------------------------------------------- settle_trade

fn trade_accounts() -> SettleTrade {
    SettleTrade { global: key(GLOBAL), market: key(MARKET), maker: key(MAKER), taker: key(TAKER) }
}

fn fill_input(side: u8, outcome_type: u8, size: u64, price: u64) -> FillInput {
    FillInput { maker: key(MAKER), taker: key(TAKER), outcome_type, side, size, price }
}

fn signature_ix(signer: &Pubkey, msg: &[u8], signature: &[u8; 64]) -> Instruction {
    let mut data = vec![1u8, 0];
    data.extend_from_slice(&48u16.to_le_bytes());
    data.extend_from_slice(&u16::MAX.to_le_bytes());
    data.extend_from_slice(&16u16.to_le_bytes());
    data.extend_from_slice(&u16::MAX.to_le_bytes());
    data.extend_from_slice(&112u16.to_le_bytes());
    data.extend_from_slice(&(msg.len() as u16).to_le_bytes());
    data.extend_from_slice(&u16::MAX.to_le_bytes());
    data.extend_from_slice(&signer.bytes);
    data.extend_from_slice(signature);
    data.extend_from_slice(msg);
    Instruction { program_id: ed25519_program_key(), data }
}

fn signed_tx(params: &SettleTradeParams) -> TransactionInstructions {
    let message =
        SettleTradeMessage { market: key(MARKET), nonce: params.nonce, fill: params.fill }.encode();
    TransactionInstructions {
        current_index: 1,
        instructions: vec![
            signature_ix(&key(SIGNER), &message, &params.signature),
            Instruction { program_id: key(99), data: vec![] },
        ],
    }
}

struct Trade {
    global: Global,
    market: Market,
    maker_balance: UserBalance,
    maker_position: UserPosition,
    taker_balance: UserBalance,
    taker_position: UserPosition,
}

fn trade() -> Trade {
    Trade {
        global: global(),
        market: funded_market(5_000_000),
        maker_balance: balance(MAKER, 10_000_000),
        maker_position: position(MAKER, 2_000_000, 2_000_000),
        taker_balance: balance(TAKER, 10_000_000),
        taker_position: position(TAKER, 2_000_000, 2_000_000),
    }
}

fn trade_snapshot(t: &Trade) -> String {
    format!(
        "{:?}{:?}{:?}{:?}{:?}{:?}",
        t.global, t.market, t.maker_balance, t.maker_position, t.taker_balance, t.taker_position
    )
}

fn run_trade(
    t: &mut Trade,
    accounts: &SettleTrade,
    tx: &TransactionInstructions,
    vault: u64,
    params: &SettleTradeParams,
) -> Result<catallaxyz::instructions::settle_trade::SettleTradeOutcome, TerminatorError> {
    settle_trade(
        accounts,
        &clock(),
        tx,
        &mut t.global,
        &mut t.market,
        &mut t.maker_balance,
        &mut t.maker_position,
        &mut t.taker_balance,
        &mut t.taker_position,
        vault,
        params,
    )
}

#[test]
fn settlement_message_layout() {
    let message = SettleTradeMessage {
        market: key(MARKET),
        nonce: 0x0102,
        fill: fill_input(1, 0, 0x0A0B, 0x0C0D),
    };
    let bytes = message.encode();
    assert_eq!(bytes.len(), SETTLE_TRADE_MESSAGE_SIZE);
    let expected = anchor_lang::prelude::borsh::to_vec(&(
        key(MARKET).bytes,
        0x0102u64,
        (key(MAKER).bytes, key(TAKER).bytes, 0u8, 1u8, 0x0A0Bu64, 0x0C0Du64),
    ))
    .unwrap();
    assert_eq!(bytes, expected);
}

#[test]
fn taker_buy_is_settled_with_curve_fee() {
    let mut t = trade();
    let params =
        SettleTradeParams { fill: fill_input(0, 0, 1_000_000, 250_000), nonce: 1, signature: [3; 64] };
    let outcome =
        run_trade(&mut t, &trade_accounts(), &signed_tx(&params), 6_000_000, &params).unwrap();
    // cost 250_000; rate 17_000 ppm; fee 4_250; shares 3_187 / 850 / 212
    assert_eq!(
        outcome.amounts,
        TradeAmounts {
            total_cost: 250_000,
            taker_fee_rate: 17_000,
            taker_fee: 4_250,
            platform_fee: 3_187,
            maker_rebate: 850,
            creator_incentive: 212,
        }
    );
    assert_eq!(t.taker_balance.usdc_balance, 10_000_000 - 254_250);
    assert_eq!(t.maker_balance.usdc_balance, 10_000_000 + 250_850);
    assert_eq!(t.taker_position.yes_balance, 3_000_000);
    assert_eq!(t.maker_position.yes_balance, 1_000_000);
    assert_eq!(t.taker_position.no_balance, 2_000_000);
    assert_eq!(t.global.total_trading_fees_collected, 3_187);
    assert_eq!(t.market.creator_incentive_accrued, 212);
    assert_eq!(t.market.settle_trade_nonce, 1);
    assert_eq!(t.market.last_trade_outcome, Some(0));
    assert_eq!(t.market.reference_agent, Some(key(TAKER)));
    assert_eq!(t.market.last_trade_yes_price, Some(250_000));
    assert_eq!(t.market.last_trade_no_price, Some(750_000));
    assert_eq!(t.market.total_trades, 1);
    assert_eq!(t.market.last_activity_ts, 1_700_000_000);
    assert_eq!(t.market.last_trade_slot, Some(1_000));
    assert_eq!(t.market.total_yes_supply, 5_000_000);
    let event = outcome.fee_event.unwrap();
    assert_eq!((event.fee_amount, event.fee_rate, event.price, event.size), (4_250, 17_000, 250_000, 1_000_000));
    assert_eq!((event.maker, event.taker, event.user), (key(MAKER), key(TAKER), key(TAKER)));
}

#[test]
fn taker_sell_is_settled_with_rebate_as_discount() {
    let mut t = trade();
    let params =
        SettleTradeParams { fill: fill_input(1, 1, 1_000_000, 500_000), nonce: 1, signature: [3; 64] };
    let outcome =
        run_trade(&mut t, &trade_accounts(), &signed_tx(&params), 6_000_000, &params).unwrap();
    // cost 500_000; fee 16_000; rebate 3_200
    assert_eq!(outcome.amounts.taker_fee, 16_000);
    assert_eq!(outcome.amounts.maker_rebate, 3_200);
    assert_eq!(t.maker_balance.usdc_balance, 10_000_000 - (500_000 - 3_200));
    assert_eq!(t.taker_balance.usdc_balance, 10_000_000 + (500_000 - 16_000));
    assert_eq!(t.taker_position.no_balance, 1_000_000);
    assert_eq!(t.maker_position.no_balance, 3_000_000);
    assert_eq!(t.market.last_trade_no_price, Some(500_000));
    assert_eq!(t.market.last_trade_outcome, Some(1));
}

#[test]
fn a_message_settles_once() {
    let mut t = trade();
    let params =
        SettleTradeParams { fill: fill_input(0, 0, 1_000, 500_000), nonce: 1, signature: [3; 64] };
    let tx = signed_tx(&params);
    run_trade(&mut t, &trade_accounts(), &tx, 6_000_000, &params).unwrap();
    let before = trade_snapshot(&t);
    assert_eq!(
        run_trade(&mut t, &trade_accounts(), &tx, 6_000_000, &params).err(),
        Some(TerminatorError::InvalidInput)
    );
    assert_eq!(trade_snapshot(&t), before);
    let next = SettleTradeParams { nonce: 2, ..params };
    assert!(run_trade(&mut t, &trade_accounts(), &signed_tx(&next), 6_000_000, &next).is_ok());
    assert_eq!(t.market.settle_trade_nonce, 2);
}

#[test]
fn a_trade_without_fee_emits_no_fee_event() {
    let mut t = trade();
    let params = SettleTradeParams { fill: fill_input(0, 0, 1, 500_000), nonce: 1, signature: [3; 64] };
    let outcome =
        run_trade(&mut t, &trade_accounts(), &signed_tx(&params), 6_000_000, &params).unwrap();
    assert_eq!(outcome.amounts.taker_fee, 0);
    assert!(outcome.fee_event.is_none());
}

#[test]
fn settle_trade_errors() {
    let check = |edit: &dyn Fn(&mut Trade, &mut SettleTrade, &mut SettleTradeParams, &mut u64),
                 expected: TerminatorError| {
        let mut t = trade();
        let mut accounts = trade_accounts();
        let mut params = SettleTradeParams {
            fill: fill_input(0, 0, 1_000_000, 250_000),
            nonce: 1,
            signature: [3; 64],
        };
        let mut vault = 6_000_000u64;
        edit(&mut t, &mut accounts, &mut params, &mut vault);
        let tx = signed_tx(&params);
        let before = trade_snapshot(&t);
        assert_eq!(run_trade(&mut t, &accounts, &tx, vault, &params).err(), Some(expected));
        assert_eq!(trade_snapshot(&t), before);
    };
    check(&|t, _, _, _| t.market.global = key(99), TerminatorError::InvalidAccountInput);
    check(&|t, _, _, _| t.market.is_paused = true, TerminatorError::MarketNotActive);
    check(&|_, a, _, _| a.maker = key(99), TerminatorError::InvalidAccountInput);
    check(&|_, _, p, _| p.fill.taker = key(99), TerminatorError::InvalidAccountInput);
    check(&|t, _, _, _| t.maker_balance.user = key(99), TerminatorError::Unauthorized);
    check(&|t, _, _, _| t.taker_position.user = key(99), TerminatorError::Unauthorized);
    check(&|_, _, p, _| p.fill.size = 0, TerminatorError::InvalidAmount);
    check(&|_, _, p, _| p.fill.price = 1_000_001, TerminatorError::InvalidInput);
    check(&|_, _, p, _| p.fill.outcome_type = 2, TerminatorError::InvalidOutcome);
    check(&|_, _, p, _| p.fill.side = 2, TerminatorError::InvalidInput);
    check(&|t, _, _, _| t.market.settle_trade_nonce = u64::MAX, TerminatorError::ArithmeticOverflow);
    check(&|_, _, p, _| p.nonce = 2, TerminatorError::InvalidInput);
    check(&|t, _, _, _| t.global.settlement_signer = key(99), TerminatorError::InvalidSignature);
    check(&|t, _, _, _| t.global.platform_fee_rate = 750_001, TerminatorError::InvalidFeeConfiguration);
    check(&|t, _, _, _| t.global.platform_fee_rate = u32::MAX, TerminatorError::ArithmeticOverflow);
    check(&|t, _, _, _| t.taker_balance.usdc_balance = 254_249, TerminatorError::InsufficientBalance);
    check(
        &|t, _, _, _| t.maker_position.yes_balance = 999_999,
        TerminatorError::InsufficientOutcomeTokens,
    );
    check(&|t, _, _, _| t.maker_balance.usdc_balance = u64::MAX, TerminatorError::ArithmeticOverflow);
    check(&|t, _, _, _| t.taker_position.yes_balance = u64::MAX, TerminatorError::ArithmeticOverflow);
    check(
        &|t, _, _, _| t.global.total_trading_fees_collected = u64::MAX,
        TerminatorError::ArithmeticOverflow,
    );
    check(
        &|t, _, _, _| t.market.creator_incentive_accrued = u64::MAX,
        TerminatorError::ArithmeticOverflow,
    );
    check(&|_, _, _, v| *v = 3_398, TerminatorError::InsufficientVaultBalance);
    check(&|t, _, _, _| t.market.total_trades = u64::MAX, TerminatorError::ArithmeticOverflow);
    check(&|t, _, _, _| t.market.total_no_supply = 1, TerminatorError::InvalidInput);
    check(&|t, _, _, _| t.market.total_position_collateral = 1, TerminatorError::InvalidInput);
    // a selling taker
    check(
        &|t, _, p, _| {
            p.fill.side = 1;
            t.maker_balance.usdc_balance = 249_149;
        },
        TerminatorError::InsufficientBalance,
    );
    check(
        &|t, _, p, _| {
            p.fill.side = 1;
            t.taker_position.yes_balance = 0;
        },
        TerminatorError::InsufficientOutcomeTokens,
    );
    check(
        &|t, _, p, _| {
            p.fill.side = 1;
            p.fill.price = 500_000;
            t.global.center_taker_fee_rate = 2_000_000;
            t.global.extreme_taker_fee_rate = 2_000_000;
        },
        TerminatorError::ArithmeticOverflow,
    );
}

#[test]
fn trade_amounts_and_fill_settlement_in_isolation() {
    let g = global();
    let fill = fill_input(0, 0, 1_000_000, 250_000);
    let amounts = compute_trade_amounts(&g, &fill).unwrap();
    assert_eq!(amounts.platform_fee + amounts.maker_rebate + amounts.creator_incentive, 4_249);
    let maker = Holdings { usdc: 0, yes: 1_000_000, no: 0 };
    let taker = Holdings { usdc: 254_250, yes: 0, no: 0 };
    assert_eq!(
        settle_fill(&fill, &amounts, maker, taker),
        Ok((Holdings { usdc: 250_850, yes: 0, no: 0 }, Holdings { usdc: 0, yes: 1_000_000, no: 0 }))
    );
    let odd = TradeAmounts { maker_rebate: 300_000, ..amounts };
    assert_eq!(
        settle_fill(&FillInput { side: 1, ..fill }, &odd, maker, taker),
        Err(TerminatorError::InvalidFeeConfiguration)
    );
}

// ---------------------------------------------------------------- termination check

fn check_accounts() -> SettleWithRandomness {
    SettleWithRandomness { market: key(MARKET), caller: key(USER) }
}

fn check_params(m: &Market) -> SettleWithRandomnessParams {
    SettleWithRandomnessParams {
        settlement_threshold: m.termination_probability as u64 * 100,
        last_trade_yes_price: 600_000,
        last_trade_no_price: 400_000,
        last_trade_slot: 990,
        user_opted_termination_check: true,
    }
}

fn traded_market() -> Market {
    let mut m = funded_market(1_000);
    m.last_trade_outcome = Some(0);
    m.reference_agent = Some(key(TAKER));
    m.creator_incentive_accrued = 30;
    m
}

fn draw_of(m: &Market, value: [u8; 32]) -> u64 {
    let unique =
        unique_randomness(&value, &key(MARKET), &key(USER), m.trade_nonce + 1, clock().slot);
    u64::from_le_bytes(unique[0..8].try_into().unwrap()) % 100_000_001
}

#[test]
fn derived_randomness_is_blake3_of_the_five_inputs() {
    let value = [0x5A; 32];
    let mut input = Vec::new();
    input.extend_from_slice(&value);
    input.extend_from_slice(&key(MARKET).bytes);
    input.extend_from_slice(&key(USER).bytes);
    input.extend_from_slice(&7u64.to_le_bytes());
    input.extend_from_slice(&1_000u64.to_le_bytes());
    assert_eq!(input.len(), 112);
    assert_eq!(randomness_preimage_bytes(&value, &key(MARKET), &key(USER), 7, 1_000), input);
    let mut m = market();
    m.trade_nonce = 7;
    let derived = m.derive_unique_randomness(&value, &key(MARKET), &key(USER), 1_000);
    assert_eq!(&derived, blake3::hash(&input).as_bytes());
    assert_ne!(derived, value);
    // every input makes a difference
    assert_ne!(derived, m.derive_unique_randomness(&[0x5B; 32], &key(MARKET), &key(USER), 1_000));
    assert_ne!(derived, m.derive_unique_randomness(&value, &key(USER), &key(USER), 1_000));
    assert_ne!(derived, m.derive_unique_randomness(&value, &key(MARKET), &key(MARKET), 1_000));
    assert_ne!(derived, m.derive_unique_randomness(&value, &key(MARKET), &key(USER), 1_001));
    m.trade_nonce = 8;
    assert_ne!(derived, m.derive_unique_randomness(&value, &key(MARKET), &key(USER), 1_000));
    let mut low = [0u8; 32];
    low[0..8].copy_from_slice(&250_000_003u64.to_le_bytes());
    assert_eq!(Market::get_unique_random_u64(&low, 100_000_001), 250_000_003 % 100_000_001);
}

#[test]
fn a_call_without_opt_in_changes_nothing() {
    let mut m = traded_market();
    let before = format!("{:?}", m);
    let mut params = check_params(&m);
    params.user_opted_termination_check = false;
    let r = settle_with_randomness(
        &check_accounts(),
        &clock(),
        &mut m,
        1_000,
        100,
        &randomness_account(990, [1; 32]),
        &params,
    );
    assert!(matches!(r, Ok(CheckOutcome::Skipped)));
    assert_eq!(format!("{:?}", m), before);
    m.random_termination_enabled = false;
    let params = check_params(&m);
    let r = settle_with_randomness(
        &check_accounts(),
        &clock(),
        &mut m,
        1_000,
        100,
        &randomness_account(990, [1; 32]),
        &params,
    );
    assert!(matches!(r, Ok(CheckOutcome::Skipped)));
}

#[test]
fn a_certain_termination_terminates() {
    let mut m = traded_market();
    m.termination_probability = 1_000_000;
    let params = check_params(&m);
    let value = [0x11; 32];
    let draw = draw_of(&m, value);
    // the draw is at most 100_000_000; only that single value escapes a threshold of 100%
    assert!(draw < 100_000_000);
    let r = settle_with_randomness(
        &check_accounts(),
        &clock(),
        &mut m,
        1_000,
        100,
        &randomness_account(990, value),
        &params,
    )
    .unwrap();
    let (result, termination) = match r {
        CheckOutcome::Checked { result, termination } => (result, termination.unwrap()),
        CheckOutcome::Skipped => panic!("the check was skipped"),
    };
    assert!(result.was_terminated);
    assert_eq!(result.random_value, draw);
    assert_eq!(result.trade_nonce, 1);
    assert_eq!(result.threshold, 100_000_000);
    assert_eq!(result.user, key(USER));
    assert_eq!(m.status, MarketStatus::Terminated);
    assert!(m.is_terminated() && m.can_redeem() && !m.can_trade());
    assert_eq!(m.final_yes_price, Some(600_000));
    assert_eq!(m.final_no_price, Some(400_000));
    assert_eq!(m.termination_trade_slot, Some(990));
    assert_eq!(m.total_redeemable_usdc, 1_000);
    assert_eq!(m.total_redeemed_usdc, 0);
    assert_eq!(m.trade_nonce, 1);
    assert_eq!(m.creator_incentive_accrued, 0);
    assert_eq!(termination.creator_payout, 30);
    assert_eq!(termination.settled.winning_outcome, 0);
    assert_eq!(termination.settled.reference_agent, key(TAKER));
    assert_eq!(termination.settled.vault_balance, 1_000);
    assert_eq!(termination.terminated.reason, 0);
    assert_eq!(termination.terminated.final_yes_price, 600_000);
    assert_eq!(termination.terminated.termination_slot, 990);

    // a later attempt observes the terminated market and fails
    let before = format!("{:?}", m);
    let again = settle_with_randomness(
        &check_accounts(),
        &clock(),
        &mut m,
        1_000,
        100,
        &randomness_account(990, value),
        &params,
    );
    assert_eq!(again.err(), Some(TerminatorError::MarketNotActive));
    assert_eq!(format!("{:?}", m), before);
}

#[test]
fn an_impossible_termination_only_advances_the_nonce() {
    let mut m = traded_market();
    m.termination_probability = 0;
    let params = check_params(&m);
    let r = settle_with_randomness(
        &check_accounts(),
        &clock(),
        &mut m,
        1_000,
        100,
        &randomness_account(990, [0x11; 32]),
        &params,
    )
    .unwrap();
    match r {
        CheckOutcome::Checked { result, termination } => {
            assert!(!result.was_terminated);
            assert!(termination.is_none());
            assert_eq!(result.threshold, 0);
            assert_eq!(result.trade_nonce, 1);
        }
        CheckOutcome::Skipped => panic!("the check was skipped"),
    }
    assert_eq!(m.status, MarketStatus::Active);
    assert_eq!(m.trade_nonce, 1);
    // the market had no last prices, so the call's are kept
    assert_eq!(m.last_trade_yes_price, Some(600_000));
    assert_eq!(m.last_trade_no_price, Some(400_000));
    assert_eq!(m.last_trade_slot, Some(990));
    assert_eq!(m.creator_incentive_accrued, 30);
    assert_eq!(m.final_yes_price, None);
    // the same oracle value gives another draw on the next check
    let first = draw_of(&traded_market(), [0x11; 32]);
    let second = draw_of(&m, [0x11; 32]);
    assert_ne!(first, second);
}

#[test]
fn the_draw_decides_given_the_random_value() {
    let mut low = [0u8; 32];
    low[0..8].copy_from_slice(&99_999u64.to_le_bytes());
    let mut high = [0u8; 32];
    high[0..8].copy_from_slice(&100_000u64.to_le_bytes());
    // probability 0.1%: threshold 100_000
    let mut m = traded_market();
    let params = check_params(&m);
    assert_eq!(params.settlement_threshold, 100_000);
    let r = conclude_check(&check_accounts(), &clock(), &mut m, 1_000, 0, &params, &high).unwrap();
    assert!(matches!(r, CheckOutcome::Checked { termination: None, .. }));
    assert_eq!(m.status, MarketStatus::Active);
    let r = conclude_check(&check_accounts(), &clock(), &mut m, 1_000, 29, &params, &low).unwrap();
    match r {
        CheckOutcome::Checked { result, termination: Some(t) } => {
            assert_eq!(result.random_value, 99_999);
            assert!(result.was_terminated);
            // the creator treasury cannot cover the 30 accrued: nothing is paid for now
            assert_eq!(t.creator_payout, 0);
        }
        _ => panic!("the market was not terminated"),
    }
    assert_eq!(m.creator_incentive_accrued, 30);
    assert_eq!(m.status, MarketStatus::Terminated);
    // a market without a last trade outcome cannot terminate
    let mut m = traded_market();
    m.last_trade_outcome = None;
    let before = format!("{:?}", m);
    assert_eq!(
        conclude_check(&check_accounts(), &clock(), &mut m, 1_000, 0, &params, &low).err(),
        Some(TerminatorError::MissingLastTradeOutcome)
    );
    assert_eq!(format!("{:?}", m), before);
}

#[test]
fn termination_check_errors() {
    let check = |edit: &dyn Fn(
        &mut Market,
        &mut SettleWithRandomnessParams,
        &mut RandomnessAccount,
        &mut u64,
    ),
                 expected: TerminatorError| {
        let mut m = traded_market();
        let mut params = check_params(&m);
        let mut account = randomness_account(990, [0x11; 32]);
        let mut vault = 1_000u64;
        edit(&mut m, &mut params, &mut account, &mut vault);
        let before = format!("{:?}", m);
        let r = settle_with_randomness(
            &check_accounts(),
            &clock(),
            &mut m,
            vault,
            100,
            &account,
            &params,
        );
        assert_eq!(r.err(), Some(expected));
        assert_eq!(format!("{:?}", m), before);
    };
    check(&|m, _, _, _| m.status = MarketStatus::Settled, TerminatorError::MarketNotActive);
    check(&|m, _, _, _| m.reference_agent = None, TerminatorError::MissingReferenceAgent);
    check(&|_, _, a, _| a.key = key(99), TerminatorError::InvalidSwitchboardOracle);
    check(&|_, p, _, _| p.settlement_threshold += 1, TerminatorError::InvalidInput);
    check(
        &|m, p, _, _| {
            m.termination_probability = 1_000_001;
            p.settlement_threshold = 100_000_100;
        },
        TerminatorError::InvalidInput,
    );
    check(&|_, p, _, _| p.last_trade_yes_price = u64::MAX, TerminatorError::ArithmeticOverflow);
    check(&|_, p, _, _| p.last_trade_yes_price = 700_000, TerminatorError::InvalidInput);
    check(
        &|m, _, _, _| {
            m.last_trade_yes_price = Some(600_101);
            m.last_trade_no_price = Some(400_000);
        },
        TerminatorError::InvalidInput,
    );
    check(&|m, _, _, _| m.total_yes_supply = 999, TerminatorError::InvalidInput);
    check(&|m, _, _, _| m.total_position_collateral = 999, TerminatorError::InvalidInput);
    check(&|_, _, _, v| *v = 1_001, TerminatorError::InsufficientVaultBalance);
    check(&|_, _, a, _| a.owner = key(99), TerminatorError::InvalidSwitchboardOracle);
    check(&|_, _, a, _| a.data.truncate(87), TerminatorError::InvalidSwitchboardOracle);
    check(&|_, _, a, _| a.data[8] ^= 1, TerminatorError::InvalidSwitchboardOracle);
    check(&|_, _, a, _| *a = randomness_account(849, [0x11; 32]), TerminatorError::SwitchboardUpdateRequired);
    check(&|m, _, _, _| m.trade_nonce = u64::MAX, TerminatorError::ArithmeticOverflow);
    check(
        &|m, p, _, _| {
            m.last_trade_outcome = None;
            m.termination_probability = 1_000_000;
            p.settlement_threshold = 100_000_000;
        },
        TerminatorError::MissingLastTradeOutcome,
    );
}

#[test]
fn recorded_prices_tolerate_a_small_drift() {
    let mut m = traded_market();
    m.termination_probability = 0;
    m.last_trade_yes_price = Some(600_100);
    m.last_trade_no_price = Some(399_900);
    m.last_trade_slot = Some(5);
    let params = check_params(&m);
    settle_with_randomness(
        &check_accounts(),
        &clock(),
        &mut m,
        1_000,
        100,
        &randomness_account(850, [0x11; 32]),
        &params,
    )
    .unwrap();
    // recorded data is kept
    assert_eq!(m.last_trade_yes_price, Some(600_100));
    assert_eq!(m.last_trade_slot, Some(5));
}

// ---------------------------------------------------------------- settlement

fn settle_accounts() -> SettleMarket {
    SettleMarket { authority: key(AUTHORITY), market: key(MARKET) }
}

#[test]
fn settlement_resolves_opposite_the_last_trade() {
    for (last, winner) in [(0u8, 1u8), (1, 0), (7, 1)] {
        let mut m = traded_market();
        m.last_trade_outcome = Some(last);
        m.last_trade_yes_price = Some(800_000);
        m.last_trade_no_price = Some(200_000);
        let outcome = settle_market(&settle_accounts(), &clock(), &global(), &mut m, 1_000, 30).unwrap();
        assert_eq!(outcome.settled.winning_outcome, winner);
        assert_eq!(outcome.settled.reference_agent, key(TAKER));
        assert_eq!(outcome.settled.vault_balance, 1_000);
        assert_eq!(outcome.settled.total_rewards, 1_000);
        assert_eq!(outcome.settled.settlement_index, 0);
        assert_eq!(outcome.creator_payout, 30);
        assert_eq!(m.status, MarketStatus::Settled);
        assert!(m.is_settled() && m.can_redeem() && !m.is_active());
        assert_eq!(m.final_yes_price, Some(800_000));
        assert_eq!(m.final_no_price, Some(200_000));
        assert_eq!(m.total_redeemable_usdc, 1_000);
        assert_eq!(m.total_redeemed_usdc, 0);
        assert_eq!(m.creator_incentive_accrued, 0);
    }
}

#[test]
fn settlement_without_prices_locks_one_half() {
    let mut m = traded_market();
    settle_market(&settle_accounts(), &clock(), &global(), &mut m, 1_000, 0).unwrap();
    assert_eq!(m.final_yes_price, Some(500_000));
    assert_eq!(m.final_no_price, Some(500_000));
    // the treasury was empty: the incentive stays accrued
    assert_eq!(m.creator_incentive_accrued, 30);
}

#[test]
fn settlement_errors_and_absorbing_states() {
    let run = |m: &mut Market, accounts: &SettleMarket, vault: u64| {
        let before = format!("{:?}", m);
        let r = settle_market(accounts, &clock(), &global(), m, vault, 0);
        if r.is_err() {
            assert_eq!(format!("{:?}", m), before);
        }
        r.err()
    };
    let mut m = traded_market();
    assert_eq!(
        run(&mut m, &SettleMarket { authority: key(KEEPER), market: key(MARKET) }, 1_000),
        Some(TerminatorError::Unauthorized)
    );
    m.reference_agent = None;
    assert_eq!(run(&mut m, &settle_accounts(), 1_000), Some(TerminatorError::MissingReferenceAgent));
    let mut m = traded_market();
    m.last_trade_outcome = None;
    assert_eq!(run(&mut m, &settle_accounts(), 1_000), Some(TerminatorError::MissingLastTradeOutcome));
    let mut m = traded_market();
    assert_eq!(run(&mut m, &settle_accounts(), 999), Some(TerminatorError::InsufficientVaultBalance));
    assert_eq!(run(&mut m, &settle_accounts(), 1_001), Some(TerminatorError::InsufficientVaultBalance));
    m.total_no_supply = 1;
    assert_eq!(run(&mut m, &settle_accounts(), 1_000), Some(TerminatorError::InvalidInput));
    let mut m = traded_market();
    assert_eq!(run(&mut m, &settle_accounts(), 1_000), None);
    // settled is final
    assert_eq!(run(&mut m, &settle_accounts(), 1_000), Some(TerminatorError::MarketAlreadySettled));
    assert_eq!(m.terminate_market(1, 2, 3), Err(TerminatorError::MarketNotActive));
    m.set_terminated();
    assert_eq!(m.status, MarketStatus::Settled);
    assert_eq!(m.terminate_if_inactive(i64::MAX, 0), Ok(false));
    assert_eq!(m.status, MarketStatus::Settled);
    let mut t = traded_market();
    t.terminate_market(1, 2, 3).unwrap();
    t.set_settled();
    assert_eq!(t.status, MarketStatus::Terminated);
    assert_eq!(run(&mut t, &settle_accounts(), 1_000), Some(TerminatorError::MarketAlreadySettled));
}

// ---------------------------------------------------------------- inactivity

fn terminate_accounts(caller: u8) -> TerminateIfInactive {
    TerminateIfInactive { caller: key(caller), market: key(MARKET) }
}

#[test]
fn untraded_market_terminates_at_one_half() {
    let mut m = funded_market(1_000);
    m.last_activity_ts = 1_700_000_000 - WEEK;
    let outcome = terminate_if_inactive(
        &terminate_accounts(KEEPER),
        &clock(),
        &global(),
        &mut m,
        1_000,
        100_000,
        0,
    )
    .unwrap()
    .unwrap();
    assert_eq!(m.final_yes_price, Some(500_000));
    assert_eq!(m.final_no_price, Some(500_000));
    assert_eq!(m.last_trade_yes_price, Some(500_000));
    assert_eq!(m.last_trade_no_price, Some(500_000));
    assert_eq!(m.status, MarketStatus::Terminated);
    assert_eq!(m.termination_trade_slot, Some(1_000));
    assert_eq!(m.total_redeemable_usdc, 1_000);
    assert_eq!(m.total_redeemed_usdc, 0);
    assert_eq!(outcome.terminated.reason, 1);
    assert_eq!(outcome.terminated.final_yes_price, 500_000);
    assert_eq!(outcome.terminated.final_no_price, 500_000);
    assert_eq!(outcome.terminated.termination_slot, 1_000);
    assert_eq!(outcome.execution_reward, 100_000);
    assert_eq!(outcome.creator_payout, 0);
}

#[test]
fn inactivity_needs_seven_full_days() {
    let mut m = funded_market(1_000);
    m.last_activity_ts = 1_700_000_000 - WEEK + 1;
    assert!(!market_is_inactive(&m, 1_700_000_000));
    let before = format!("{:?}", m);
    let r = terminate_if_inactive(&terminate_accounts(AUTHORITY), &clock(), &global(), &mut m, 1_000, 0, 0);
    assert!(matches!(r, Ok(None)));
    assert_eq!(format!("{:?}", m), before);
    assert_eq!(m.terminate_if_inactive(1_700_000_000, 5), Ok(false));
    assert_eq!(m.terminate_if_inactive(1_700_000_001, 5), Ok(true));
    assert_eq!(m.termination_trade_slot, Some(5));
    // extreme clocks do not overflow
    let mut m = funded_market(0);
    m.last_activity_ts = i64::MIN;
    assert!(market_is_inactive(&m, i64::MAX));
    m.last_activity_ts = i64::MAX;
    assert!(!market_is_inactive(&m, i64::MIN));
}

#[test]
fn inactivity_termination_with_recorded_prices_and_poor_treasuries() {
    let mut m = traded_market();
    m.last_activity_ts = 0;
    m.last_trade_no_price = Some(250_000);
    let outcome = terminate_if_inactive(
        &terminate_accounts(AUTHORITY),
        &clock(),
        &global(),
        &mut m,
        1_000,
        99_999,
        29,
    )
    .unwrap()
    .unwrap();
    assert_eq!(m.final_yes_price, Some(750_000));
    assert_eq!(m.final_no_price, Some(250_000));
    assert_eq!(outcome.execution_reward, 0);
    assert_eq!(outcome.creator_payout, 0);
    assert_eq!(m.creator_incentive_accrued, 30);
}

#[test]
fn inactivity_termination_errors() {
    let run = |m: &mut Market, caller: u8, vault: u64| {
        let before = format!("{:?}", m);
        let r = terminate_if_inactive(&terminate_accounts(caller), &clock(), &global(), m, vault, 0, 0);
        if r.is_err() {
            assert_eq!(format!("{:?}", m), before);
        }
        r.err()
    };
    let mut m = funded_market(1_000);
    m.last_activity_ts = 0;
    assert_eq!(run(&mut m, USER, 1_000), Some(TerminatorError::Unauthorized));
    assert_eq!(run(&mut m, KEEPER, 999), Some(TerminatorError::InsufficientVaultBalance));
    m.total_yes_supply = 1;
    assert_eq!(run(&mut m, KEEPER, 1_000), Some(TerminatorError::InvalidInput));
    let mut m = funded_market(1_000);
    m.status = MarketStatus::Terminated;
    assert_eq!(run(&mut m, KEEPER, 1_000), Some(TerminatorError::MarketNotActive));
}

// ---------------------------------------------------------------- redemption

fn redeem_accounts() -> RedeemSingleOutcome {
    RedeemSingleOutcome { global: key(GLOBAL), market: key(MARKET), user: key(USER) }
}

fn resolved_market() -> Market {
    let mut m = funded_market(1_000);
    m.terminate_market(700_000, 300_000, 5).unwrap();
    m.lock_for_redemption(1_000, 0);
    m
}

#[test]
fn redemption_pays_the_final_price() {
    let mut m = resolved_market();
    let mut p = position(USER, 500, 500);
    let r = redeem(
        &redeem_accounts(),
        &clock(),
        &mut m,
        &mut p,
        1_000,
        &RedeemSingleOutcomeParams { question_index: 0, outcome_type: 0, token_amount: 100 },
    )
    .unwrap();
    assert_eq!(r.payout, 70);
    assert_eq!(r.redeemed.reward_amount, 70);
    assert_eq!(r.redeemed.token_amount, 100);
    assert_eq!(r.redeemed.winning_outcome, 0);
    assert_eq!(p.yes_balance, 400);
    assert_eq!(m.total_yes_supply, 900);
    assert_eq!(m.total_no_supply, 1_000);
    assert_eq!(m.total_redeemed_usdc, 70);
    assert_eq!(m.total_position_collateral, 930);
    let r = redeem(
        &redeem_accounts(),
        &clock(),
        &mut m,
        &mut p,
        930,
        &RedeemSingleOutcomeParams { question_index: 0, outcome_type: 1, token_amount: 101 },
    )
    .unwrap();
    // 101 * 0.3 = 30.3, rounded down
    assert_eq!(r.payout, 30);
    assert_eq!(p.no_balance, 399);
    assert_eq!(m.total_redeemed_usdc, 100);
}

#[test]
fn redemptions_never_exceed_the_locked_pool() {
    let mut m = funded_market(1_000);
    m.terminate_market(1_000_000, 0, 5).unwrap();
    m.lock_for_redemption(1_000, 0);
    // the pool is 1_000, but holders try to redeem 1_500 shares at 1.0
    let mut paid = 0u64;
    let mut vault = 1_500u64;
    m.total_yes_supply = 1_500;
    m.total_position_collateral = 1_500;
    let mut p = position(USER, 1_500, 0);
    for amount in [400u64, 400, 400, 200, 100, 1] {
        let before = format!("{:?}{:?}", m, p);
        match redeem(
            &redeem_accounts(),
            &clock(),
            &mut m,
            &mut p,
            vault,
            &RedeemSingleOutcomeParams { question_index: 0, outcome_type: 0, token_amount: amount },
        ) {
            Ok(r) => {
                paid += r.payout;
                vault -= r.payout;
            }
            Err(e) => {
                assert_eq!(e, TerminatorError::InsufficientVaultBalance);
                assert_eq!(format!("{:?}{:?}", m, p), before);
            }
        }
        assert!(paid <= m.total_redeemable_usdc);
        assert_eq!(paid, m.total_redeemed_usdc);
    }
    assert_eq!(paid, 1_000);
}

#[test]
fn redemption_errors() {
    let run = |m: &mut Market, p: &mut UserPosition, vault: u64, outcome_type: u8, amount: u64| {
        let before = format!("{:?}{:?}", m, p);
        let r = redeem(
            &redeem_accounts(),
            &clock(),
            m,
            p,
            vault,
            &RedeemSingleOutcomeParams { question_index: 0, outcome_type, token_amount: amount },
        );
        if r.is_err() {
            assert_eq!(format!("{:?}{:?}", m, p), before);
        }
        r.err()
    };
    let mut p = position(USER, 500, 500);
    let mut active = funded_market(1_000);
    assert_eq!(run(&mut active, &mut p, 1_000, 0, 1), Some(TerminatorError::RedemptionNotAllowed));
    let mut m = resolved_market();
    m.global = key(99);
    assert_eq!(run(&mut m, &mut p, 1_000, 0, 10), Some(TerminatorError::InvalidGlobalAccount));
    let mut m = resolved_market();
    assert_eq!(run(&mut m, &mut position(MAKER, 5, 5), 1_000, 0, 10), Some(TerminatorError::Unauthorized));
    assert_eq!(run(&mut m, &mut p, 1_000, 2, 10), Some(TerminatorError::InvalidOutcome));
    let mut unpriced = resolved_market();
    unpriced.final_no_price = None;
    assert_eq!(run(&mut unpriced, &mut p, 1_000, 1, 10), Some(TerminatorError::MarketNotTerminated));
    assert_eq!(
        run(&mut m, &mut p, 1_000, 0, 501),
        Some(TerminatorError::InsufficientOutcomeTokensForRedemption)
    );
    assert_eq!(run(&mut m, &mut p, 1_000, 0, 1), Some(TerminatorError::InvalidAmount));
    assert_eq!(run(&mut m, &mut p, 1_000, 0, 0), Some(TerminatorError::InvalidAmount));
    assert_eq!(run(&mut m, &mut p, 69, 0, 100), Some(TerminatorError::InsufficientVaultBalance));
    assert_eq!(run(&mut m, &mut p, 999, 0, 100), Some(TerminatorError::InsufficientVaultBalance));
    let mut m = resolved_market();
    m.total_yes_supply = 99;
    assert_eq!(run(&mut m, &mut p, 1_000, 0, 100), Some(TerminatorError::ArithmeticOverflow));
    let mut m = resolved_market();
    m.total_redeemed_usdc = 1_001;
    assert_eq!(run(&mut m, &mut p, 1_000, 0, 100), Some(TerminatorError::ArithmeticOverflow));
    let mut m = resolved_market();
    m.total_redeemed_usdc = 931;
    assert_eq!(run(&mut m, &mut p, 1_000, 0, 100), Some(TerminatorError::InsufficientVaultBalance));
    let mut m = resolved_market();
    m.total_position_collateral = 69;
    assert_eq!(run(&mut m, &mut p, 1_000, 0, 100), Some(TerminatorError::ArithmeticOverflow));
    let mut m = resolved_market();
    m.final_yes_price = Some(u64::MAX);
    let mut rich = position(USER, u64::MAX, 0);
    assert_eq!(run(&mut m, &mut rich, 1_000, 0, u64::MAX), Some(TerminatorError::ArithmeticOverflow));
}
