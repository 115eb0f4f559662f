use catallaxyz::clock::Clock;
use catallaxyz::constants::{MARKET_CREATION_FEE, PRICE_SCALE};
use catallaxyz::errors::TerminatorError;
use catallaxyz::instructions::cancel_order::{
    cancel_hashed, handler as cancel_order, CancelOrder, CancelOrderParams,
};
use catallaxyz::instructions::create_market::{
    handler as create_market, CreateMarket, CreateMarketParams,
};
use catallaxyz::instructions::deposit_usdc::{handler as deposit, DepositUsdc, DepositUsdcParams};
use catallaxyz::instructions::distribute_liquidity_reward::{
    handler as distribute_liquidity_reward, DistributeLiquidityReward,
    DistributeLiquidityRewardParams,
};
use catallaxyz::instructions::global_pause::{
    handler_pause_trading, handler_unpause_trading, PauseTrading, UnpauseTrading,
};
use catallaxyz::instructions::increment_nonce::{handler as increment_nonce, IncrementNonce};
use catallaxyz::instructions::initialize::{handler as initialize, Initialize, InitializeParams};
use catallaxyz::instructions::operator_management::{
    handler_add_operator, handler_remove_operator, AddOperator, AddOperatorParams, RemoveOperator,
    RemoveOperatorParams,
};
use catallaxyz::instructions::pause_market::{handler as pause_market, PauseMarket};
use catallaxyz::instructions::request_randomness::{handler as request_randomness, RandomnessAge};
use catallaxyz::instructions::resume_market::{handler as resume_market, ResumeMarket};
use catallaxyz::instructions::set_keeper::{handler as set_keeper, SetKeeper, SetKeeperParams};
use catallaxyz::instructions::settle_with_randomness::RandomnessAccount;
use catallaxyz::instructions::treasury_utils::{check_payout, TokenAccountInfo};
use catallaxyz::instructions::update_fee_rates::{
    handler as update_fee_rates, UpdateFeeRates, UpdateFeeRatesParams,
};
use catallaxyz::instructions::update_market_params::{
    handler as update_market_params, UpdateMarketParamsAccounts, UpdateMarketParamsInput,
};
use catallaxyz::instructions::withdraw_platform_fees::{
    handler as withdraw_platform_fees, WithdrawPlatformFees, WithdrawPlatformFeesParams,
};
use catallaxyz::instructions::withdraw_reward_fees::{
    handler as withdraw_reward_fees, WithdrawRewardFees, WithdrawRewardFeesParams,
};
use catallaxyz::instructions::withdraw_usdc::{handler as withdraw, WithdrawUsdc, WithdrawUsdcParams};
use catallaxyz::pubkey::Pubkey;
use catallaxyz::states::global::Global;
use catallaxyz::states::market::{Market, MarketStatus};
use catallaxyz::states::order_status::OrderStatus;
use catallaxyz::states::order_types::{hash_order, Order};
use catallaxyz::states::user_balance::UserBalance;
use catallaxyz::states::user_nonce::UserNonce;
use catallaxyz::states::user_position::UserPosition;
use catallaxyz::switchboard_lite::switchboard_program_key;

const AUTHORITY: u8 = 1;
const GLOBAL: u8 = 2;
const MARKET: u8 = 3;
const QUEUE: u8 = 7;
const USER: u8 = 10;

fn key(tag: u8) -> Pubkey {
    Pubkey { bytes: [tag; 32] }
}

fn clock() -> Clock {
    Clock { slot: 1_000, unix_timestamp: 1_700_000_000 }
}

fn global() -> Global {
    initialize(
        &Initialize { authority: key(AUTHORITY), global_bump: 255 },
        &InitializeParams { usdc_mint: key(20), keeper: None, settlement_signer: None },
    )
}

fn randomness_account() -> RandomnessAccount {
    let mut data = vec![0u8; 88];
    data[8..40].copy_from_slice(&key(QUEUE).bytes);
    RandomnessAccount { key: key(40), owner: switchboard_program_key(), data }
}

fn create_accounts() -> CreateMarket {
    CreateMarket {
        creator: key(50),
        global: key(GLOBAL),
        market: key(MARKET),
        switchboard_queue: key(QUEUE),
        market_bump: 254,
    }
}

fn create_params() -> CreateMarketParams {
    CreateMarketParams {
        question: "Will it rain?".to_string(),
        description: "Rain at the station".to_string(),
        yes_description: "yes".to_string(),
        no_description: "no".to_string(),
        market_id: [9u8; 32],
    }
}

fn market() -> Market {
    create_market(&create_accounts(), &clock(), &mut global(), &randomness_account(), create_params())
        .unwrap()
        .market
}

#[test]
fn a_new_market_is_active_and_empty() {
    let mut g = global();
    let created =
        create_market(&create_accounts(), &clock(), &mut g, &randomness_account(), create_params())
            .unwrap();
    let m = created.market;
    assert_eq!(g.total_creation_fees_collected, MARKET_CREATION_FEE);
    assert_eq!(m.creator, key(50));
    assert_eq!(m.global, key(GLOBAL));
    assert_eq!(m.market_id, [9u8; 32]);
    assert_eq!(m.question, "Will it rain?");
    assert_eq!(m.description, "Rain at the station");
    assert_eq!(m.created_at, 1_700_000_000);
    assert_eq!(m.last_activity_ts, 1_700_000_000);
    assert_eq!(m.status, MarketStatus::Active);
    assert!(m.is_active() && m.can_trade() && !m.can_redeem());
    assert!(!m.is_settled() && !m.is_terminated());
    assert_eq!(m.switchboard_queue, key(QUEUE));
    assert_eq!(m.randomness_account, key(40));
    assert_eq!((m.total_yes_supply, m.total_no_supply, m.total_position_collateral), (0, 0, 0));
    assert_eq!((m.total_redeemable_usdc, m.total_redeemed_usdc), (0, 0));
    assert_eq!(m.termination_probability, 1_000);
    assert!(m.random_termination_enabled);
    assert_eq!(m.last_trade_outcome, None);
    assert_eq!(m.reference_agent, None);
    assert_eq!(m.final_yes_price, None);
    assert_eq!(m.bump, 254);
    assert!(!m.tokens_initialized());
    assert_eq!(m.yes_token_mint(), None);
    assert_eq!(created.created.question, "Will it rain?");
    assert_eq!(created.created.no_description, "no");
    assert_eq!(created.created.market, key(MARKET));
    assert_eq!(created.fee_collected.fee_amount, 10_000_000);
    assert_eq!(created.fee_collected.slot, 1_000);
}

#[test]
fn market_texts_are_limited_in_bytes() {
    let run = |edit: &dyn Fn(&mut CreateMarketParams)| {
        let mut g = global();
        let mut params = create_params();
        edit(&mut params);
        let r = create_market(&create_accounts(), &clock(), &mut g, &randomness_account(), params);
        if r.is_err() {
            assert_eq!(g.total_creation_fees_collected, 0);
        }
        r.err()
    };
    assert_eq!(run(&|p| p.question = "q".repeat(200)), None);
    assert_eq!(run(&|p| p.question = "q".repeat(201)), Some(TerminatorError::InvalidInput));
    // 67 three-byte characters are 201 bytes
    assert_eq!(run(&|p| p.question = "\u{20AC}".repeat(67)), Some(TerminatorError::InvalidInput));
    assert_eq!(run(&|p| p.question = "\u{20AC}".repeat(66)), None);
    assert_eq!(run(&|p| p.description = "d".repeat(500)), None);
    assert_eq!(run(&|p| p.description = "d".repeat(501)), Some(TerminatorError::InvalidInput));
    assert_eq!(run(&|p| p.yes_description = "y".repeat(201)), Some(TerminatorError::InvalidInput));
    assert_eq!(run(&|p| p.no_description = "n".repeat(201)), Some(TerminatorError::InvalidInput));
}

#[test]
fn market_creation_checks_the_oracle_account() {
    let run = |edit: &dyn Fn(&mut RandomnessAccount, &mut Global)| {
        let mut g = global();
        let mut account = randomness_account();
        edit(&mut account, &mut g);
        let before = g;
        let r = create_market(&create_accounts(), &clock(), &mut g, &account, create_params());
        assert_eq!(format!("{:?}", g), format!("{:?}", before));
        r.err()
    };
    assert_eq!(run(&|a, _| a.owner = key(99)), Some(TerminatorError::InvalidSwitchboardOracle));
    assert_eq!(run(&|a, _| a.data.truncate(80)), Some(TerminatorError::InvalidSwitchboardOracle));
    assert_eq!(run(&|a, _| a.data[39] = 0), Some(TerminatorError::InvalidSwitchboardOracle));
    assert_eq!(
        run(&|_, g| g.total_creation_fees_collected = u64::MAX - 9_999_999),
        Some(TerminatorError::ArithmeticOverflow)
    );
}

#[test]
fn market_bookkeeping_methods() {
    let mut m = market();
    m.record_activity(5, 6);
    assert_eq!((m.last_activity_ts, m.last_trade_slot), (5, Some(6)));
    assert_eq!(m.record_binary_last_price(0, 300_000), Ok(()));
    assert_eq!((m.last_trade_yes_price, m.last_trade_no_price), (Some(300_000), Some(700_000)));
    assert_eq!(m.record_binary_last_price(1, 300_000), Ok(()));
    assert_eq!((m.last_trade_yes_price, m.last_trade_no_price), (Some(700_000), Some(300_000)));
    assert_eq!(m.record_binary_last_price(1, PRICE_SCALE + 1), Err(TerminatorError::InvalidInput));
    assert_eq!(m.record_binary_last_price(2, 1), Err(TerminatorError::InvalidOutcomeIndex));
    // the price is checked before the index
    assert_eq!(m.record_binary_last_price(2, PRICE_SCALE + 1), Err(TerminatorError::InvalidInput));
    assert_eq!((m.last_trade_yes_price, m.last_trade_no_price), (Some(700_000), Some(300_000)));
    assert_eq!(m.increment_trade_nonce(), Ok(1));
    m.trade_nonce = u64::MAX;
    assert_eq!(m.increment_trade_nonce(), Err(TerminatorError::ArithmeticOverflow));
    assert_eq!(m.trade_nonce, u64::MAX);

    assert_eq!(m.set_outcome_mint(0, key(60)), Ok(()));
    assert_eq!(m.get_outcome_mint(0), Some(key(60)));
    assert_eq!(m.yes_token_mint(), Some(key(60)));
    assert_eq!(m.no_token_mint(), None);
    assert!(!m.tokens_initialized());
    assert_eq!(m.set_outcome_mint(1, key(61)), Ok(()));
    assert!(m.tokens_initialized());
    assert_eq!(m.no_token_mint(), Some(key(61)));
    assert_eq!(m.set_outcome_mint(2, key(62)), Err(TerminatorError::InvalidOutcomeIndex));
    assert_eq!(m.get_outcome_mint(2), None);
    assert_eq!(m.get_outcome_mint(usize::MAX), None);

    m.total_yes_supply = 5;
    m.total_no_supply = 5;
    m.total_position_collateral = 5;
    assert_eq!(m.verify_position_invariants(), Ok(()));
    assert_eq!(m.verify_vault_invariant(5), Ok(()));
    assert_eq!(m.verify_vault_invariant(4), Err(TerminatorError::InsufficientVaultBalance));
    assert_eq!(m.verify_all_invariants(6), Ok(()));
    assert_eq!(m.check_resolvable(5), Ok(()));
    assert_eq!(m.check_resolvable(6), Err(TerminatorError::InsufficientVaultBalance));
    m.total_no_supply = 4;
    assert_eq!(m.verify_position_invariants(), Err(TerminatorError::InvalidInput));
    assert_eq!(m.verify_all_invariants(0), Err(TerminatorError::InvalidInput));
    assert_eq!(m.check_resolvable(5), Err(TerminatorError::InvalidInput));
}

#[test]
fn cancelling_is_one_way() {
    let order = Order {
        salt: 1,
        maker: key(USER),
        signer: key(USER),
        taker: Pubkey::default(),
        market: key(MARKET),
        token_id: 1,
        maker_amount: 500,
        taker_amount: 1_000,
        expiration: 0,
        nonce: 0,
        fee_rate_bps: 0,
        side: 0,
    };
    let accounts = CancelOrder { maker: key(USER), order_status_bump: 7 };
    let params = CancelOrderParams { order };
    let mut status = OrderStatus::unset();
    // the first touch of an order may be its cancellation
    let event = cancel_order(&accounts, &clock(), &mut status, &params).unwrap();
    assert_eq!(event.order_hash, hash_order(&order));
    assert_eq!((event.maker, event.market, event.slot), (key(USER), key(MARKET), 1_000));
    assert_eq!(status.order_hash, hash_order(&order));
    assert_eq!(status.remaining, 500);
    assert_eq!(status.bump, 7);
    assert!(status.is_filled_or_cancelled && status.is_cancelled());
    let before = status;
    assert_eq!(
        cancel_order(&accounts, &clock(), &mut status, &params).err(),
        Some(TerminatorError::OrderAlreadyCancelledOrFilled)
    );
    assert_eq!(format!("{:?}", status), format!("{:?}", before));
    assert_eq!(status.fill(1), Err(TerminatorError::OrderNotFillable));

    let mut fresh = OrderStatus::unset();
    assert_eq!(
        cancel_order(&CancelOrder { maker: key(99), order_status_bump: 7 }, &clock(), &mut fresh, &params)
            .err(),
        Some(TerminatorError::NotOrderMaker)
    );
    assert!(fresh.is_unset());
    let mut other = OrderStatus::unset();
    other.init([1u8; 32], 10, 0);
    assert_eq!(
        cancel_order(&accounts, &clock(), &mut other, &params).err(),
        Some(TerminatorError::OrderHashMismatch)
    );
    assert!(!other.is_filled_or_cancelled);
    // a partly filled order keeps what remained
    let mut partly = OrderStatus::unset();
    partly.init([4u8; 32], 500, 0);
    partly.fill(200).unwrap();
    cancel_hashed(&accounts, &clock(), &mut partly, &params, [4u8; 32]).unwrap();
    assert_eq!(partly.remaining, 300);
    assert!(partly.is_cancelled());
    // a fully filled order cannot be cancelled
    let mut filled = OrderStatus::unset();
    filled.init([4u8; 32], 500, 0);
    filled.fill(500).unwrap();
    assert_eq!(
        cancel_hashed(&accounts, &clock(), &mut filled, &params, [4u8; 32]).err(),
        Some(TerminatorError::OrderAlreadyCancelledOrFilled)
    );
}

#[test]
fn nonce_increment_adopts_and_advances() {
    let accounts = IncrementNonce { user: key(USER), user_nonce_bump: 9 };
    let mut nonce = UserNonce { user: Pubkey::default(), current_nonce: 77, bump: 0 };
    let event = increment_nonce(&accounts, &clock(), &mut nonce).unwrap();
    assert_eq!((event.user, event.new_nonce, event.slot), (key(USER), 1, 1_000));
    assert_eq!((nonce.user, nonce.current_nonce, nonce.bump), (key(USER), 1, 9));
    assert_eq!(increment_nonce(&accounts, &clock(), &mut nonce).unwrap().new_nonce, 2);
    let mut foreign = UserNonce { user: key(99), current_nonce: 5, bump: 0 };
    assert_eq!(
        increment_nonce(&accounts, &clock(), &mut foreign).err(),
        Some(TerminatorError::Unauthorized)
    );
    assert_eq!(foreign.current_nonce, 5);
    let mut last = UserNonce { user: key(USER), current_nonce: u64::MAX, bump: 0 };
    assert_eq!(
        increment_nonce(&accounts, &clock(), &mut last).err(),
        Some(TerminatorError::ArithmeticOverflow)
    );
    assert_eq!(last.current_nonce, u64::MAX);
}

#[test]
fn only_the_authority_manages_operators() {
    let mut g = global();
    let admin = AddOperator { admin: key(AUTHORITY) };
    let event =
        handler_add_operator(&admin, &clock(), &mut g, &AddOperatorParams { operator: key(30) }).unwrap();
    assert_eq!((event.operator, event.added_by, event.timestamp), (key(30), key(AUTHORITY), 1_700_000_000));
    assert!(g.is_operator(&key(30)));
    assert_eq!(
        handler_add_operator(&admin, &clock(), &mut g, &AddOperatorParams { operator: key(30) }).err(),
        Some(TerminatorError::AlreadyOperator)
    );
    assert_eq!(
        handler_add_operator(
            &AddOperator { admin: key(30) },
            &clock(),
            &mut g,
            &AddOperatorParams { operator: key(31) }
        )
        .err(),
        Some(TerminatorError::NotAdmin)
    );
    assert_eq!(g.operator_count, 1);
    assert_eq!(
        handler_remove_operator(
            &RemoveOperator { admin: key(30) },
            &clock(),
            &mut g,
            &RemoveOperatorParams { operator: key(30) }
        )
        .err(),
        Some(TerminatorError::NotAdmin)
    );
    assert_eq!(
        handler_remove_operator(
            &RemoveOperator { admin: key(AUTHORITY) },
            &clock(),
            &mut g,
            &RemoveOperatorParams { operator: key(31) }
        )
        .err(),
        Some(TerminatorError::OperatorNotFound)
    );
    let event = handler_remove_operator(
        &RemoveOperator { admin: key(AUTHORITY) },
        &clock(),
        &mut g,
        &RemoveOperatorParams { operator: key(30) },
    )
    .unwrap();
    assert_eq!((event.operator, event.removed_by), (key(30), key(AUTHORITY)));
    assert!(!g.is_operator(&key(30)));
    assert_eq!(g.operator_count, 0);
    for tag in 0..10u8 {
        handler_add_operator(&admin, &clock(), &mut g, &AddOperatorParams { operator: key(100 + tag) })
            .unwrap();
    }
    assert_eq!(
        handler_add_operator(&admin, &clock(), &mut g, &AddOperatorParams { operator: key(200) }).err(),
        Some(TerminatorError::MaxOperatorsReached)
    );
}

#[test]
fn global_pause_toggles_once() {
    let mut g = global();
    let admin = PauseTrading { admin: key(AUTHORITY) };
    assert_eq!(
        handler_pause_trading(&PauseTrading { admin: key(9) }, &clock(), &mut g).err(),
        Some(TerminatorError::NotAdmin)
    );
    assert_eq!(
        handler_unpause_trading(&UnpauseTrading { admin: key(AUTHORITY) }, &clock(), &mut g).err(),
        Some(TerminatorError::MarketNotPaused)
    );
    let event = handler_pause_trading(&admin, &clock(), &mut g).unwrap();
    assert_eq!((event.paused_by, event.timestamp), (key(AUTHORITY), 1_700_000_000));
    assert!(g.trading_paused);
    assert_eq!(handler_pause_trading(&admin, &clock(), &mut g).err(), Some(TerminatorError::TradingPaused));
    assert_eq!(
        handler_unpause_trading(&UnpauseTrading { admin: key(9) }, &clock(), &mut g).err(),
        Some(TerminatorError::NotAdmin)
    );
    assert!(g.trading_paused);
    let event =
        handler_unpause_trading(&UnpauseTrading { admin: key(AUTHORITY) }, &clock(), &mut g).unwrap();
    assert_eq!(event.unpaused_by, key(AUTHORITY));
    assert!(!g.trading_paused);
}

#[test]
fn market_pause_and_resume() {
    let g = global();
    let mut m = market();
    m.last_activity_ts = 5;
    let pause = PauseMarket { authority: key(AUTHORITY), market: key(MARKET) };
    let resume = ResumeMarket { authority: key(AUTHORITY), market: key(MARKET) };
    assert_eq!(resume_market(&resume, &clock(), &g, &mut m).err(), Some(TerminatorError::MarketNotPaused));
    assert_eq!(
        pause_market(&PauseMarket { authority: key(9), market: key(MARKET) }, &clock(), &g, &mut m).err(),
        Some(TerminatorError::Unauthorized)
    );
    let event = pause_market(&pause, &clock(), &g, &mut m).unwrap();
    assert_eq!((event.market, event.paused_by, event.paused_at), (key(MARKET), key(AUTHORITY), 1_700_000_000));
    assert!(m.is_paused && !m.can_trade() && m.is_active());
    assert_eq!(m.paused_at, Some(1_700_000_000));
    assert_eq!(m.last_activity_ts, 5);
    assert_eq!(pause_market(&pause, &clock(), &g, &mut m).err(), Some(TerminatorError::InvalidMarketType));
    assert_eq!(
        resume_market(&ResumeMarket { authority: key(9), market: key(MARKET) }, &clock(), &g, &mut m).err(),
        Some(TerminatorError::Unauthorized)
    );
    let later = Clock { slot: 2_000, unix_timestamp: 1_800_000_000 };
    let event = resume_market(&resume, &later, &g, &mut m).unwrap();
    assert_eq!(event.resumed_at, 1_800_000_000);
    assert!(!m.is_paused && m.can_trade());
    assert_eq!(m.paused_at, None);
    // the inactivity clock restarts on resume
    assert_eq!(m.last_activity_ts, 1_800_000_000);
    assert_eq!(m.last_trade_slot, Some(2_000));
}

fn rates(center: u32, extreme: u32, platform: u32, maker: u32, creator: u32) -> UpdateFeeRatesParams {
    UpdateFeeRatesParams {
        center_taker_fee_rate: center,
        extreme_taker_fee_rate: extreme,
        platform_fee_rate: platform,
        maker_rebate_rate: maker,
        creator_incentive_rate: creator,
    }
}

#[test]
fn fee_configuration_must_be_whole() {
    let accounts = UpdateFeeRates { authority: key(AUTHORITY) };
    let run = |params: UpdateFeeRatesParams, accounts: &UpdateFeeRates| {
        let mut g = global();
        let before = g;
        let r = update_fee_rates(accounts, &clock(), &mut g, &params);
        if r.is_err() {
            assert_eq!(format!("{:?}", g), format!("{:?}", before));
        }
        (r.err(), g)
    };
    let (err, g) = run(rates(50_000, 1_000, 600_000, 300_000, 100_000), &accounts);
    assert_eq!(err, None);
    assert_eq!(
        (
            g.center_taker_fee_rate,
            g.extreme_taker_fee_rate,
            g.platform_fee_rate,
            g.maker_rebate_rate,
            g.creator_incentive_rate
        ),
        (50_000, 1_000, 600_000, 300_000, 100_000)
    );
    assert_eq!(g.calculate_taker_fee_rate(500_000), 50_000);
    let e = |p| run(p, &accounts).0;
    assert_eq!(e(rates(100_000, 100_000, 1_000_000, 0, 0)), None);
    assert_eq!(e(rates(100_001, 1_000, 600_000, 300_000, 100_000)), Some(TerminatorError::InvalidFeeRate));
    assert_eq!(e(rates(50_000, 100_001, 600_000, 300_000, 100_000)), Some(TerminatorError::InvalidFeeRate));
    assert_eq!(
        e(rates(1_000, 50_000, 600_000, 300_000, 100_000)),
        Some(TerminatorError::InvalidFeeConfiguration)
    );
    assert_eq!(
        e(rates(50_000, 1_000, 600_000, 300_000, 99_999)),
        Some(TerminatorError::InvalidFeeConfiguration)
    );
    assert_eq!(
        e(rates(50_000, 1_000, 600_000, 300_000, 100_001)),
        Some(TerminatorError::InvalidFeeConfiguration)
    );
    assert_eq!(e(rates(50_000, 1_000, u32::MAX, 1, 0)), Some(TerminatorError::ArithmeticOverflow));
    assert_eq!(e(rates(50_000, 1_000, u32::MAX - 1, 1, 1)), Some(TerminatorError::ArithmeticOverflow));
    assert_eq!(
        run(rates(50_000, 1_000, 600_000, 300_000, 100_000), &UpdateFeeRates { authority: key(9) }).0,
        Some(TerminatorError::Unauthorized)
    );
}

#[test]
fn termination_probability_is_at_most_one() {
    let g = global();
    let accounts = UpdateMarketParamsAccounts { authority: key(AUTHORITY), market: key(MARKET) };
    let mut m = market();
    let event = update_market_params(
        &accounts,
        &clock(),
        &g,
        &mut m,
        &UpdateMarketParamsInput { termination_probability: Some(1_000_000) },
    )
    .unwrap();
    assert_eq!(event.termination_probability, 1_000_000);
    assert_eq!(m.termination_probability, 1_000_000);
    assert_eq!(
        update_market_params(
            &accounts,
            &clock(),
            &g,
            &mut m,
            &UpdateMarketParamsInput { termination_probability: Some(1_000_001) }
        )
        .err(),
        Some(TerminatorError::InvalidInput)
    );
    assert_eq!(m.termination_probability, 1_000_000);
    let event = update_market_params(
        &accounts,
        &clock(),
        &g,
        &mut m,
        &UpdateMarketParamsInput { termination_probability: None },
    )
    .unwrap();
    assert_eq!(event.termination_probability, 1_000_000);
    assert_eq!(
        update_market_params(
            &UpdateMarketParamsAccounts { authority: key(9), market: key(MARKET) },
            &clock(),
            &g,
            &mut m,
            &UpdateMarketParamsInput { termination_probability: Some(5) }
        )
        .err(),
        Some(TerminatorError::Unauthorized)
    );
    assert_eq!(m.termination_probability, 1_000_000);
}

#[test]
fn keeper_is_set_by_the_authority() {
    let mut g = global();
    assert_eq!(
        set_keeper(&SetKeeper { authority: key(9) }, &mut g, &SetKeeperParams { new_keeper: key(9) }),
        Err(TerminatorError::Unauthorized)
    );
    assert_eq!(g.keeper, key(AUTHORITY));
    assert_eq!(
        set_keeper(&SetKeeper { authority: key(AUTHORITY) }, &mut g, &SetKeeperParams { new_keeper: key(9) }),
        Ok(())
    );
    assert_eq!(g.keeper, key(9));
    assert!(g.is_keeper(&key(9)));
}

#[test]
fn treasury_payouts() {
    let g = global();
    let recipient = TokenAccountInfo { mint: key(20), owner: key(70), amount: 0 };
    let event = withdraw_platform_fees(
        &WithdrawPlatformFees { authority: key(AUTHORITY) },
        &clock(),
        &g,
        500,
        &recipient,
        &WithdrawPlatformFeesParams { amount: 500 },
    )
    .unwrap();
    assert_eq!(
        (event.recipient, event.withdrawn_by, event.amount, event.withdrawn_at),
        (key(70), key(AUTHORITY), 500, 1_700_000_000)
    );
    let event = withdraw_reward_fees(
        &WithdrawRewardFees { authority: key(AUTHORITY) },
        &clock(),
        &g,
        500,
        &recipient,
        &WithdrawRewardFeesParams { amount: 1 },
    )
    .unwrap();
    assert_eq!((event.recipient, event.amount), (key(70), 1));
    let event = distribute_liquidity_reward(
        &DistributeLiquidityReward { authority: key(AUTHORITY) },
        &clock(),
        &g,
        500,
        &recipient,
        &DistributeLiquidityRewardParams { amount: 499 },
    )
    .unwrap();
    assert_eq!((event.recipient, event.distributed_by, event.amount), (key(70), key(AUTHORITY), 499));

    assert_eq!(
        withdraw_platform_fees(
            &WithdrawPlatformFees { authority: key(9) },
            &clock(),
            &g,
            500,
            &recipient,
            &WithdrawPlatformFeesParams { amount: 500 }
        )
        .err(),
        Some(TerminatorError::Unauthorized)
    );
    assert_eq!(
        withdraw_reward_fees(
            &WithdrawRewardFees { authority: key(AUTHORITY) },
            &clock(),
            &g,
            500,
            &recipient,
            &WithdrawRewardFeesParams { amount: 0 }
        )
        .err(),
        Some(TerminatorError::InvalidAmount)
    );
    assert_eq!(
        distribute_liquidity_reward(
            &DistributeLiquidityReward { authority: key(AUTHORITY) },
            &clock(),
            &g,
            500,
            &recipient,
            &DistributeLiquidityRewardParams { amount: 501 }
        )
        .err(),
        Some(TerminatorError::InsufficientVaultBalance)
    );
    let wrong = TokenAccountInfo { mint: key(21), ..recipient };
    assert_eq!(
        check_payout(&key(AUTHORITY), &key(AUTHORITY), &key(20), 500, &wrong, 5),
        Err(TerminatorError::InvalidTokenMint)
    );
    assert_eq!(
        check_payout(&key(AUTHORITY), &key(AUTHORITY), &key(20), 4, &wrong, 5),
        Err(TerminatorError::InsufficientVaultBalance)
    );
}

#[test]
fn deposits_and_withdrawals() {
    let accounts = DepositUsdc {
        global: key(GLOBAL),
        market: key(MARKET),
        user: key(USER),
        user_balance_bump: 4,
        user_position_bump: 5,
    };
    let mut m = market();
    let mut balance =
        UserBalance { user: Pubkey::default(), market: Pubkey::default(), usdc_balance: 9, bump: 0 };
    let mut position = UserPosition {
        user: Pubkey::default(),
        market: Pubkey::default(),
        yes_balance: 9,
        no_balance: 9,
        bump: 0,
    };
    assert_eq!(deposit(&accounts, &m, &mut balance, &mut position, &DepositUsdcParams { amount: 100 }), Ok(()));
    assert_eq!((balance.user, balance.market, balance.usdc_balance, balance.bump), (key(USER), key(MARKET), 100, 4));
    assert_eq!((position.user, position.yes_balance, position.no_balance, position.bump), (key(USER), 0, 0, 5));
    assert_eq!(deposit(&accounts, &m, &mut balance, &mut position, &DepositUsdcParams { amount: 1 }), Ok(()));
    assert_eq!(balance.usdc_balance, 101);
    assert_eq!(
        deposit(&accounts, &m, &mut balance, &mut position, &DepositUsdcParams { amount: 0 }),
        Err(TerminatorError::InvalidAmount)
    );
    assert_eq!(
        deposit(&accounts, &m, &mut balance, &mut position, &DepositUsdcParams { amount: u64::MAX }),
        Err(TerminatorError::ArithmeticOverflow)
    );
    assert_eq!(balance.usdc_balance, 101);

    let w = WithdrawUsdc { global: key(GLOBAL), user: key(USER) };
    assert_eq!(withdraw(&w, &m, &mut balance, &WithdrawUsdcParams { amount: 1 }), Ok(()));
    assert_eq!(balance.usdc_balance, 100);
    assert_eq!(
        withdraw(&w, &m, &mut balance, &WithdrawUsdcParams { amount: 101 }),
        Err(TerminatorError::InsufficientBalance)
    );
    assert_eq!(
        withdraw(&w, &m, &mut balance, &WithdrawUsdcParams { amount: 0 }),
        Err(TerminatorError::InvalidAmount)
    );
    assert_eq!(
        withdraw(&WithdrawUsdc { global: key(GLOBAL), user: key(9) }, &m, &mut balance, &WithdrawUsdcParams {
            amount: 1
        }),
        Err(TerminatorError::Unauthorized)
    );
    assert_eq!(
        withdraw(&WithdrawUsdc { global: key(9), user: key(USER) }, &m, &mut balance, &WithdrawUsdcParams {
            amount: 1
        }),
        Err(TerminatorError::InvalidAccountInput)
    );
    // a paused market keeps deposits and withdrawals out until it resolves
    m.is_paused = true;
    assert_eq!(
        deposit(&accounts, &m, &mut balance, &mut position, &DepositUsdcParams { amount: 1 }),
        Err(TerminatorError::MarketNotActive)
    );
    assert_eq!(
        withdraw(&w, &m, &mut balance, &WithdrawUsdcParams { amount: 1 }),
        Err(TerminatorError::MarketNotActive)
    );
    m.status = MarketStatus::Terminated;
    assert_eq!(withdraw(&w, &m, &mut balance, &WithdrawUsdcParams { amount: 100 }), Ok(()));
    assert_eq!(balance.usdc_balance, 0);
    m.global = key(9);
    assert_eq!(
        deposit(&accounts, &m, &mut balance, &mut position, &DepositUsdcParams { amount: 1 }),
        Err(TerminatorError::InvalidAccountInput)
    );
}

#[test]
fn randomness_account_is_inspected_without_change() {
    let m = market();
    let mut account = randomness_account();
    account.data[72..80].copy_from_slice(&900u64.to_le_bytes());
    assert_eq!(
        request_randomness(&clock(), &m, &account),
        Ok(RandomnessAge { slots_since_update: 100, is_recent: true })
    );
    account.data[72..80].copy_from_slice(&849u64.to_le_bytes());
    assert_eq!(
        request_randomness(&clock(), &m, &account),
        Ok(RandomnessAge { slots_since_update: 151, is_recent: false })
    );
    account.data[72..80].copy_from_slice(&2_000u64.to_le_bytes());
    assert_eq!(
        request_randomness(&clock(), &m, &account),
        Ok(RandomnessAge { slots_since_update: 0, is_recent: true })
    );
    let mut other = randomness_account();
    other.key = key(41);
    assert_eq!(request_randomness(&clock(), &m, &other), Err(TerminatorError::InvalidSwitchboardOracle));
    let mut other = randomness_account();
    other.owner = key(41);
    assert_eq!(request_randomness(&clock(), &m, &other), Err(TerminatorError::InvalidSwitchboardOracle));
    let mut other = randomness_account();
    other.data.truncate(10);
    assert_eq!(request_randomness(&clock(), &m, &other), Err(TerminatorError::InvalidSwitchboardOracle));
    let mut other = randomness_account();
    other.data[8] = 0;
    assert_eq!(request_randomness(&clock(), &m, &other), Err(TerminatorError::InvalidSwitchboardOracle));
    let mut resolved = market();
    resolved.status = MarketStatus::Settled;
    assert_eq!(
        request_randomness(&clock(), &resolved, &randomness_account()),
        Err(TerminatorError::MarketNotActive)
    );
}
