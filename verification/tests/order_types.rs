use catallaxyz::errors::TerminatorError;
use catallaxyz::pubkey::Pubkey;
use catallaxyz::states::order_types::{
    domain_separator_bytes, hash_order, is_crossing, order_preimage_bytes, MatchType, Order,
    ORDER_SERIALIZED_SIZE,
};
use catallaxyz::states::{side, token_id};

fn key(tag: u8) -> Pubkey {
    Pubkey { bytes: [tag; 32] }
}

fn priced(side: u8, token_id: u8, price: u64) -> Order {
    // one million shares at `price` parts per million each
    let (maker_amount, taker_amount) =
        if side == side::BUY { (price, 1_000_000) } else { (1_000_000, price) };
    Order {
        salt: 1,
        maker: key(1),
        signer: key(1),
        taker: Pubkey::default(),
        market: key(2),
        token_id,
        maker_amount,
        taker_amount,
        expiration: 0,
        nonce: 0,
        fee_rate_bps: 0,
        side,
    }
}

#[test]
fn test_order_price_calculation() {
    // BUY order: 500,000 USDC for 1,000,000 YES tokens
    // Price = 500,000 * 1,000,000 / 1,000,000 = 500,000 (0.50)
    let buy_order = Order {
        salt: 1,
        maker: Pubkey::default(),
        signer: Pubkey::default(),
        taker: Pubkey::default(),
        market: Pubkey::default(),
        token_id: token_id::YES,
        maker_amount: 500_000,
        taker_amount: 1_000_000,
        expiration: 0,
        nonce: 0,
        fee_rate_bps: 0,
        side: side::BUY,
    };
    assert_eq!(buy_order.calculate_price().unwrap(), 500_000);

    // SELL order: 1,000,000 YES tokens for 600,000 USDC
    // Price = 600,000 * 1,000,000 / 1,000,000 = 600,000 (0.60)
    let sell_order = Order {
        salt: 2,
        maker: Pubkey::default(),
        signer: Pubkey::default(),
        taker: Pubkey::default(),
        market: Pubkey::default(),
        token_id: token_id::YES,
        maker_amount: 1_000_000,
        taker_amount: 600_000,
        expiration: 0,
        nonce: 0,
        fee_rate_bps: 0,
        side: side::SELL,
    };
    assert_eq!(sell_order.calculate_price().unwrap(), 600_000);
}

#[test]
fn test_match_type_determination() {
    let buy_yes = Order {
        salt: 1,
        maker: Pubkey::default(),
        signer: Pubkey::default(),
        taker: Pubkey::default(),
        market: Pubkey::default(),
        token_id: token_id::YES,
        maker_amount: 500_000,
        taker_amount: 1_000_000,
        expiration: 0,
        nonce: 0,
        fee_rate_bps: 0,
        side: side::BUY,
    };

    let sell_yes = Order { token_id: token_id::YES, side: side::SELL, ..buy_yes.clone() };

    let buy_no = Order { token_id: token_id::NO, side: side::BUY, ..buy_yes.clone() };

    let sell_no = Order { token_id: token_id::NO, side: side::SELL, ..buy_yes.clone() };

    // BUY YES vs SELL YES = Complementary
    assert_eq!(MatchType::from_orders(&buy_yes, &sell_yes), Some(MatchType::Complementary));

    // BUY YES vs BUY NO = Mint
    assert_eq!(MatchType::from_orders(&buy_yes, &buy_no), Some(MatchType::Mint));

    // SELL YES vs SELL NO = Merge
    assert_eq!(MatchType::from_orders(&sell_yes, &sell_no), Some(MatchType::Merge));
}

#[test]
fn match_type_rejects_other_combinations() {
    let buy_yes = priced(side::BUY, token_id::YES, 500_000);
    let sell_yes = priced(side::SELL, token_id::YES, 500_000);
    let sell_no = priced(side::SELL, token_id::NO, 500_000);
    let buy_usdc = priced(side::BUY, token_id::USDC, 500_000);
    let sell_usdc = priced(side::SELL, token_id::USDC, 500_000);

    // a swap needs the same asset on both sides
    assert_eq!(MatchType::from_orders(&buy_yes, &sell_no), None);
    assert_eq!(MatchType::from_orders(&sell_no, &buy_yes), None);
    assert_eq!(MatchType::from_orders(&sell_yes, &buy_yes), Some(MatchType::Complementary));
    // two buyers or two sellers need the two different shares
    assert_eq!(MatchType::from_orders(&buy_yes, &buy_yes), None);
    assert_eq!(MatchType::from_orders(&sell_yes, &sell_yes), None);
    assert_eq!(MatchType::from_orders(&buy_yes, &buy_usdc), None);
    assert_eq!(MatchType::from_orders(&sell_usdc, &sell_no), None);
    // an unknown side matches nothing
    let odd = Order { side: 2, ..buy_yes };
    assert_eq!(MatchType::from_orders(&odd, &sell_yes), None);
    assert_eq!(MatchType::from_orders(&buy_yes, &odd), None);
}

#[test]
fn price_edge_cases() {
    let zero_div = Order { taker_amount: 0, ..priced(side::BUY, token_id::YES, 1) };
    assert_eq!(zero_div.calculate_price(), Ok(0));
    assert_eq!(zero_div.wide_price(), 0);
    let zero_div = Order { maker_amount: 0, ..priced(side::SELL, token_id::YES, 1) };
    assert_eq!(zero_div.calculate_price(), Ok(0));
    // rounding is down
    let third = Order { maker_amount: 1, taker_amount: 3, ..priced(side::BUY, 1, 1) };
    assert_eq!(third.calculate_price(), Ok(333_333));
    assert_eq!(third.wide_price(), 333_333);
}

#[test]
fn price_is_the_exact_ratio_for_large_amounts() {
    // 20_000_000_000_000 * 10^6 does not fit in 64 bits; the ratio is still one half
    let buy = Order {
        maker_amount: 20_000_000_000_000,
        taker_amount: 40_000_000_000_000,
        ..priced(side::BUY, token_id::YES, 1)
    };
    assert_eq!(buy.calculate_price(), Ok(500_000));
    let sell = Order {
        maker_amount: 40_000_000_000_000,
        taker_amount: 30_000_000_000_000,
        ..priced(side::SELL, token_id::YES, 1)
    };
    assert_eq!(sell.calculate_price(), Ok(750_000));
    let largest = Order { maker_amount: u64::MAX, taker_amount: u64::MAX, ..buy };
    assert_eq!(largest.calculate_price(), Ok(1_000_000));
    // the largest price that fits
    let fits = Order { maker_amount: u64::MAX, taker_amount: 1_000_000, ..buy };
    assert_eq!(fits.calculate_price(), Ok(u64::MAX));
    // a price that does not fit is an overflow, not a capped value
    let too_large = Order { maker_amount: u64::MAX, taker_amount: 999_999, ..buy };
    assert_eq!(too_large.calculate_price(), Err(TerminatorError::ArithmeticOverflow));
    assert_eq!(too_large.wide_price(), (u64::MAX as u128) * 1_000_000 / 999_999);
    let huge = Order { maker_amount: u64::MAX, taker_amount: 2, ..buy };
    assert_eq!(huge.calculate_price(), Err(TerminatorError::ArithmeticOverflow));
    // crossing compares the exact ratios
    assert!(is_crossing(&buy, &Order { side: 1, maker_amount: 2, taker_amount: 1, ..buy }, MatchType::Complementary));
    assert!(!is_crossing(
        &buy,
        &Order { side: 1, maker_amount: 1_000_000, taker_amount: 500_001, ..buy },
        MatchType::Complementary
    ));
    assert!(is_crossing(&huge, &sell, MatchType::Complementary));
}

#[test]
fn order_flags() {
    let o = priced(side::BUY, token_id::YES, 500_000);
    assert!(o.is_buy() && !o.is_sell());
    assert!(o.is_yes() && !o.is_no() && !o.is_usdc());
    assert!(o.is_public());
    assert!(!Order { taker: key(9), ..o }.is_public());
    assert!(!o.is_expired(i64::MAX));
    let e = Order { expiration: 10, ..o };
    assert!(!e.is_expired(10));
    assert!(e.is_expired(11));
    let s = priced(side::SELL, token_id::NO, 500_000);
    assert!(s.is_sell() && s.is_no());
    assert!(priced(side::SELL, token_id::USDC, 1).is_usdc());
}

#[test]
fn complementary_crossing() {
    // taker buys at 0.50, maker asks 0.60: no cross
    let taker = priced(side::BUY, token_id::YES, 500_000);
    let maker = priced(side::SELL, token_id::YES, 600_000);
    assert!(!is_crossing(&taker, &maker, MatchType::Complementary));
    // taker buys at 0.60, maker asks 0.60: cross
    let taker = priced(side::BUY, token_id::YES, 600_000);
    assert!(is_crossing(&taker, &maker, MatchType::Complementary));
    // taker sells at 0.60, maker bids 0.50: no cross; maker bids 0.70: cross
    let taker = priced(side::SELL, token_id::YES, 600_000);
    assert!(!is_crossing(&taker, &priced(side::BUY, token_id::YES, 500_000), MatchType::Complementary));
    assert!(is_crossing(&taker, &priced(side::BUY, token_id::YES, 700_000), MatchType::Complementary));
}

#[test]
fn synthesize_crossing_needs_sum_at_most_one() {
    // 0.40 + 0.55 = 0.95: valid
    let a = priced(side::BUY, token_id::YES, 400_000);
    let b = priced(side::BUY, token_id::NO, 550_000);
    assert!(is_crossing(&a, &b, MatchType::Mint));
    // 0.60 + 0.50 = 1.10: rejected
    let a = priced(side::BUY, token_id::YES, 600_000);
    let b = priced(side::BUY, token_id::NO, 500_000);
    assert!(!is_crossing(&a, &b, MatchType::Mint));
    // exactly 1.0 is valid
    let b = priced(side::BUY, token_id::NO, 400_000);
    assert!(is_crossing(&a, &b, MatchType::Mint));
}

#[test]
fn redeem_crossing_needs_sum_at_least_one() {
    let a = priced(side::SELL, token_id::YES, 600_000);
    assert!(is_crossing(&a, &priced(side::SELL, token_id::NO, 400_000), MatchType::Merge));
    assert!(is_crossing(&a, &priced(side::SELL, token_id::NO, 500_000), MatchType::Merge));
    assert!(!is_crossing(&a, &priced(side::SELL, token_id::NO, 399_999), MatchType::Merge));
    // prices beyond any machine word still compare exactly
    let huge = Order { maker_amount: 1, taker_amount: u64::MAX, ..a };
    assert!(is_crossing(&huge, &huge, MatchType::Merge));
    assert!(!is_crossing(
        &Order { side: 0, maker_amount: u64::MAX, taker_amount: 1, ..a },
        &Order { side: 0, maker_amount: u64::MAX, taker_amount: 1, ..a },
        MatchType::Mint
    ));
}

fn sample() -> Order {
    Order {
        salt: 0x0102_0304_0506_0708,
        maker: key(0x11),
        signer: key(0x22),
        taker: key(0x33),
        market: key(0x44),
        token_id: 2,
        maker_amount: 1_000_000,
        taker_amount: 600_000,
        expiration: -5,
        nonce: 9,
        fee_rate_bps: 0x0102,
        side: 1,
    }
}

#[test]
fn encoding_is_the_borsh_layout() {
    let o = sample();
    let encoded = o.encode();
    assert_eq!(encoded.len(), ORDER_SERIALIZED_SIZE);
    let expected = anchor_lang::prelude::borsh::to_vec(&(
        o.salt,
        o.maker.bytes,
        o.signer.bytes,
        o.taker.bytes,
        o.market.bytes,
        o.token_id,
        o.maker_amount,
        o.taker_amount,
        o.expiration,
        o.nonce,
        o.fee_rate_bps,
        o.side,
    ))
    .unwrap();
    assert_eq!(encoded, expected);
    assert_eq!(&encoded[0..8], &[8, 7, 6, 5, 4, 3, 2, 1]);
    assert_eq!(&encoded[153..161], &(-5i64).to_le_bytes());
    assert_eq!(&encoded[169..171], &[0x02, 0x01]);
    assert_eq!(encoded[171], 1);
}

#[test]
fn hash_is_blake3_of_domain_separator_and_encoding() {
    let o = sample();
    assert_eq!(domain_separator_bytes(), b"Catallaxyz Exchange v1".to_vec());
    let mut preimage = b"Catallaxyz Exchange v1".to_vec();
    preimage.extend_from_slice(&o.encode());
    assert_eq!(order_preimage_bytes(&o), preimage);
    let hash = hash_order(&o);
    assert_eq!(&hash, blake3::hash(&preimage).as_bytes());
    // the hash is a digest, not its input handed back
    assert_ne!(&hash[..], &preimage[..32]);
    // known answer for the empty message guards the primitive itself
    assert_eq!(
        blake3::hash(b"").to_hex().as_str(),
        "af1349b9f5f9a1a6a0404dea36dcc9499bcb25c9adc112b7cc9a93cae41f3262"
    );
}

#[test]
fn hash_changes_with_every_field() {
    let o = sample();
    let h = hash_order(&o);
    assert_ne!(h, hash_order(&Order { salt: o.salt + 1, ..o }));
    assert_ne!(h, hash_order(&Order { maker: key(1), ..o }));
    assert_ne!(h, hash_order(&Order { signer: key(1), ..o }));
    assert_ne!(h, hash_order(&Order { taker: key(1), ..o }));
    assert_ne!(h, hash_order(&Order { market: key(1), ..o }));
    assert_ne!(h, hash_order(&Order { token_id: 1, ..o }));
    assert_ne!(h, hash_order(&Order { maker_amount: 1, ..o }));
    assert_ne!(h, hash_order(&Order { taker_amount: 1, ..o }));
    assert_ne!(h, hash_order(&Order { expiration: 5, ..o }));
    assert_ne!(h, hash_order(&Order { nonce: 1, ..o }));
    assert_ne!(h, hash_order(&Order { fee_rate_bps: 1, ..o }));
    assert_ne!(h, hash_order(&Order { side: 0, ..o }));
    assert_eq!(h, hash_order(&o.clone()));
}

#[test]
fn orders_compare_by_fields() {
    let o = sample();
    assert_eq!(o, o.clone());
    assert_ne!(o, Order { nonce: 10, ..o });
    assert_ne!(o, Order { maker: key(0x12), ..o });
}
