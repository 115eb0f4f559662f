//! Orders, their canonical encoding and hash, and how two orders pair up.

use vstd::prelude::*;
use crate::bytes::{i64_le, push_all, push_i64_le, push_u16_le, push_u64_le, u16_le, u64_le};
use crate::constants::PRICE_SCALE;
use crate::errors::TerminatorError;
use crate::hashing::{blake3_digest, blake3_hash};
use crate::pubkey::Pubkey;
use crate::utils::lemma_product_fits;

verus! {

/// Number of bytes in the canonical encoding of an order.
pub const ORDER_SERIALIZED_SIZE: usize = 172;

/// Number of bytes in an encoded order followed by its signature.
pub const SIGNED_ORDER_SERIALIZED_SIZE: usize = 236;

/// An unsigned trading intent.
#[derive(Clone, Copy, Debug, Eq)]
pub struct Order {
    /// Entropy that tells otherwise identical orders apart.
    pub salt: u64,
    /// Whose funds the order moves.
    pub maker: Pubkey,
    /// Who signs the order; may be a delegate of the maker.
    pub signer: Pubkey,
    /// The only counterparty allowed, or the zero key for anybody.
    pub taker: Pubkey,
    /// The market the order trades in.
    pub market: Pubkey,
    /// 0 for collateral, 1 for YES, 2 for NO.
    pub token_id: u8,
    /// What the maker gives.
    pub maker_amount: u64,
    /// What the maker expects in return.
    pub taker_amount: u64,
    /// Unix time after which the order is dead; 0 for never.
    pub expiration: i64,
    /// The maker's nonce when the order was signed.
    pub nonce: u64,
    /// Fee rate in basis points.
    pub fee_rate_bps: u16,
    /// 0 to buy, 1 to sell.
    pub side: u8,
}

impl PartialEq for Order {
    fn eq(&self, other: &Self) -> (r: bool) {
        self.salt == other.salt && self.maker == other.maker && self.signer == other.signer
            && self.taker == other.taker && self.market == other.market && self.token_id
            == other.token_id && self.maker_amount == other.maker_amount && self.taker_amount
            == other.taker_amount && self.expiration == other.expiration && self.nonce
            == other.nonce && self.fee_rate_bps == other.fee_rate_bps && self.side == other.side
    }
}

impl vstd::std_specs::cmp::PartialEqSpecImpl for Order {
    open spec fn obeys_eq_spec() -> bool {
        true
    }

    open spec fn eq_spec(&self, other: &Self) -> bool {
        *self == *other
    }
}

impl Order {
    /// Whether the maker buys shares.
    pub open spec fn spec_is_buy(&self) -> bool {
        self.side == 0
    }

    /// Collateral per share at the 10^6 scale: what a buyer offers per
    /// share wanted, or what a seller asks per share offered, rounded
    /// down. Zero when the share amount is zero. The ratio is exact: it is
    /// taken over the integers and may exceed any machine word.
    pub open spec fn spec_price(&self) -> int {
        if self.side == 0 {
            if self.taker_amount == 0 {
                0
            } else {
                (self.maker_amount * PRICE_SCALE) / (self.taker_amount as int)
            }
        } else {
            if self.maker_amount == 0 {
                0
            } else {
                (self.taker_amount * PRICE_SCALE) / (self.maker_amount as int)
            }
        }
    }

    /// Whether the order has an expiry that lies before `current_timestamp`.
    pub open spec fn spec_is_expired(&self, current_timestamp: i64) -> bool {
        self.expiration > 0 && self.expiration < current_timestamp
    }

    /// Whether any counterparty may take the order.
    pub open spec fn spec_is_public(&self) -> bool {
        self.taker == Pubkey::zero()
    }

    /// The canonical byte string of the order: its fields in declaration
    /// order, integers little-endian, keys as their 32 bytes.
    pub open spec fn encoding(&self) -> Seq<u8> {
        u64_le(self.salt) + self.maker@ + self.signer@ + self.taker@ + self.market@
            + seq![self.token_id] + u64_le(self.maker_amount) + u64_le(self.taker_amount)
            + i64_le(self.expiration) + u64_le(self.nonce) + u16_le(self.fee_rate_bps)
            + seq![self.side]
    }

    #[verifier::when_used_as_spec(spec_is_buy)]
    pub fn is_buy(&self) -> (r: bool)
        ensures
            r == (self.side == 0),
    {
        self.side == 0
    }

    pub fn is_sell(&self) -> (r: bool)
        ensures
            r == (self.side == 1),
    {
        self.side == 1
    }

    pub fn is_yes(&self) -> (r: bool)
        ensures
            r == (self.token_id == 1),
    {
        self.token_id == 1
    }

    pub fn is_no(&self) -> (r: bool)
        ensures
            r == (self.token_id == 2),
    {
        self.token_id == 2
    }

    pub fn is_usdc(&self) -> (r: bool)
        ensures
            r == (self.token_id == 0),
    {
        self.token_id == 0
    }

    #[verifier::when_used_as_spec(spec_is_expired)]
    pub fn is_expired(&self, current_timestamp: i64) -> (r: bool)
        ensures
            r == self.spec_is_expired(current_timestamp),
    {
        self.expiration > 0 && self.expiration < current_timestamp
    }

    #[verifier::when_used_as_spec(spec_is_public)]
    pub fn is_public(&self) -> (r: bool)
        ensures
            r == self.spec_is_public(),
    {
        self.taker.is_default()
    }

    /// The order's unit price at the 10^6 scale, computed in 128 bits.
    pub fn wide_price(&self) -> (price: u128)
        ensures
            price == self.spec_price(),
            price <= u64::MAX * PRICE_SCALE,
    {
        let (amount, divisor) = if self.is_buy() {
            (self.maker_amount, self.taker_amount)
        } else {
            (self.taker_amount, self.maker_amount)
        };
        proof {
            lemma_product_fits(amount, PRICE_SCALE);
        }
        if divisor == 0 {
            return 0;
        }
        let product: u128 = (amount as u128) * (PRICE_SCALE as u128);
        assert(product / (divisor as u128) <= product) by (nonlinear_arith)
            requires
                divisor > 0,
        ;
        assert(amount * PRICE_SCALE <= u64::MAX * PRICE_SCALE) by (nonlinear_arith)
            requires
                amount <= u64::MAX,
        ;
        product / (divisor as u128)
    }

    /// The order's unit price at the 10^6 scale. A price that does not fit
    /// in 64 bits is an overflow, never a capped value.
    pub fn calculate_price(&self) -> (r: Result<u64, TerminatorError>)
        ensures
            self.spec_price() <= u64::MAX ==> r == Ok::<u64, TerminatorError>(
                self.spec_price() as u64,
            ),
            self.spec_price() > u64::MAX ==> r == Err::<u64, TerminatorError>(
                TerminatorError::ArithmeticOverflow,
            ),
    {
        let price = self.wide_price();
        if price > u64::MAX as u128 {
            Err(TerminatorError::ArithmeticOverflow)
        } else {
            Ok(price as u64)
        }
    }

    /// Writes the canonical byte string of the order.
    pub fn encode(&self) -> (out: Vec<u8>)
        ensures
            out@ == self.encoding(),
            out@.len() == ORDER_SERIALIZED_SIZE,
    {
        let mut out: Vec<u8> = Vec::new();
        push_u64_le(&mut out, self.salt);
        assert(out@ =~= u64_le(self.salt));
        push_all(&mut out, self.maker.bytes.as_slice());
        push_all(&mut out, self.signer.bytes.as_slice());
        push_all(&mut out, self.taker.bytes.as_slice());
        push_all(&mut out, self.market.bytes.as_slice());
        let ghost keys = out@;
        assert(keys.len() == 136);
        out.push(self.token_id);
        assert(out@ =~= keys + seq![self.token_id]);
        push_u64_le(&mut out, self.maker_amount);
        push_u64_le(&mut out, self.taker_amount);
        push_i64_le(&mut out, self.expiration);
        push_u64_le(&mut out, self.nonce);
        push_u16_le(&mut out, self.fee_rate_bps);
        let ghost body = out@;
        assert(body.len() == 171);
        out.push(self.side);
        assert(out@ =~= body + seq![self.side]);
        out
    }
}

/// An order together with the signature over its hash.
#[derive(Clone, Copy, Debug)]
pub struct SignedOrder {
    pub order: Order,
    pub signature: [u8; 64],
}

/// How a pair of orders is executed.
#[derive(Clone, Copy, Debug, PartialEq, Eq, Structural)]
pub enum MatchType {
    /// A buyer meets a seller of the same share: a direct swap.
    Complementary,
    /// Two buyers of opposite shares: collateral from both mints a pair.
    Mint,
    /// Two sellers of opposite shares: a pair is burned for collateral.
    Merge,
}

/// Whether two orders name the two different outcome shares.
pub open spec fn complementary_tokens(taker: Order, maker: Order) -> bool {
    taker.token_id != maker.token_id && taker.token_id != 0 && maker.token_id != 0
}

/// The execution mode of a taker order against a maker order, if any.
pub open spec fn match_type_of(taker: Order, maker: Order) -> Option<MatchType> {
    if (taker.side == 0 && maker.side == 1) || (taker.side == 1 && maker.side == 0) {
        if taker.token_id == maker.token_id {
            Some(MatchType::Complementary)
        } else {
            None
        }
    } else if taker.side == 0 && maker.side == 0 {
        if complementary_tokens(taker, maker) {
            Some(MatchType::Mint)
        } else {
            None
        }
    } else if taker.side == 1 && maker.side == 1 {
        if complementary_tokens(taker, maker) {
            Some(MatchType::Merge)
        } else {
            None
        }
    } else {
        None
    }
}

impl MatchType {
    /// Classifies a pair of orders by their sides and assets.
    pub fn from_orders(taker: &Order, maker: &Order) -> (r: Option<Self>)
        ensures
            r == match_type_of(*taker, *maker),
    {
        let complementary = taker.token_id != maker.token_id && taker.token_id != 0
            && maker.token_id != 0;
        if (taker.side == 0 && maker.side == 1) || (taker.side == 1 && maker.side == 0) {
            if taker.token_id == maker.token_id {
                Some(MatchType::Complementary)
            } else {
                None
            }
        } else if taker.side == 0 && maker.side == 0 {
            if complementary {
                Some(MatchType::Mint)
            } else {
                None
            }
        } else if taker.side == 1 && maker.side == 1 {
            if complementary {
                Some(MatchType::Merge)
            } else {
                None
            }
        } else {
            None
        }
    }
}

/// Whether the prices of two orders allow them to be matched in the given
/// mode: a buyer must bid at least the ask (a seller ask at most the bid);
/// two buyers must not pay more than 1.0 together; two sellers must not ask
/// less than 1.0 together. The prices compared are the exact ratios.
pub open spec fn crossing(taker: Order, maker: Order, match_type: MatchType) -> bool {
    let taker_price = taker.spec_price();
    let maker_price = maker.spec_price();
    match match_type {
        MatchType::Complementary => if taker.side == 0 {
            taker_price >= maker_price
        } else {
            taker_price <= maker_price
        },
        MatchType::Mint => taker_price + maker_price <= PRICE_SCALE,
        MatchType::Merge => taker_price + maker_price >= PRICE_SCALE,
    }
}

/// Checks whether two orders have crossing prices for the given mode.
pub fn is_crossing(taker: &Order, maker: &Order, match_type: MatchType) -> (r: bool)
    ensures
        r == crossing(*taker, *maker, match_type),
{
    let taker_price = taker.wide_price();
    let maker_price = maker.wide_price();
    match match_type {
        MatchType::Complementary => {
            if taker.is_buy() {
                taker_price >= maker_price
            } else {
                taker_price <= maker_price
            }
        },
        MatchType::Mint => taker_price + maker_price <= PRICE_SCALE as u128,
        MatchType::Merge => taker_price + maker_price >= PRICE_SCALE as u128,
    }
}

/// A direct swap in which the buying taker bids less than the maker asks
/// does not cross, and neither does a mint in which the two buyers would
/// pay more than 1.0 together.
pub proof fn lemma_crossing_rejects(taker: Order, maker: Order)
    ensures
        taker.side == 0 && taker.spec_price() < maker.spec_price() ==> !crossing(
            taker,
            maker,
            MatchType::Complementary,
        ),
        taker.spec_price() + maker.spec_price() > PRICE_SCALE ==> !crossing(
            taker,
            maker,
            MatchType::Mint,
        ),
{
}

/// The 22 bytes that open every order hash preimage.
pub open spec fn domain_separator() -> Seq<u8> {
    seq![
        0x43u8, 0x61u8, 0x74u8, 0x61u8, 0x6cu8, 0x6cu8, 0x61u8, 0x78u8, 0x79u8, 0x7au8, 0x20u8,
        0x45u8, 0x78u8, 0x63u8, 0x68u8, 0x61u8, 0x6eu8, 0x67u8, 0x65u8, 0x20u8, 0x76u8, 0x31u8,
    ]
}

/// The bytes whose digest identifies an order: the domain separator
/// followed by the order's canonical encoding.
pub open spec fn order_preimage(order: Order) -> Seq<u8> {
    domain_separator() + order.encoding()
}

/// The identity of an order: the BLAKE3 digest of its preimage.
pub open spec fn order_hash(order: Order) -> [u8; 32] {
    blake3_digest(order_preimage(order))
}

/// Writes the domain separator, the ASCII text `Catallaxyz Exchange v1`.
pub fn domain_separator_bytes() -> (out: Vec<u8>)
    ensures
        out@ == domain_separator(),
{
    let out = vec![
        0x43u8, 0x61u8, 0x74u8, 0x61u8, 0x6cu8, 0x6cu8, 0x61u8, 0x78u8, 0x79u8, 0x7au8, 0x20u8,
        0x45u8, 0x78u8, 0x63u8, 0x68u8, 0x61u8, 0x6eu8, 0x67u8, 0x65u8, 0x20u8, 0x76u8, 0x31u8,
    ];
    assert(out@ =~= domain_separator());
    out
}

/// Writes the bytes that `hash_order` digests.
pub fn order_preimage_bytes(order: &Order) -> (out: Vec<u8>)
    ensures
        out@ == order_preimage(*order),
{
    let mut out = domain_separator_bytes();
    let encoded = order.encode();
    push_all(&mut out, encoded.as_slice());
    out
}

/// Hashes an order: BLAKE3 over the domain separator and the encoding.
pub fn hash_order(order: &Order) -> (hash: [u8; 32])
    ensures
        hash == order_hash(*order),
{
    let preimage = order_preimage_bytes(order);
    blake3_hash(preimage.as_slice())
}

} // verus!
