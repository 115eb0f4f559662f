//! Matching one taker order against up to five maker orders, atomically.
//!
//! A pair of orders executes in one of three modes. A buyer and a seller of
//! the same share swap directly. Two buyers of opposite shares put up
//! collateral for a freshly minted pair. Two sellers of opposite shares
//! have a pair burned and share the collateral it frees.

use vstd::prelude::*;
use crate::clock::Clock;
use crate::errors::TerminatorError;
use crate::events::{OrderFilled, OrdersMatched};
use crate::instructions::calculator::{
    calculate_fee,
    calculate_taking_amount,
    order_fee,
    order_rejection,
    taker_allowed,
    taking_amount,
    validate_order,
    validate_taker,
};
use crate::instructions::ed25519_verify::{
    signature_verified_at,
    verify_ed25519_at_index,
    Instruction,
    TransactionInstructions,
};
use crate::pubkey::Pubkey;
use crate::states::global::Global;
use crate::states::ledger::{Holdings, Supply};
use crate::states::market::{status_step, Market};
use crate::states::order_status::OrderStatus;
use crate::states::order_types::{
    crossing,
    hash_order,
    is_crossing,
    match_type_of,
    order_hash,
    MatchType,
    Order,
    SignedOrder,
};
use crate::states::user_balance::UserBalance;
use crate::states::user_nonce::UserNonce;
use crate::states::user_position::UserPosition;
use crate::utils::{scale_price, scaled};

verus! {

/// Maximum number of maker orders in one match.
pub const MAX_MAKER_ORDERS: usize = 5;

/// What the operator asks to be matched.
#[derive(Clone, Debug)]
pub struct MatchOrdersParams {
    /// The signed taker order.
    pub taker_order: SignedOrder,
    /// How much of the taker order to mark as filled.
    pub taker_fill_amount: u64,
    /// The signed maker orders.
    pub maker_orders: Vec<SignedOrder>,
    /// How much of each maker order to fill.
    pub maker_fill_amounts: Vec<u64>,
}

/// The identities of the accounts a match runs on.
#[derive(Clone, Copy, Debug)]
pub struct MatchOrders {
    /// Who executes the match.
    pub operator: Pubkey,
    /// The key of the exchange-wide record.
    pub global: Pubkey,
    /// The key of the market record.
    pub market: Pubkey,
    /// The wallet the taker records are said to belong to.
    pub taker: Pubkey,
    /// Address bump of the taker's fill record.
    pub taker_order_status_bump: u8,
}

/// The records one maker brings to a match.
#[derive(Clone, Copy, Debug)]
pub struct MakerAccounts {
    /// The wallet these records are said to belong to.
    pub maker: Pubkey,
    pub nonce: UserNonce,
    pub balance: UserBalance,
    pub position: UserPosition,
    pub order_status: OrderStatus,
}

/// What a match has changed so far on the taker's side and in the market.
#[derive(Clone, Copy, Debug)]
pub struct MatchProgress {
    pub taker_balance: UserBalance,
    pub taker_position: UserPosition,
    pub supply: Supply,
    /// Sum of the taking amounts of the makers matched so far.
    pub total_taker_taking: u64,
}

/// The events of a successful match: one fill per maker, then the summary.
#[derive(Clone, Debug)]
pub struct MatchOrdersOutcome {
    pub fills: Vec<OrderFilled>,
    pub matched: OrdersMatched,
}

/// The holdings of taker and maker after a direct swap of `maker_fill`
/// shares for `taking` collateral, of which `fee` is withheld from the
/// seller. The buyer must hold the collateral and the seller the shares.
pub open spec fn complementary_outcome(
    taker_order: Order,
    maker_order: Order,
    maker_fill: u64,
    taking: u64,
    fee: u64,
    taker: Holdings,
    maker: Holdings,
) -> Result<(Holdings, Holdings), TerminatorError> {
    if fee > taking {
        Err(TerminatorError::ArithmeticOverflow)
    } else if taker_order.side == 0 {
        let yes = maker_order.token_id == 1;
        if taker.usdc < taking {
            Err(TerminatorError::InsufficientBalance)
        } else if maker.spec_shares(yes) < maker_fill {
            Err(TerminatorError::InsufficientOutcomeTokens)
        } else if maker.usdc + (taking - fee) > u64::MAX || taker.spec_shares(yes) + maker_fill
            > u64::MAX {
            Err(TerminatorError::ArithmeticOverflow)
        } else {
            Ok(
                (
                    (Holdings { usdc: (taker.usdc - taking) as u64, ..taker }).spec_with_shares(
                        yes,
                        (taker.spec_shares(yes) + maker_fill) as u64,
                    ),
                    (Holdings {
                        usdc: (maker.usdc + (taking - fee)) as u64,
                        ..maker
                    }).spec_with_shares(yes, (maker.spec_shares(yes) - maker_fill) as u64),
                ),
            )
        }
    } else {
        let yes = taker_order.token_id == 1;
        if maker.usdc < taking {
            Err(TerminatorError::InsufficientBalance)
        } else if taker.spec_shares(yes) < maker_fill {
            Err(TerminatorError::InsufficientOutcomeTokens)
        } else if taker.usdc + (taking - fee) > u64::MAX || maker.spec_shares(yes) + maker_fill
            > u64::MAX {
            Err(TerminatorError::ArithmeticOverflow)
        } else {
            Ok(
                (
                    (Holdings {
                        usdc: (taker.usdc + (taking - fee)) as u64,
                        ..taker
                    }).spec_with_shares(yes, (taker.spec_shares(yes) - maker_fill) as u64),
                    (Holdings { usdc: (maker.usdc - taking) as u64, ..maker }).spec_with_shares(
                        yes,
                        (maker.spec_shares(yes) + maker_fill) as u64,
                    ),
                ),
            )
        }
    }
}

/// Holdings and supply after minting `mint_amount` pairs: each buyer pays
/// `mint_amount` times the price of its own order and receives the share
/// it asked for; both supplies and the position collateral grow by
/// `mint_amount`. A price or a payment that does not fit in 64 bits is an
/// overflow.
pub open spec fn mint_outcome(
    taker_order: Order,
    maker_order: Order,
    mint_amount: u64,
    taker: Holdings,
    maker: Holdings,
    supply: Supply,
) -> Result<(Holdings, Holdings, Supply), TerminatorError> {
    let taker_pays = scaled(mint_amount as int, taker_order.spec_price());
    let maker_pays = scaled(mint_amount as int, maker_order.spec_price());
    let taker_yes = taker_order.token_id == 1;
    if taker_order.spec_price() > u64::MAX || maker_order.spec_price() > u64::MAX || taker_pays
        > u64::MAX || maker_pays > u64::MAX {
        Err(TerminatorError::ArithmeticOverflow)
    } else if taker.usdc < taker_pays || maker.usdc < maker_pays {
        Err(TerminatorError::InsufficientBalance)
    } else if taker.spec_shares(taker_yes) + mint_amount > u64::MAX || maker.spec_shares(
        !taker_yes,
    ) + mint_amount > u64::MAX || supply.yes + mint_amount > u64::MAX || supply.no + mint_amount
        > u64::MAX || supply.collateral + mint_amount > u64::MAX {
        Err(TerminatorError::ArithmeticOverflow)
    } else {
        Ok(
            (
                (Holdings { usdc: (taker.usdc - taker_pays) as u64, ..taker }).spec_with_shares(
                    taker_yes,
                    (taker.spec_shares(taker_yes) + mint_amount) as u64,
                ),
                (Holdings { usdc: (maker.usdc - maker_pays) as u64, ..maker }).spec_with_shares(
                    !taker_yes,
                    (maker.spec_shares(!taker_yes) + mint_amount) as u64,
                ),
                Supply {
                    collateral: (supply.collateral + mint_amount) as u64,
                    yes: (supply.yes + mint_amount) as u64,
                    no: (supply.no + mint_amount) as u64,
                },
            ),
        )
    }
}

/// Holdings and supply after burning `merge_amount` pairs: each seller
/// gives up the share it offered and receives `merge_amount` times the
/// price of its own order; both supplies and the position collateral
/// shrink by `merge_amount`. A price or a payout that does not fit in 64
/// bits is an overflow.
pub open spec fn merge_outcome(
    taker_order: Order,
    maker_order: Order,
    merge_amount: u64,
    taker: Holdings,
    maker: Holdings,
    supply: Supply,
) -> Result<(Holdings, Holdings, Supply), TerminatorError> {
    let taker_gets = scaled(merge_amount as int, taker_order.spec_price());
    let maker_gets = scaled(merge_amount as int, maker_order.spec_price());
    let taker_yes = taker_order.token_id == 1;
    if taker_order.spec_price() > u64::MAX || maker_order.spec_price() > u64::MAX || taker_gets
        > u64::MAX || maker_gets > u64::MAX {
        Err(TerminatorError::ArithmeticOverflow)
    } else if taker.spec_shares(taker_yes) < merge_amount || maker.spec_shares(!taker_yes)
        < merge_amount {
        Err(TerminatorError::InsufficientOutcomeTokens)
    } else if taker.usdc + taker_gets > u64::MAX || maker.usdc + maker_gets > u64::MAX
        || supply.yes < merge_amount || supply.no < merge_amount || supply.collateral
        < merge_amount {
        Err(TerminatorError::ArithmeticOverflow)
    } else {
        Ok(
            (
                (Holdings { usdc: (taker.usdc + taker_gets) as u64, ..taker }).spec_with_shares(
                    taker_yes,
                    (taker.spec_shares(taker_yes) - merge_amount) as u64,
                ),
                (Holdings { usdc: (maker.usdc + maker_gets) as u64, ..maker }).spec_with_shares(
                    !taker_yes,
                    (maker.spec_shares(!taker_yes) - merge_amount) as u64,
                ),
                Supply {
                    collateral: (supply.collateral - merge_amount) as u64,
                    yes: (supply.yes - merge_amount) as u64,
                    no: (supply.no - merge_amount) as u64,
                },
            ),
        )
    }
}

/// Holdings and supply after one pair of orders executes in `match_type`.
/// A direct swap leaves the supply alone.
pub open spec fn execution_outcome(
    match_type: MatchType,
    taker_order: Order,
    maker_order: Order,
    maker_fill: u64,
    taking: u64,
    fee: u64,
    taker: Holdings,
    maker: Holdings,
    supply: Supply,
) -> Result<(Holdings, Holdings, Supply), TerminatorError> {
    match match_type {
        MatchType::Complementary => match complementary_outcome(
            taker_order,
            maker_order,
            maker_fill,
            taking,
            fee,
            taker,
            maker,
        ) {
            Ok((t, m)) => Ok((t, m, supply)),
            Err(e) => Err(e),
        },
        MatchType::Mint => mint_outcome(taker_order, maker_order, maker_fill, taker, maker, supply),
        MatchType::Merge => merge_outcome(
            taker_order,
            maker_order,
            maker_fill,
            taker,
            maker,
            supply,
        ),
    }
}

/// Executing a pair of orders moves the three supply figures together: a
/// swap leaves them alone, a mint raises each by the fill, a merge lowers
/// each by the fill. So a balanced supply stays balanced.
pub proof fn lemma_execution_conserves(
    match_type: MatchType,
    taker_order: Order,
    maker_order: Order,
    maker_fill: u64,
    taking: u64,
    fee: u64,
    taker: Holdings,
    maker: Holdings,
    supply: Supply,
)
    ensures
        execution_outcome(
            match_type,
            taker_order,
            maker_order,
            maker_fill,
            taking,
            fee,
            taker,
            maker,
            supply,
        ) matches Ok(after) ==> {
            let step = match match_type {
                MatchType::Complementary => 0,
                MatchType::Mint => maker_fill as int,
                MatchType::Merge => -(maker_fill as int),
            };
            &&& after.2.collateral == supply.collateral + step
            &&& after.2.yes == supply.yes + step
            &&& after.2.no == supply.no + step
            &&& supply.balanced() ==> after.2.balanced()
        },
{
}

/// Executes a direct swap between a buyer and a seller.
pub fn execute_complementary_match(
    taker_order: &Order,
    maker_order: &Order,
    maker_fill: u64,
    taking_amount: u64,
    fee: u64,
    taker_balance: &mut UserBalance,
    taker_position: &mut UserPosition,
    maker_balance: &mut UserBalance,
    maker_position: &mut UserPosition,
) -> (r: Result<(), TerminatorError>)
    ensures
        match complementary_outcome(
            *taker_order,
            *maker_order,
            maker_fill,
            taking_amount,
            fee,
            Holdings::spec_of(*old(taker_balance), *old(taker_position)),
            Holdings::spec_of(*old(maker_balance), *old(maker_position)),
        ) {
            Ok((taker, maker)) => {
                &&& r == Ok::<(), TerminatorError>(())
                &&& *final(taker_balance) == taker.spec_balance(*old(taker_balance))
                &&& *final(taker_position) == taker.spec_position(*old(taker_position))
                &&& *final(maker_balance) == maker.spec_balance(*old(maker_balance))
                &&& *final(maker_position) == maker.spec_position(*old(maker_position))
            },
            Err(e) => {
                &&& r == Err::<(), TerminatorError>(e)
                &&& *final(taker_balance) == *old(taker_balance)
                &&& *final(taker_position) == *old(taker_position)
                &&& *final(maker_balance) == *old(maker_balance)
                &&& *final(maker_position) == *old(maker_position)
            },
        },
{
    let taker = Holdings::of(*taker_balance, *taker_position);
    let maker = Holdings::of(*maker_balance, *maker_position);
    if fee > taking_amount {
        return Err(TerminatorError::ArithmeticOverflow);
    }
    let net = taking_amount - fee;
    let taker_buys = taker_order.is_buy();
    let yes = if taker_buys {
        maker_order.token_id == 1
    } else {
        taker_order.token_id == 1
    };
    let (buyer, seller) = if taker_buys {
        (taker, maker)
    } else {
        (maker, taker)
    };
    if buyer.usdc < taking_amount {
        return Err(TerminatorError::InsufficientBalance);
    }
    if seller.shares(yes) < maker_fill {
        return Err(TerminatorError::InsufficientOutcomeTokens);
    }
    let seller_usdc = match seller.usdc.checked_add(net) {
        Some(v) => v,
        None => { return Err(TerminatorError::ArithmeticOverflow); },
    };
    let buyer_shares = match buyer.shares(yes).checked_add(maker_fill) {
        Some(v) => v,
        None => { return Err(TerminatorError::ArithmeticOverflow); },
    };
    let buyer_after = (Holdings { usdc: buyer.usdc - taking_amount, ..buyer }).with_shares(
        yes,
        buyer_shares,
    );
    let seller_after = (Holdings { usdc: seller_usdc, ..seller }).with_shares(
        yes,
        seller.shares(yes) - maker_fill,
    );
    if taker_buys {
        buyer_after.store(taker_balance, taker_position);
        seller_after.store(maker_balance, maker_position);
    } else {
        seller_after.store(taker_balance, taker_position);
        buyer_after.store(maker_balance, maker_position);
    }
    Ok(())
}

/// Executes a mint between two buyers of opposite shares.
pub fn execute_mint_match(
    taker_order: &Order,
    maker_order: &Order,
    maker_fill: u64,
    taker_balance: &mut UserBalance,
    taker_position: &mut UserPosition,
    maker_balance: &mut UserBalance,
    maker_position: &mut UserPosition,
    supply: &mut Supply,
) -> (r: Result<(), TerminatorError>)
    ensures
        match mint_outcome(
            *taker_order,
            *maker_order,
            maker_fill,
            Holdings::spec_of(*old(taker_balance), *old(taker_position)),
            Holdings::spec_of(*old(maker_balance), *old(maker_position)),
            *old(supply),
        ) {
            Ok((taker, maker, after)) => {
                &&& r == Ok::<(), TerminatorError>(())
                &&& *final(taker_balance) == taker.spec_balance(*old(taker_balance))
                &&& *final(taker_position) == taker.spec_position(*old(taker_position))
                &&& *final(maker_balance) == maker.spec_balance(*old(maker_balance))
                &&& *final(maker_position) == maker.spec_position(*old(maker_position))
                &&& *final(supply) == after
            },
            Err(e) => {
                &&& r == Err::<(), TerminatorError>(e)
                &&& *final(taker_balance) == *old(taker_balance)
                &&& *final(taker_position) == *old(taker_position)
                &&& *final(maker_balance) == *old(maker_balance)
                &&& *final(maker_position) == *old(maker_position)
                &&& *final(supply) == *old(supply)
            },
        },
{
    let taker = Holdings::of(*taker_balance, *taker_position);
    let maker = Holdings::of(*maker_balance, *maker_position);
    let mint_amount = maker_fill;
    let (taker_price, maker_price) = match (
        taker_order.calculate_price(),
        maker_order.calculate_price(),
    ) {
        (Ok(taker_price), Ok(maker_price)) => (taker_price, maker_price),
        _ => { return Err(TerminatorError::ArithmeticOverflow); },
    };
    let taker_pays = scale_price(mint_amount, taker_price);
    let maker_pays = scale_price(mint_amount, maker_price);
    let (taker_pays, maker_pays) = match (taker_pays, maker_pays) {
        (Ok(t), Ok(m)) => (t, m),
        _ => { return Err(TerminatorError::ArithmeticOverflow); },
    };
    if taker.usdc < taker_pays || maker.usdc < maker_pays {
        return Err(TerminatorError::InsufficientBalance);
    }
    let taker_yes = taker_order.token_id == 1;
    let minted = (
        taker.shares(taker_yes).checked_add(mint_amount),
        maker.shares(!taker_yes).checked_add(mint_amount),
        supply.yes.checked_add(mint_amount),
        supply.no.checked_add(mint_amount),
        supply.collateral.checked_add(mint_amount),
    );
    match minted {
        (Some(taker_shares), Some(maker_shares), Some(yes), Some(no), Some(collateral)) => {
            let taker_after = (Holdings { usdc: taker.usdc - taker_pays, ..taker }).with_shares(
                taker_yes,
                taker_shares,
            );
            let maker_after = (Holdings { usdc: maker.usdc - maker_pays, ..maker }).with_shares(
                !taker_yes,
                maker_shares,
            );
            taker_after.store(taker_balance, taker_position);
            maker_after.store(maker_balance, maker_position);
            *supply = Supply { collateral, yes, no };
            Ok(())
        },
        _ => Err(TerminatorError::ArithmeticOverflow),
    }
}

/// Executes a merge between two sellers of opposite shares.
pub fn execute_merge_match(
    taker_order: &Order,
    maker_order: &Order,
    maker_fill: u64,
    taker_balance: &mut UserBalance,
    taker_position: &mut UserPosition,
    maker_balance: &mut UserBalance,
    maker_position: &mut UserPosition,
    supply: &mut Supply,
) -> (r: Result<(), TerminatorError>)
    ensures
        match merge_outcome(
            *taker_order,
            *maker_order,
            maker_fill,
            Holdings::spec_of(*old(taker_balance), *old(taker_position)),
            Holdings::spec_of(*old(maker_balance), *old(maker_position)),
            *old(supply),
        ) {
            Ok((taker, maker, after)) => {
                &&& r == Ok::<(), TerminatorError>(())
                &&& *final(taker_balance) == taker.spec_balance(*old(taker_balance))
                &&& *final(taker_position) == taker.spec_position(*old(taker_position))
                &&& *final(maker_balance) == maker.spec_balance(*old(maker_balance))
                &&& *final(maker_position) == maker.spec_position(*old(maker_position))
                &&& *final(supply) == after
            },
            Err(e) => {
                &&& r == Err::<(), TerminatorError>(e)
                &&& *final(taker_balance) == *old(taker_balance)
                &&& *final(taker_position) == *old(taker_position)
                &&& *final(maker_balance) == *old(maker_balance)
                &&& *final(maker_position) == *old(maker_position)
                &&& *final(supply) == *old(supply)
            },
        },
{
    let taker = Holdings::of(*taker_balance, *taker_position);
    let maker = Holdings::of(*maker_balance, *maker_position);
    let merge_amount = maker_fill;
    let (taker_price, maker_price) = match (
        taker_order.calculate_price(),
        maker_order.calculate_price(),
    ) {
        (Ok(taker_price), Ok(maker_price)) => (taker_price, maker_price),
        _ => { return Err(TerminatorError::ArithmeticOverflow); },
    };
    let taker_gets = scale_price(merge_amount, taker_price);
    let maker_gets = scale_price(merge_amount, maker_price);
    let (taker_gets, maker_gets) = match (taker_gets, maker_gets) {
        (Ok(t), Ok(m)) => (t, m),
        _ => { return Err(TerminatorError::ArithmeticOverflow); },
    };
    let taker_yes = taker_order.token_id == 1;
    if taker.shares(taker_yes) < merge_amount || maker.shares(!taker_yes) < merge_amount {
        return Err(TerminatorError::InsufficientOutcomeTokens);
    }
    let merged = (
        taker.usdc.checked_add(taker_gets),
        maker.usdc.checked_add(maker_gets),
        supply.yes.checked_sub(merge_amount),
        supply.no.checked_sub(merge_amount),
        supply.collateral.checked_sub(merge_amount),
    );
    match merged {
        (Some(taker_usdc), Some(maker_usdc), Some(yes), Some(no), Some(collateral)) => {
            let taker_after = (Holdings { usdc: taker_usdc, ..taker }).with_shares(
                taker_yes,
                taker.shares(taker_yes) - merge_amount,
            );
            let maker_after = (Holdings { usdc: maker_usdc, ..maker }).with_shares(
                !taker_yes,
                maker.shares(!taker_yes) - merge_amount,
            );
            taker_after.store(taker_balance, taker_position);
            maker_after.store(maker_balance, maker_position);
            *supply = Supply { collateral, yes, no };
            Ok(())
        },
        _ => Err(TerminatorError::ArithmeticOverflow),
    }
}

/// The asset an order gives: collateral when buying, its share when selling.
pub open spec fn maker_asset(order: Order) -> u8 {
    if order.side == 0 {
        0
    } else {
        order.token_id
    }
}

/// The asset an order receives: its share when buying, collateral when selling.
pub open spec fn taker_asset(order: Order) -> u8 {
    if order.side == 0 {
        order.token_id
    } else {
        0
    }
}

/// Matching one maker, whose order hashes to `hash`, against the taker.
/// The maker's records must belong
/// to the order's maker and to this market; the order must pass the common
/// checks, name this market and carry a signature verified at `sig_index`;
/// its fill record must be its own and still fillable; the pair must form
/// one of the three modes and cross. Then the fill is capped at what
/// remains, executed, and recorded.
#[verifier::opaque]
pub open spec fn maker_step(
    market_key: Pubkey,
    clock: Clock,
    instructions: Seq<Instruction>,
    sig_index: int,
    taker_order: Order,
    signed: SignedOrder,
    hash: [u8; 32],
    fill_amount: u64,
    maker: MakerAccounts,
    progress: MatchProgress,
) -> Result<(MakerAccounts, MatchProgress, OrderFilled), TerminatorError> {
    let order = signed.order;
    let status = maker.order_status.after_touch(hash, order.maker_amount, maker.order_status.bump);
    let fill = status.fill_amount(fill_amount);
    let taking = taking_amount(fill, order.maker_amount, order.taker_amount);
    let fee = order_fee(
        order.fee_rate_bps,
        taking as u64,
        order.maker_amount,
        order.taker_amount,
        order.side,
    );
    if maker.maker != order.maker || maker.balance.market != market_key || maker.position.market
        != market_key {
        Err(TerminatorError::InvalidAccountInput)
    } else if maker.balance.user != order.maker || maker.position.user != order.maker {
        Err(TerminatorError::Unauthorized)
    } else if order_rejection(order, clock.unix_timestamp, maker.nonce.current_nonce) is Some {
        Err(order_rejection(order, clock.unix_timestamp, maker.nonce.current_nonce)->Some_0)
    } else if order.market != market_key {
        Err(TerminatorError::InvalidMarket)
    } else if !signature_verified_at(
        instructions,
        sig_index,
        order.signer,
        hash@,
        signed.signature@,
    ) {
        Err(TerminatorError::InvalidSignature)
    } else if !maker.order_status.spec_is_unset() && maker.order_status.order_hash@ != hash@ {
        Err(TerminatorError::OrderHashMismatch)
    } else if !status.spec_is_fillable() {
        Err(TerminatorError::OrderNotFillable)
    } else if match_type_of(taker_order, order) is None {
        Err(TerminatorError::InvalidInput)
    } else if !crossing(taker_order, order, match_type_of(taker_order, order)->Some_0) {
        Err(TerminatorError::NotCrossing)
    } else if taking > u64::MAX {
        Err(TerminatorError::ArithmeticOverflow)
    } else {
        match execution_outcome(
            match_type_of(taker_order, order)->Some_0,
            taker_order,
            order,
            fill,
            taking as u64,
            fee as u64,
            Holdings::spec_of(progress.taker_balance, progress.taker_position),
            Holdings::spec_of(maker.balance, maker.position),
            progress.supply,
        ) {
            Err(e) => Err(e),
            Ok((taker, counterparty, supply)) => if progress.total_taker_taking + taking
                > u64::MAX {
                Err(TerminatorError::ArithmeticOverflow)
            } else {
                Ok(
                    (
                        MakerAccounts {
                            balance: counterparty.spec_balance(maker.balance),
                            position: counterparty.spec_position(maker.position),
                            order_status: status.after_fill(fill_amount),
                            ..maker
                        },
                        MatchProgress {
                            taker_balance: taker.spec_balance(progress.taker_balance),
                            taker_position: taker.spec_position(progress.taker_position),
                            supply,
                            total_taker_taking: (progress.total_taker_taking + taking) as u64,
                        },
                        OrderFilled {
                            order_hash: hash,
                            maker: order.maker,
                            taker: taker_order.maker,
                            maker_asset_id: maker_asset(order),
                            taker_asset_id: taker_asset(order),
                            maker_amount_filled: fill,
                            taker_amount_filled: taking as u64,
                            fee: fee as u64,
                            market: market_key,
                            slot: clock.slot,
                            timestamp: clock.unix_timestamp,
                        },
                    ),
                )
            },
        }
    }
}

/// A pair of orders whose prices do not cross is never matched, whatever
/// else holds of the call: a direct swap in which the buying taker bids
/// less than the maker asks is refused, and so is a mint in which the two
/// buyers would pay more than 1.0 together.
pub proof fn lemma_uncrossed_pair_is_refused(
    market_key: Pubkey,
    clock: Clock,
    instructions: Seq<Instruction>,
    sig_index: int,
    taker_order: Order,
    signed: SignedOrder,
    hash: [u8; 32],
    fill_amount: u64,
    maker: MakerAccounts,
    progress: MatchProgress,
)
    requires
        match match_type_of(taker_order, signed.order) {
            Some(MatchType::Complementary) => taker_order.side == 0 && taker_order.spec_price()
                < signed.order.spec_price(),
            Some(MatchType::Mint) => taker_order.spec_price() + signed.order.spec_price()
                > 1_000_000,
            _ => false,
        },
    ensures
        maker_step(
            market_key,
            clock,
            instructions,
            sig_index,
            taker_order,
            signed,
            hash,
            fill_amount,
            maker,
            progress,
        ) is Err,
        !crossing(taker_order, signed.order, match_type_of(taker_order, signed.order)->Some_0),
{
    reveal(maker_step);
}

/// Matches one maker order, whose hash the caller has computed, against
/// the taker order.
pub fn match_maker(
    market_key: &Pubkey,
    clock: &Clock,
    instructions: &TransactionInstructions,
    makers_left: u16,
    taker_order: &Order,
    signed: &SignedOrder,
    hash: [u8; 32],
    fill_amount: u64,
    maker: &MakerAccounts,
    progress: &MatchProgress,
) -> (r: Result<(MakerAccounts, MatchProgress, OrderFilled), TerminatorError>)
    ensures
        r == maker_step(
            *market_key,
            *clock,
            instructions.instructions@,
            instructions.current_index - makers_left,
            *taker_order,
            *signed,
            hash,
            fill_amount,
            *maker,
            *progress,
        ),
        progress.supply.balanced() && r is Ok ==> r->Ok_0.1.supply.balanced(),
{
    reveal(maker_step);
    let order = &signed.order;
    if !(maker.maker == order.maker) || !(maker.balance.market == *market_key) || !(
    maker.position.market == *market_key) {
        return Err(TerminatorError::InvalidAccountInput);
    }
    if !(maker.balance.user == order.maker) || !(maker.position.user == order.maker) {
        return Err(TerminatorError::Unauthorized);
    }
    validate_order(order, clock.unix_timestamp, maker.nonce.current_nonce)?;
    if !(order.market == *market_key) {
        return Err(TerminatorError::InvalidMarket);
    }
    if instructions.current_index < makers_left {
        return Err(TerminatorError::InvalidSignature);
    }
    let sig_index = instructions.current_index - makers_left;
    verify_ed25519_at_index(
        instructions,
        sig_index as usize,
        &order.signer,
        hash.as_slice(),
        &signed.signature,
    )?;
    let mut status = maker.order_status;
    status.touch(hash, order.maker_amount, maker.order_status.bump)?;
    if !status.is_fillable() {
        return Err(TerminatorError::OrderNotFillable);
    }
    let match_type = match MatchType::from_orders(taker_order, order) {
        Some(match_type) => match_type,
        None => { return Err(TerminatorError::InvalidInput); },
    };
    if !is_crossing(taker_order, order, match_type) {
        return Err(TerminatorError::NotCrossing);
    }
    let actual_maker_fill = if fill_amount <= status.remaining {
        fill_amount
    } else {
        status.remaining
    };
    let taking = calculate_taking_amount(actual_maker_fill, order.maker_amount, order.taker_amount)?;
    let fee = calculate_fee(
        order.fee_rate_bps,
        taking,
        order.maker_amount,
        order.taker_amount,
        order.side,
    )?;
    let mut taker_balance = progress.taker_balance;
    let mut taker_position = progress.taker_position;
    let mut maker_balance = maker.balance;
    let mut maker_position = maker.position;
    let mut supply = progress.supply;
    match match_type {
        MatchType::Complementary => {
            execute_complementary_match(
                taker_order,
                order,
                actual_maker_fill,
                taking,
                fee,
                &mut taker_balance,
                &mut taker_position,
                &mut maker_balance,
                &mut maker_position,
            )?;
        },
        MatchType::Mint => {
            execute_mint_match(
                taker_order,
                order,
                actual_maker_fill,
                &mut taker_balance,
                &mut taker_position,
                &mut maker_balance,
                &mut maker_position,
                &mut supply,
            )?;
        },
        MatchType::Merge => {
            execute_merge_match(
                taker_order,
                order,
                actual_maker_fill,
                &mut taker_balance,
                &mut taker_position,
                &mut maker_balance,
                &mut maker_position,
                &mut supply,
            )?;
        },
    }
    status.remaining = status.remaining - actual_maker_fill;
    if status.remaining == 0 {
        status.is_filled_or_cancelled = true;
    }
    let total_taker_taking = match progress.total_taker_taking.checked_add(taking) {
        Some(total) => total,
        None => { return Err(TerminatorError::ArithmeticOverflow); },
    };
    let buys = order.is_buy();
    Ok(
        (
            MakerAccounts {
                maker: maker.maker,
                nonce: maker.nonce,
                balance: maker_balance,
                position: maker_position,
                order_status: status,
            },
            MatchProgress { taker_balance, taker_position, supply, total_taker_taking },
            OrderFilled {
                order_hash: hash,
                maker: order.maker,
                taker: taker_order.maker,
                maker_asset_id: if buys {
                    0
                } else {
                    order.token_id
                },
                taker_asset_id: if buys {
                    order.token_id
                } else {
                    0
                },
                maker_amount_filled: actual_maker_fill,
                taker_amount_filled: taking,
                fee,
                market: *market_key,
                slot: clock.slot,
                timestamp: clock.unix_timestamp,
            },
        ),
    )
}

/// Matching the first `upto` makers in turn, each against the state the
/// ones before it left. The signature of maker `j` of `n` is looked for
/// `n - j` instructions before the current one. The first failure ends
/// the match.
#[verifier::opaque]
pub open spec fn match_makers(
    market_key: Pubkey,
    clock: Clock,
    instructions: Seq<Instruction>,
    current_index: u16,
    taker_order: Order,
    orders: Seq<SignedOrder>,
    fill_amounts: Seq<u64>,
    makers: Seq<MakerAccounts>,
    start: MatchProgress,
    upto: int,
) -> Result<(Seq<MakerAccounts>, MatchProgress, Seq<OrderFilled>), TerminatorError>
    decreases upto,
{
    if upto <= 0 {
        Ok((Seq::empty(), start, Seq::empty()))
    } else {
        match match_makers(
            market_key,
            clock,
            instructions,
            current_index,
            taker_order,
            orders,
            fill_amounts,
            makers,
            start,
            upto - 1,
        ) {
            Err(e) => Err(e),
            Ok((done, progress, fills)) => match maker_step(
                market_key,
                clock,
                instructions,
                current_index - (orders.len() - (upto - 1)),
                taker_order,
                orders[upto - 1],
                order_hash(orders[upto - 1].order),
                fill_amounts[upto - 1],
                makers[upto - 1],
                progress,
            ) {
                Err(e) => Err(e),
                Ok((maker, after, fill)) => Ok((done.push(maker), after, fills.push(fill))),
            },
        }
    }
}

/// How matching one more maker extends a batch.
pub proof fn lemma_match_makers_unfold(
    market_key: Pubkey,
    clock: Clock,
    instructions: Seq<Instruction>,
    current_index: u16,
    taker_order: Order,
    orders: Seq<SignedOrder>,
    fill_amounts: Seq<u64>,
    makers: Seq<MakerAccounts>,
    start: MatchProgress,
    upto: int,
)
    ensures
        upto <= 0 ==> match_makers(
            market_key,
            clock,
            instructions,
            current_index,
            taker_order,
            orders,
            fill_amounts,
            makers,
            start,
            upto,
        ) == Ok::<(Seq<MakerAccounts>, MatchProgress, Seq<OrderFilled>), TerminatorError>(
            (Seq::empty(), start, Seq::empty()),
        ),
        upto > 0 ==> match_makers(
            market_key,
            clock,
            instructions,
            current_index,
            taker_order,
            orders,
            fill_amounts,
            makers,
            start,
            upto,
        ) == match match_makers(
            market_key,
            clock,
            instructions,
            current_index,
            taker_order,
            orders,
            fill_amounts,
            makers,
            start,
            upto - 1,
        ) {
            Err(e) => Err::<(Seq<MakerAccounts>, MatchProgress, Seq<OrderFilled>), TerminatorError>(
                e,
            ),
            Ok((done, progress, fills)) => match maker_step(
                market_key,
                clock,
                instructions,
                current_index - (orders.len() - (upto - 1)),
                taker_order,
                orders[upto - 1],
                order_hash(orders[upto - 1].order),
                fill_amounts[upto - 1],
                makers[upto - 1],
                progress,
            ) {
                Err(e) => Err(e),
                Ok((maker, after, fill)) => Ok((done.push(maker), after, fills.push(fill))),
            },
        },
{
    reveal_with_fuel(match_makers, 2);
}

/// A failure at one maker is the failure of the whole batch.
pub proof fn lemma_match_makers_fails_on(
    market_key: Pubkey,
    clock: Clock,
    instructions: Seq<Instruction>,
    current_index: u16,
    taker_order: Order,
    orders: Seq<SignedOrder>,
    fill_amounts: Seq<u64>,
    makers: Seq<MakerAccounts>,
    start: MatchProgress,
    failed: int,
    upto: int,
)
    requires
        0 <= failed <= upto,
        match_makers(
            market_key,
            clock,
            instructions,
            current_index,
            taker_order,
            orders,
            fill_amounts,
            makers,
            start,
            failed,
        ) is Err,
    ensures
        match_makers(
            market_key,
            clock,
            instructions,
            current_index,
            taker_order,
            orders,
            fill_amounts,
            makers,
            start,
            upto,
        ) == match_makers(
            market_key,
            clock,
            instructions,
            current_index,
            taker_order,
            orders,
            fill_amounts,
            makers,
            start,
            failed,
        ),
    decreases upto - failed,
{
    if failed < upto {
        lemma_match_makers_unfold(
            market_key,
            clock,
            instructions,
            current_index,
            taker_order,
            orders,
            fill_amounts,
            makers,
            start,
            upto,
        );
        lemma_match_makers_fails_on(
            market_key,
            clock,
            instructions,
            current_index,
            taker_order,
            orders,
            fill_amounts,
            makers,
            start,
            failed,
            upto - 1,
        );
    }
}

/// The first reason, if any, to refuse a match before any maker is looked
/// at: trading is paused; the caller is no operator; the market belongs to
/// another exchange or cannot trade; the taker's records are not the
/// taker's; the batch is empty, too long or ragged; the taker order fails
/// the common checks, names another market, is reserved for somebody else
/// or lacks a verified signature; its fill record is another order's or is
/// used up; the makers' records do not match the maker orders in number.
pub open spec fn taker_admission(
    accounts: MatchOrders,
    clock: Clock,
    instructions: TransactionInstructions,
    global: Global,
    market: Market,
    taker_order_status: OrderStatus,
    taker_nonce: UserNonce,
    taker_balance: UserBalance,
    taker_position: UserPosition,
    makers_len: nat,
    params: MatchOrdersParams,
    hash: [u8; 32],
) -> Option<TerminatorError> {
    let taker_order = params.taker_order.order;
    let count = params.maker_orders@.len();
    if global.trading_paused {
        Some(TerminatorError::TradingPaused)
    } else if !global.spec_is_operator(accounts.operator) {
        Some(TerminatorError::NotOperator)
    } else if market.global != accounts.global {
        Some(TerminatorError::InvalidAccountInput)
    } else if !market.spec_can_trade() {
        Some(TerminatorError::MarketNotActive)
    } else if taker_balance.user != accounts.taker || taker_position.user != accounts.taker {
        Some(TerminatorError::Unauthorized)
    } else if accounts.taker != taker_order.maker {
        Some(TerminatorError::InvalidAccountInput)
    } else if count == 0 || count > MAX_MAKER_ORDERS || params.maker_fill_amounts@.len() != count {
        Some(TerminatorError::InvalidInput)
    } else if order_rejection(taker_order, clock.unix_timestamp, taker_nonce.current_nonce)
        is Some {
        order_rejection(taker_order, clock.unix_timestamp, taker_nonce.current_nonce)
    } else if taker_order.market != accounts.market {
        Some(TerminatorError::InvalidMarket)
    } else if !taker_allowed(taker_order, accounts.operator) {
        Some(TerminatorError::InvalidTaker)
    } else if !signature_verified_at(
        instructions.instructions@,
        instructions.current_index - (count + 1),
        taker_order.signer,
        hash@,
        params.taker_order.signature@,
    ) {
        Some(TerminatorError::InvalidSignature)
    } else if !taker_order_status.spec_is_unset() && taker_order_status.order_hash@ != hash@ {
        Some(TerminatorError::OrderHashMismatch)
    } else if !taker_order_status.after_touch(
        hash,
        taker_order.maker_amount,
        accounts.taker_order_status_bump,
    ).spec_is_fillable() {
        Some(TerminatorError::OrderNotFillable)
    } else if makers_len != count {
        Some(TerminatorError::InvalidAccountInput)
    } else {
        None
    }
}

/// The summary event of a match.
pub open spec fn orders_matched(
    accounts: MatchOrders,
    clock: Clock,
    params: MatchOrdersParams,
    taker_fill: u64,
    total_taker_taking: u64,
) -> OrdersMatched {
    let taker_order = params.taker_order.order;
    OrdersMatched {
        taker_order_hash: order_hash(taker_order),
        taker_maker: taker_order.maker,
        maker_asset_id: maker_asset(taker_order),
        taker_asset_id: taker_asset(taker_order),
        maker_amount_filled: taker_fill,
        taker_amount_filled: total_taker_taking,
        maker_orders_count: params.maker_orders@.len() as u8,
        market: accounts.market,
        slot: clock.slot,
        timestamp: clock.unix_timestamp,
    }
}

/// What a match does, as a whole: either the first failure, or the state
/// of every record after all makers were matched and the events to emit.
pub open spec fn match_result(
    accounts: MatchOrders,
    clock: Clock,
    instructions: TransactionInstructions,
    global: Global,
    market: Market,
    taker_order_status: OrderStatus,
    taker_nonce: UserNonce,
    taker_balance: UserBalance,
    taker_position: UserPosition,
    makers: Seq<MakerAccounts>,
    params: MatchOrdersParams,
) -> Result<
    (Market, OrderStatus, UserBalance, UserPosition, Seq<MakerAccounts>, Seq<OrderFilled>, OrdersMatched),
    TerminatorError,
> {
    let taker_order = params.taker_order.order;
    let count = params.maker_orders@.len() as int;
    let status = taker_order_status.after_touch(
        order_hash(taker_order),
        taker_order.maker_amount,
        accounts.taker_order_status_bump,
    );
    match taker_admission(
        accounts,
        clock,
        instructions,
        global,
        market,
        taker_order_status,
        taker_nonce,
        taker_balance,
        taker_position,
        makers.len(),
        params,
        order_hash(taker_order),
    ) {
        Some(e) => Err(e),
        None => match match_makers(
            accounts.market,
            clock,
            instructions.instructions@,
            instructions.current_index,
            taker_order,
            params.maker_orders@,
            params.maker_fill_amounts@,
            makers,
            MatchProgress {
                taker_balance,
                taker_position,
                supply: Supply::spec_of(market),
                total_taker_taking: 0,
            },
            count,
        ) {
            Err(e) => Err(e),
            Ok((matched_makers, progress, fills)) => if market.total_trades + count > u64::MAX {
                Err(TerminatorError::ArithmeticOverflow)
            } else {
                Ok(
                    (
                        progress.supply.spec_market(
                            Market {
                                last_activity_ts: clock.unix_timestamp,
                                last_trade_slot: Some(clock.slot),
                                total_trades: (market.total_trades + count) as u64,
                                ..market
                            },
                        ),
                        status.after_fill(params.taker_fill_amount),
                        progress.taker_balance,
                        progress.taker_position,
                        matched_makers,
                        fills,
                        orders_matched(
                            accounts,
                            clock,
                            params,
                            status.fill_amount(params.taker_fill_amount),
                            progress.total_taker_taking,
                        ),
                    ),
                )
            },
        },
    }
}

/// Runs the checks that come before any maker is looked at, and returns
/// the taker's fill record after its first touch. The caller supplies the
/// hash of the taker order.
pub fn admit_taker(
    accounts: &MatchOrders,
    clock: &Clock,
    instructions: &TransactionInstructions,
    global: &Global,
    market: &Market,
    taker_order_status: &OrderStatus,
    taker_nonce: &UserNonce,
    taker_balance: &UserBalance,
    taker_position: &UserPosition,
    makers_len: usize,
    params: &MatchOrdersParams,
    taker_order_hash: [u8; 32],
) -> (r: Result<OrderStatus, TerminatorError>)
    requires
        global.wf(),
    ensures
        match taker_admission(
            *accounts,
            *clock,
            *instructions,
            *global,
            *market,
            *taker_order_status,
            *taker_nonce,
            *taker_balance,
            *taker_position,
            makers_len as nat,
            *params,
            taker_order_hash,
        ) {
            Some(e) => r == Err::<OrderStatus, TerminatorError>(e),
            None => r == Ok::<OrderStatus, TerminatorError>(
                taker_order_status.after_touch(
                    taker_order_hash,
                    params.taker_order.order.maker_amount,
                    accounts.taker_order_status_bump,
                ),
            ) && 0 < makers_len <= MAX_MAKER_ORDERS && params.maker_orders@.len() == makers_len
                && params.maker_fill_amounts@.len() == makers_len,
        },
{
    let taker_order = &params.taker_order.order;
    let count = params.maker_orders.len();
    if global.trading_paused {
        return Err(TerminatorError::TradingPaused);
    }
    if !global.is_operator(&accounts.operator) {
        return Err(TerminatorError::NotOperator);
    }
    if !(market.global == accounts.global) {
        return Err(TerminatorError::InvalidAccountInput);
    }
    if !market.can_trade() {
        return Err(TerminatorError::MarketNotActive);
    }
    if !(taker_balance.user == accounts.taker) || !(taker_position.user == accounts.taker) {
        return Err(TerminatorError::Unauthorized);
    }
    if !(accounts.taker == taker_order.maker) {
        return Err(TerminatorError::InvalidAccountInput);
    }
    if count == 0 || count > MAX_MAKER_ORDERS || params.maker_fill_amounts.len() != count {
        return Err(TerminatorError::InvalidInput);
    }
    validate_order(taker_order, clock.unix_timestamp, taker_nonce.current_nonce)?;
    if !(taker_order.market == accounts.market) {
        return Err(TerminatorError::InvalidMarket);
    }
    validate_taker(taker_order, &accounts.operator)?;
    let count_u16 = count as u16;
    if instructions.current_index < count_u16 + 1 {
        return Err(TerminatorError::InvalidSignature);
    }
    let taker_sig_index = instructions.current_index - (count_u16 + 1);
    verify_ed25519_at_index(
        instructions,
        taker_sig_index as usize,
        &taker_order.signer,
        taker_order_hash.as_slice(),
        &params.taker_order.signature,
    )?;
    let mut status = *taker_order_status;
    status.touch(taker_order_hash, taker_order.maker_amount, accounts.taker_order_status_bump)?;
    if !status.is_fillable() {
        return Err(TerminatorError::OrderNotFillable);
    }
    if makers_len != count {
        return Err(TerminatorError::InvalidAccountInput);
    }
    Ok(status)
}

/// Matches every maker of the batch in turn.
pub fn run_makers(
    market_key: &Pubkey,
    clock: &Clock,
    instructions: &TransactionInstructions,
    taker_order: &Order,
    params: &MatchOrdersParams,
    makers: &Vec<MakerAccounts>,
    start: MatchProgress,
) -> (r: Result<(Vec<MakerAccounts>, MatchProgress, Vec<OrderFilled>), TerminatorError>)
    requires
        params.maker_orders@.len() <= MAX_MAKER_ORDERS,
        params.maker_fill_amounts@.len() == params.maker_orders@.len(),
        makers@.len() == params.maker_orders@.len(),
    ensures
        match match_makers(
            *market_key,
            *clock,
            instructions.instructions@,
            instructions.current_index,
            *taker_order,
            params.maker_orders@,
            params.maker_fill_amounts@,
            makers@,
            start,
            params.maker_orders@.len() as int,
        ) {
            Ok((matched, progress, fills)) => r is Ok && r->Ok_0.0@ == matched && r->Ok_0.1
                == progress && r->Ok_0.2@ == fills,
            Err(e) => r is Err && r->Err_0 == e,
        },
        start.supply.balanced() && r is Ok ==> r->Ok_0.1.supply.balanced(),
{
    let count = params.maker_orders.len();
    let mut progress = start;
    let mut matched_makers: Vec<MakerAccounts> = Vec::new();
    let mut fills: Vec<OrderFilled> = Vec::new();
    let mut i: usize = 0;
    proof {
        lemma_match_makers_unfold(
            *market_key,
            *clock,
            instructions.instructions@,
            instructions.current_index,
            *taker_order,
            params.maker_orders@,
            params.maker_fill_amounts@,
            makers@,
            start,
            0,
        );
    }
    while i < count
        invariant
            0 <= i <= count,
            count == params.maker_orders@.len(),
            count == params.maker_fill_amounts@.len(),
            count == makers@.len(),
            count <= MAX_MAKER_ORDERS,
            start.supply.balanced() ==> progress.supply.balanced(),
            match_makers(
                *market_key,
                *clock,
                instructions.instructions@,
                instructions.current_index,
                *taker_order,
                params.maker_orders@,
                params.maker_fill_amounts@,
                makers@,
                start,
                i as int,
            ) == Ok::<(Seq<MakerAccounts>, MatchProgress, Seq<OrderFilled>), TerminatorError>(
                (matched_makers@, progress, fills@),
            ),
        decreases count - i,
    {
        proof {
            lemma_match_makers_unfold(
                *market_key,
                *clock,
                instructions.instructions@,
                instructions.current_index,
                *taker_order,
                params.maker_orders@,
                params.maker_fill_amounts@,
                makers@,
                start,
                i + 1,
            );
        }
        let hash = hash_order(&params.maker_orders[i].order);
        let step = match_maker(
            market_key,
            clock,
            instructions,
            (count - i) as u16,
            taker_order,
            &params.maker_orders[i],
            hash,
            params.maker_fill_amounts[i],
            &makers[i],
            &progress,
        );
        match step {
            Err(e) => {
                proof {
                    lemma_match_makers_fails_on(
                        *market_key,
                        *clock,
                        instructions.instructions@,
                        instructions.current_index,
                        *taker_order,
                        params.maker_orders@,
                        params.maker_fill_amounts@,
                        makers@,
                        start,
                        i + 1,
                        count as int,
                    );
                }
                return Err(e);
            },
            Ok((maker, after, fill)) => {
                matched_makers.push(maker);
                fills.push(fill);
                progress = after;
            },
        }
        i += 1;
    }
    Ok((matched_makers, progress, fills))
}

/// Matches a taker order against the maker orders of `params`, all or
/// nothing: on success every record is updated and the events are
/// returned; on any failure every record is left as it was.
pub fn handler(
    accounts: &MatchOrders,
    clock: &Clock,
    instructions: &TransactionInstructions,
    global: &Global,
    market: &mut Market,
    taker_order_status: &mut OrderStatus,
    taker_nonce: &UserNonce,
    taker_balance: &mut UserBalance,
    taker_position: &mut UserPosition,
    makers: &mut Vec<MakerAccounts>,
    params: &MatchOrdersParams,
) -> (r: Result<MatchOrdersOutcome, TerminatorError>)
    requires
        global.wf(),
    ensures
        status_step(old(market).status, final(market).status),
        old(market).wf() ==> final(market).wf(),
        match match_result(
            *accounts,
            *clock,
            *instructions,
            *global,
            *old(market),
            *old(taker_order_status),
            *taker_nonce,
            *old(taker_balance),
            *old(taker_position),
            old(makers)@,
            *params,
        ) {
            Ok(after) => {
                &&& r is Ok
                &&& *final(market) == after.0
                &&& *final(taker_order_status) == after.1
                &&& *final(taker_balance) == after.2
                &&& *final(taker_position) == after.3
                &&& final(makers)@ == after.4
                &&& r->Ok_0.fills@ == after.5
                &&& r->Ok_0.matched == after.6
            },
            Err(e) => {
                &&& r is Err
                &&& r->Err_0 == e
                &&& *final(market) == *old(market)
                &&& *final(taker_order_status) == *old(taker_order_status)
                &&& *final(taker_balance) == *old(taker_balance)
                &&& *final(taker_position) == *old(taker_position)
                &&& final(makers)@ == old(makers)@
            },
        },
        old(market).supply_balanced() ==> final(market).supply_balanced(),
{
    let taker_order = &params.taker_order.order;
    let count = params.maker_orders.len();
    let taker_order_hash = hash_order(taker_order);
    let status = admit_taker(
        accounts,
        clock,
        instructions,
        global,
        market,
        taker_order_status,
        taker_nonce,
        taker_balance,
        taker_position,
        makers.len(),
        params,
        taker_order_hash,
    )?;
    let start = MatchProgress {
        taker_balance: *taker_balance,
        taker_position: *taker_position,
        supply: Supply::of(market),
        total_taker_taking: 0,
    };
    let (matched_makers, progress, fills) = run_makers(
        &accounts.market,
        clock,
        instructions,
        taker_order,
        params,
        makers,
        start,
    )?;
    let total_trades = match market.total_trades.checked_add(count as u64) {
        Some(total) => total,
        None => { return Err(TerminatorError::ArithmeticOverflow); },
    };
    let actual_taker_fill = if params.taker_fill_amount <= status.remaining {
        params.taker_fill_amount
    } else {
        status.remaining
    };
    let mut status = status;
    status.remaining = status.remaining - actual_taker_fill;
    if status.remaining == 0 {
        status.is_filled_or_cancelled = true;
    }
    let buys = taker_order.is_buy();
    let matched = OrdersMatched {
        taker_order_hash,
        taker_maker: taker_order.maker,
        maker_asset_id: if buys {
            0
        } else {
            taker_order.token_id
        },
        taker_asset_id: if buys {
            taker_order.token_id
        } else {
            0
        },
        maker_amount_filled: actual_taker_fill,
        taker_amount_filled: progress.total_taker_taking,
        maker_orders_count: count as u8,
        market: accounts.market,
        slot: clock.slot,
        timestamp: clock.unix_timestamp,
    };
    *taker_order_status = status;
    *taker_balance = progress.taker_balance;
    *taker_position = progress.taker_position;
    *makers = matched_makers;
    market.last_activity_ts = clock.unix_timestamp;
    market.last_trade_slot = Some(clock.slot);
    market.total_trades = total_trades;
    progress.supply.store(market);
    Ok(MatchOrdersOutcome { fills, matched })
}

} // verus!
