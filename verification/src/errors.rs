//! The failure taxonomy of the exchange.

use vstd::prelude::*;

verus! {

/// Every way a call into the engine can be refused.
#[derive(Clone, Copy, Debug, PartialEq, Eq, Structural)]
pub enum TerminatorError {
    InvalidProbability,
    MarketNotActive,
    MarketAlreadySettled,
    SettlementIndexMismatch,
    InvalidMarketType,
    MarketPaused,
    MarketNotPaused,
    MissingReferenceAgent,
    MissingLastTradeOutcome,
    InvalidUsdcMint,
    MaxSettlementsReached,
    InvalidSwitchboardOracle,
    SwitchboardUpdateRequired,
    InsufficientBalance,
    Unauthorized,
    ArithmeticOverflow,
    InvalidLiquidityParameter,
    InsufficientLiquidity,
    InvalidFeeRate,
    PoolNotActive,
    InvalidMarket,
    InvalidTokenMint,
    InvalidOutcome,
    InvalidAmount,
    SlippageExceeded,
    InsufficientReserve,
    MathOverflow,
    InvalidInput,
    InvalidSignature,
    InsufficientVaultBalance,
    TokensNotInitialized,
    InvalidOutcomeCount,
    NotBinaryMarket,
    InsufficientOutcomeTokens,
    InvalidOutcomeIndex,
    InvalidMint,
    InvalidTokenAccountOwner,
    InvalidAccountInput,
    TokensAlreadyInitialized,
    MintAlreadyInitialized,
    OutcomeCountMismatch,
    NoConvertiblePositions,
    MarketTerminated,
    MarketNotTerminated,
    RedemptionNotAllowed,
    InsufficientOutcomeTokensForRedemption,
    InvalidFeeConfiguration,
    InvalidGlobalAccount,
    TradingPaused,
    NotOperator,
    NotAdmin,
    MaxOperatorsReached,
    AlreadyOperator,
    OperatorNotFound,
    OrderExpired,
    OrderNotFillable,
    InvalidNonce,
    FeeTooHigh,
    NotCrossing,
    InvalidTaker,
    InvalidOrderSigner,
    MismatchedTokenIds,
    InvalidComplement,
    OrderHashMismatch,
    FillAmountExceedsRemaining,
    NotOrderMaker,
    OrderAlreadyCancelledOrFilled,
}

} // verus!
