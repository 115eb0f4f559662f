//! A binary-outcome prediction-market exchange engine.
//!
//! Users post collateral, split it into complementary YES and NO shares,
//! trade the shares through signed orders that an operator fills or
//! matches, and redeem them once the market resolves. A market resolves by
//! settlement on its reference trade, by a randomized check after a trade,
//! or by a timeout after seven days without activity.
//!
//! The crate holds the rules: fixed-point fee and price arithmetic, the
//! order model with its canonical encoding and hash, per-order fill
//! tracking, the three-mode matching engine, the market lifecycle and the
//! position accounting behind redemption. Every operation is a function of
//! the records it touches and its inputs. It either succeeds and leaves
//! the records updated, or fails and leaves them untouched. Custody of the
//! collateral, clocks, account storage and the oracle belong to the
//! caller, who hands in plain values and carries out what is returned.
//!
//! Contracts are stated over mathematical integers and sequences. The one
//! primitive taken on trust is the BLAKE3 digest, see [`hashing`].

pub mod bytes;
pub mod clock;
pub mod constants;
pub mod errors;
pub mod events;
pub mod hashing;
pub mod instructions;
pub mod invariants;
pub mod pubkey;
pub mod states;
pub mod switchboard_lite;
pub mod utils;
