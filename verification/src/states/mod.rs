//! The persistent records of the exchange.

pub mod default_fees;
pub mod global;
pub mod ledger;
pub mod market;
pub mod order_status;
pub mod order_types;
pub mod side;
pub mod token_id;
pub mod user_balance;
pub mod user_nonce;
pub mod user_position;
