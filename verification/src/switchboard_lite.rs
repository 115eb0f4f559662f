//! Reading an oracle randomness account.
//!
//! The engine consumes the oracle as a 32-byte value with a freshness
//! marker and nothing more: the account is parsed by fixed offsets and a
//! value older than the allowed age is refused.

use vstd::prelude::*;
use crate::bytes::{le_i64, le_u64, read_array_32, read_i64_le, read_u64_le};
use crate::constants::MAX_RANDOMNESS_AGE_SLOTS;
use crate::pubkey::Pubkey;
use crate::states::market::random_draw;

verus! {

/// Shortest account that holds every field read here.
pub const MIN_RANDOMNESS_ACCOUNT_LEN: usize = 88;

/// Why a randomness account was refused.
#[derive(Clone, Copy, Debug, PartialEq, Eq, Structural)]
pub enum RandomnessError {
    /// The account data is too short to hold the fields.
    AccountDidNotDeserialize,
    /// The value is older than the allowed age.
    ConstraintRaw,
}

/// The fields of a randomness account that the engine reads.
#[derive(Clone, Copy, Debug)]
pub struct RandomnessAccountData {
    /// The oracle queue the account belongs to.
    pub queue: Pubkey,
    /// The random value.
    pub value: [u8; 32],
    /// Slot at which the value was produced.
    pub slot: u64,
    /// Unix time at which the value was produced.
    pub timestamp: i64,
}

/// The key of the oracle program that must own a randomness account.
pub open spec fn switchboard_program_id() -> Seq<u8> {
    seq![
        0x06u8, 0x73u8, 0xbdu8, 0x46u8, 0xf2u8, 0xe4u8, 0x7eu8, 0x04u8, 0xf1u8, 0x2bu8, 0xd9u8,
        0x2fu8, 0xb7u8, 0x31u8, 0x96u8, 0x8eu8, 0xcdu8, 0x9du8, 0x97u8, 0x57u8, 0xc2u8, 0x74u8,
        0xdau8, 0x87u8, 0x47u8, 0x6fu8, 0x46u8, 0x5cu8, 0x04u8, 0x0cu8, 0x65u8, 0x73u8,
    ]
}

/// The oracle program's key, `SBondMDrcV3K4kxZR1HNVT7osZxAHVHgYXL5Ze1oMUv`.
pub fn switchboard_program_key() -> (key: Pubkey)
    ensures
        key@ == switchboard_program_id(),
{
    let key = Pubkey {
        bytes: [
            0x06u8, 0x73u8, 0xbdu8, 0x46u8, 0xf2u8, 0xe4u8, 0x7eu8, 0x04u8, 0xf1u8, 0x2bu8,
            0xd9u8, 0x2fu8, 0xb7u8, 0x31u8, 0x96u8, 0x8eu8, 0xcdu8, 0x9du8, 0x97u8, 0x57u8,
            0xc2u8, 0x74u8, 0xdau8, 0x87u8, 0x47u8, 0x6fu8, 0x46u8, 0x5cu8, 0x04u8, 0x0cu8,
            0x65u8, 0x73u8,
        ],
    };
    assert(key.bytes@ =~= switchboard_program_id());
    key
}

impl RandomnessAccountData {
    /// Whether `data` holds these fields at their fixed offsets: eight
    /// bytes of discriminator, then the queue, the value, the slot and the
    /// timestamp.
    pub open spec fn parsed_from(&self, data: Seq<u8>) -> bool {
        &&& data.len() >= MIN_RANDOMNESS_ACCOUNT_LEN
        &&& self.queue@ == data.subrange(8, 40)
        &&& self.value@ == data.subrange(40, 72)
        &&& self.slot == le_u64(data.subrange(72, 80))
        &&& self.timestamp == le_i64(data.subrange(80, 88))
    }

    /// Whether the value is fresh enough at `current_slot`. A value from a
    /// later slot than the current one counts as fresh.
    pub open spec fn fresh_at(&self, current_slot: u64) -> bool {
        current_slot - self.slot <= MAX_RANDOMNESS_AGE_SLOTS
    }

    /// Parses the raw data of a randomness account.
    pub fn parse(data: &[u8]) -> (r: Result<Self, RandomnessError>)
        ensures
            data@.len() >= MIN_RANDOMNESS_ACCOUNT_LEN ==> r is Ok && r->Ok_0.parsed_from(data@),
            data@.len() < MIN_RANDOMNESS_ACCOUNT_LEN ==> r == Err::<Self, RandomnessError>(
                RandomnessError::AccountDidNotDeserialize,
            ),
    {
        if data.len() < MIN_RANDOMNESS_ACCOUNT_LEN {
            return Err(RandomnessError::AccountDidNotDeserialize);
        }
        let queue = Pubkey { bytes: read_array_32(data, 8) };
        let value = read_array_32(data, 40);
        let slot = read_u64_le(data, 72);
        let timestamp = read_i64_le(data, 80);
        Ok(RandomnessAccountData { queue, value, slot, timestamp })
    }

    /// The random value, if it is at most 150 slots old.
    pub fn get_value(&self, current_slot: u64) -> (r: Result<[u8; 32], RandomnessError>)
        ensures
            self.fresh_at(current_slot) ==> r == Ok::<[u8; 32], RandomnessError>(self.value),
            !self.fresh_at(current_slot) ==> r == Err::<[u8; 32], RandomnessError>(
                RandomnessError::ConstraintRaw,
            ),
    {
        let age: u64 = if current_slot >= self.slot {
            current_slot - self.slot
        } else {
            0
        };
        if age <= MAX_RANDOMNESS_AGE_SLOTS {
            Ok(self.value)
        } else {
            Err(RandomnessError::ConstraintRaw)
        }
    }

    /// The random value reduced to an integer in `[0, max)`.
    pub fn get_random_u64(&self, max: u64) -> (draw: u64)
        requires
            max > 0,
        ensures
            draw == random_draw(self.value@, max),
            draw < max,
    {
        let value = read_u64_le(self.value.as_slice(), 0);
        value % max
    }
}

} // verus!
