//! Checking that a signature was verified earlier in the same transaction.
//!
//! The host verifies Ed25519 signatures in instructions of their own. The
//! engine does not redo the cryptography: it reads the data of such an
//! instruction and checks that it covers exactly the signer, the message
//! and the signature it expects.

use vstd::prelude::*;
use crate::bytes::{le_u16, range_equals, read_u16_le};
use crate::errors::TerminatorError;
use crate::pubkey::Pubkey;

verus! {

/// Marks an offset as pointing into the instruction's own data.
pub const INSTRUCTION_DATA_INDEX: u16 = 0xFFFF;

/// Length of the header of a one-signature verification instruction.
pub const ED25519_HEADER_LEN: usize = 16;

/// One instruction of the transaction being executed.
#[derive(Clone, Debug)]
pub struct Instruction {
    pub program_id: Pubkey,
    pub data: Vec<u8>,
}

/// The instructions of the transaction being executed, and which of them
/// is running now.
#[derive(Clone, Debug)]
pub struct TransactionInstructions {
    pub current_index: u16,
    pub instructions: Vec<Instruction>,
}

/// The key of the host's signature-verification program.
pub open spec fn ed25519_program_id() -> Seq<u8> {
    seq![
        0x03u8, 0x7du8, 0x46u8, 0xd6u8, 0x7cu8, 0x93u8, 0xfbu8, 0xbeu8, 0x12u8, 0xf9u8, 0x42u8,
        0x8fu8, 0x83u8, 0x8du8, 0x40u8, 0xffu8, 0x05u8, 0x70u8, 0x74u8, 0x49u8, 0x27u8, 0xf4u8,
        0x8au8, 0x64u8, 0xfcu8, 0xcau8, 0x70u8, 0x44u8, 0x80u8, 0x00u8, 0x00u8, 0x00u8,
    ]
}

/// The verification program's key, `Ed25519SigVerify111111111111111111111111111`.
pub fn ed25519_program_key() -> (key: Pubkey)
    ensures
        key@ == ed25519_program_id(),
{
    let key = Pubkey {
        bytes: [
            0x03u8, 0x7du8, 0x46u8, 0xd6u8, 0x7cu8, 0x93u8, 0xfbu8, 0xbeu8, 0x12u8, 0xf9u8,
            0x42u8, 0x8fu8, 0x83u8, 0x8du8, 0x40u8, 0xffu8, 0x05u8, 0x70u8, 0x74u8, 0x49u8,
            0x27u8, 0xf4u8, 0x8au8, 0x64u8, 0xfcu8, 0xcau8, 0x70u8, 0x44u8, 0x80u8, 0x00u8,
            0x00u8, 0x00u8,
        ],
    };
    assert(key.bytes@ =~= ed25519_program_id());
    key
}

/// The `k`-th 16-bit field of the header, which starts after the
/// signature count and one byte of padding.
pub open spec fn header_field(data: Seq<u8>, k: int) -> u16 {
    le_u16(data[2 + 2 * k], data[3 + 2 * k])
}

/// Whether the data of a verification instruction covers exactly one
/// signature, holds signature, key and message in its own data, and these
/// are the expected ones.
pub open spec fn ed25519_data_attests(
    data: Seq<u8>,
    pubkey: Seq<u8>,
    msg: Seq<u8>,
    sig: Seq<u8>,
) -> bool {
    let sig_offset = header_field(data, 0) as int;
    let pubkey_offset = header_field(data, 2) as int;
    let msg_offset = header_field(data, 4) as int;
    let msg_size = header_field(data, 5) as int;
    &&& data.len() >= ED25519_HEADER_LEN
    &&& data[0] == 1
    &&& header_field(data, 1) == INSTRUCTION_DATA_INDEX
    &&& header_field(data, 3) == INSTRUCTION_DATA_INDEX
    &&& header_field(data, 6) == INSTRUCTION_DATA_INDEX
    &&& sig_offset + 64 <= data.len()
    &&& pubkey_offset + 32 <= data.len()
    &&& msg_offset + msg_size <= data.len()
    &&& msg_size == msg.len()
    &&& data.subrange(sig_offset, sig_offset + 64) == sig
    &&& data.subrange(pubkey_offset, pubkey_offset + 32) == pubkey
    &&& data.subrange(msg_offset, msg_offset + msg_size) == msg
}

/// Whether the instruction at `ix_index` is a verification of `sig` by
/// `pubkey` over `msg`.
pub open spec fn signature_verified_at(
    instructions: Seq<Instruction>,
    ix_index: int,
    pubkey: Pubkey,
    msg: Seq<u8>,
    sig: Seq<u8>,
) -> bool {
    &&& 0 <= ix_index < instructions.len()
    &&& instructions[ix_index].program_id@ == ed25519_program_id()
    &&& ed25519_data_attests(instructions[ix_index].data@, pubkey@, msg, sig)
}

/// Reads a little-endian 16-bit value at `*offset` and moves the offset
/// past it.
pub fn read_u16(data: &[u8], offset: &mut usize) -> (r: Result<u16, TerminatorError>)
    ensures
        *old(offset) + 2 <= data@.len() ==> r == Ok::<u16, TerminatorError>(
            le_u16(data@[*old(offset) as int], data@[*old(offset) + 1]),
        ) && *final(offset) == *old(offset) + 2,
        *old(offset) + 2 > data@.len() ==> r == Err::<u16, TerminatorError>(
            TerminatorError::InvalidSignature,
        ) && *final(offset) == *old(offset),
{
    let start = *offset;
    let len = data.len();
    if len < 2 || start > len - 2 {
        return Err(TerminatorError::InvalidSignature);
    }
    let value = read_u16_le(data, start);
    *offset = start + 2;
    Ok(value)
}

/// Checks the data of one verification instruction against the expected
/// signer, message and signature.
pub fn check_ed25519_data(
    data: &[u8],
    expected_pubkey: &Pubkey,
    expected_msg: &[u8],
    expected_sig: &[u8; 64],
) -> (r: Result<(), TerminatorError>)
    ensures
        ed25519_data_attests(data@, expected_pubkey@, expected_msg@, expected_sig@) ==> r == Ok::<
            (),
            TerminatorError,
        >(()),
        !ed25519_data_attests(data@, expected_pubkey@, expected_msg@, expected_sig@) ==> r
            == Err::<(), TerminatorError>(TerminatorError::InvalidSignature),
{
    if data.len() < 2 {
        return Err(TerminatorError::InvalidSignature);
    }
    let num_signatures = data[0];
    if num_signatures != 1 {
        return Err(TerminatorError::InvalidSignature);
    }
    let mut offset: usize = 2;
    let sig_offset = read_u16(data, &mut offset)?;
    let sig_ix_index = read_u16(data, &mut offset)?;
    let pubkey_offset = read_u16(data, &mut offset)?;
    let pubkey_ix_index = read_u16(data, &mut offset)?;
    let msg_offset = read_u16(data, &mut offset)?;
    let msg_size = read_u16(data, &mut offset)?;
    let msg_ix_index = read_u16(data, &mut offset)?;
    if !(sig_ix_index == INSTRUCTION_DATA_INDEX && pubkey_ix_index == INSTRUCTION_DATA_INDEX
        && msg_ix_index == INSTRUCTION_DATA_INDEX) {
        return Err(TerminatorError::InvalidSignature);
    }
    let sig_start = sig_offset as usize;
    let pk_start = pubkey_offset as usize;
    let msg_start = msg_offset as usize;
    let msg_len = msg_size as usize;
    if !(sig_start + 64 <= data.len() && pk_start + 32 <= data.len() && msg_start + msg_len
        <= data.len()) {
        return Err(TerminatorError::InvalidSignature);
    }
    if msg_len != expected_msg.len() {
        return Err(TerminatorError::InvalidSignature);
    }
    if !range_equals(data, sig_start, expected_sig.as_slice()) {
        return Err(TerminatorError::InvalidSignature);
    }
    if !range_equals(data, pk_start, expected_pubkey.bytes.as_slice()) {
        return Err(TerminatorError::InvalidSignature);
    }
    if !range_equals(data, msg_start, expected_msg) {
        return Err(TerminatorError::InvalidSignature);
    }
    Ok(())
}

/// Checks that the instruction at `ix_index` verified `expected_sig` by
/// `expected_pubkey` over `expected_msg`. An index past the last
/// instruction attests nothing.
pub fn verify_ed25519_at_index(
    instructions: &TransactionInstructions,
    ix_index: usize,
    expected_pubkey: &Pubkey,
    expected_msg: &[u8],
    expected_sig: &[u8; 64],
) -> (r: Result<(), TerminatorError>)
    ensures
        signature_verified_at(
            instructions.instructions@,
            ix_index as int,
            *expected_pubkey,
            expected_msg@,
            expected_sig@,
        ) ==> r == Ok::<(), TerminatorError>(()),
        !signature_verified_at(
            instructions.instructions@,
            ix_index as int,
            *expected_pubkey,
            expected_msg@,
            expected_sig@,
        ) ==> r == Err::<(), TerminatorError>(TerminatorError::InvalidSignature),
{
    if ix_index >= instructions.instructions.len() {
        return Err(TerminatorError::InvalidSignature);
    }
    let ed25519_ix = &instructions.instructions[ix_index];
    let program_key = ed25519_program_key();
    if !(ed25519_ix.program_id == program_key) {
        assert(ed25519_ix.program_id@ != ed25519_program_id()) by {
            if ed25519_ix.program_id@ == ed25519_program_id() {
                assert(ed25519_ix.program_id.bytes =~= program_key.bytes);
            }
        }
        return Err(TerminatorError::InvalidSignature);
    }
    check_ed25519_data(ed25519_ix.data.as_slice(), expected_pubkey, expected_msg, expected_sig)
}

/// Checks that the instruction just before the current one verified the
/// expected signature.
pub fn verify_ed25519_preceding(
    instructions: &TransactionInstructions,
    expected_pubkey: &Pubkey,
    expected_msg: &[u8],
    expected_sig: &[u8; 64],
) -> (r: Result<(), TerminatorError>)
    ensures
        signature_verified_at(
            instructions.instructions@,
            instructions.current_index - 1,
            *expected_pubkey,
            expected_msg@,
            expected_sig@,
        ) ==> r == Ok::<(), TerminatorError>(()),
        !signature_verified_at(
            instructions.instructions@,
            instructions.current_index - 1,
            *expected_pubkey,
            expected_msg@,
            expected_sig@,
        ) ==> r == Err::<(), TerminatorError>(TerminatorError::InvalidSignature),
{
    let current_index = get_current_instruction_index(instructions);
    if current_index == 0 {
        return Err(TerminatorError::InvalidSignature);
    }
    verify_ed25519_at_index(
        instructions,
        (current_index - 1) as usize,
        expected_pubkey,
        expected_msg,
        expected_sig,
    )
}

/// The index of the instruction that is running now.
pub fn get_current_instruction_index(instructions: &TransactionInstructions) -> (index: u16)
    ensures
        index == instructions.current_index,
{
    instructions.current_index
}

} // verus!
