use vstd::prelude::*;

use crate::keys::{bytes_equal, is_trusted_key, AdminRegistry, Pubkey};

verus! {

/// The program id of the runtime's ed25519 signature-verification program.
pub const ED25519_PROGRAM_ID: [u8; 32] = [
    3, 125, 70, 214, 124, 147, 251, 190, 18, 249, 66, 143, 131, 141, 64, 255, 5, 112, 116, 73, 39,
    244, 138, 100, 252, 202, 112, 68, 128, 0, 0, 0,
];

/// An instruction that the runtime processed earlier in the same transaction.
#[derive(Clone, Debug)]
pub struct ProcessedInstruction {
    pub program_id: Pubkey,
    pub data: Vec<u8>,
}

impl ProcessedInstruction {
    pub fn new(program_id: Pubkey, data: Vec<u8>) -> (r: ProcessedInstruction)
        ensures
            r.program_id == program_id,
            r.data@ == data@,
    {
        ProcessedInstruction { program_id, data }
    }
}

/// The little-endian `u16` stored at `off` and `off + 1`.
pub open spec fn le_u16_at(data: Seq<u8>, off: int) -> int {
    data[off] as int + 256 * data[off + 1] as int
}

/// Whether `ix` is a single-signature ed25519 verification whose offsets all lie
/// within its data, whose public key is 32 bytes long and trusted, and whose
/// message is exactly `message`.
pub open spec fn delegated_check_ok(
    ix: ProcessedInstruction,
    message: Seq<u8>,
    trusted: Seq<Pubkey>,
) -> bool {
    let d = ix.data@;
    let sig_offset = le_u16_at(d, 2);
    let sig_len = le_u16_at(d, 4);
    let pubkey_offset = le_u16_at(d, 6);
    let pubkey_len = le_u16_at(d, 8);
    let msg_offset = le_u16_at(d, 10);
    let msg_len = le_u16_at(d, 12);
    &&& ix.program_id.bytes@ == ED25519_PROGRAM_ID@
    &&& d.len() >= 16
    &&& d[0] == 1
    &&& sig_offset + sig_len <= d.len()
    &&& pubkey_offset + pubkey_len <= d.len()
    &&& msg_offset + msg_len <= d.len()
    &&& pubkey_len == 32
    &&& is_trusted_key(trusted, d.subrange(pubkey_offset, pubkey_offset + pubkey_len))
    &&& d.subrange(msg_offset, msg_offset + msg_len) == message
}

/// Whether some instruction of `ixs` is a qualifying delegated verification.
pub open spec fn delegated_match(
    ixs: Seq<ProcessedInstruction>,
    message: Seq<u8>,
    trusted: Seq<Pubkey>,
) -> bool {
    exists|i: int| 0 <= i < ixs.len() && delegated_check_ok(#[trigger] ixs[i], message, trusted)
}

fn read_u16(data: &Vec<u8>, off: usize) -> (r: usize)
    requires
        off <= 14,
        off + 2 <= data@.len(),
    ensures
        r == le_u16_at(data@, off as int),
{
    data[off] as usize + 256 * (data[off + 1] as usize)
}

fn copy_range(data: &Vec<u8>, start: usize, len: usize) -> (r: Vec<u8>)
    requires
        start + len <= data@.len(),
    ensures
        r@ == data@.subrange(start as int, start + len),
{
    let mut out: Vec<u8> = Vec::new();
    let mut i: usize = 0;
    let total = data.len();
    while i < len
        invariant
            0 <= i <= len,
            start + len <= data@.len(),
            total == data@.len(),
            out@ == data@.subrange(start as int, start + i),
        decreases len - i,
    {
        out.push(data[start + i]);
        i += 1;
        proof {
            assert(out@ =~= data@.subrange(start as int, start + i));
        }
    }
    out
}

/// Whether `ix` qualifies as a delegated verification of `expected_message` by a
/// key of `admins`. A malformed instruction does not qualify.
pub fn check_delegated_instruction(
    ix: &ProcessedInstruction,
    expected_message: &[u8],
    admins: &AdminRegistry,
) -> (r: bool)
    ensures
        r == delegated_check_ok(*ix, expected_message@, admins@),
{
    if !bytes_equal(&ix.program_id.bytes, &ED25519_PROGRAM_ID) {
        return false;
    }
    let data = &ix.data;
    if data.len() < 16 {
        return false;
    }
    if data[0] != 1 {
        return false;
    }
    let sig_offset = read_u16(data, 2);
    let sig_len = read_u16(data, 4);
    let pubkey_offset = read_u16(data, 6);
    let pubkey_len = read_u16(data, 8);
    let msg_offset = read_u16(data, 10);
    let msg_len = read_u16(data, 12);
    let total = data.len();
    if sig_offset + sig_len > total || pubkey_offset + pubkey_len > total || msg_offset + msg_len
        > total {
        return false;
    }
    if pubkey_len != 32 {
        return false;
    }
    let pubkey_bytes = copy_range(data, pubkey_offset, pubkey_len);
    if !admins.contains(pubkey_bytes.as_slice()) {
        return false;
    }
    let message_bytes = copy_range(data, msg_offset, msg_len);
    bytes_equal(message_bytes.as_slice(), expected_message)
}

/// Looks among the instructions processed earlier in this transaction for an
/// ed25519 verification, by a key of `admins`, of exactly `expected_message`.
/// The runtime has already checked that instruction's signature.
pub fn verify_with_ed25519_ix(
    expected_message: &[u8],
    admins: &AdminRegistry,
    instructions: &Vec<ProcessedInstruction>,
) -> (r: Result<(), crate::state::PoolError>)
    ensures
        r is Ok <==> delegated_match(instructions@, expected_message@, admins@),
        r is Err ==> r == Err::<(), _>(crate::state::PoolError::InvalidAdminSignature),
{
    let mut i: usize = 0;
    while i < instructions.len()
        invariant
            0 <= i <= instructions@.len(),
            forall|j: int|
                0 <= j < i ==> !delegated_check_ok(
                    #[trigger] instructions@[j],
                    expected_message@,
                    admins@,
                ),
        decreases instructions@.len() - i,
    {
        if check_delegated_instruction(&instructions[i], expected_message, admins) {
            return Ok(());
        }
        i += 1;
    }
    Err(crate::state::PoolError::InvalidAdminSignature)
}

} // verus!
