use vstd::prelude::*;

use crate::keys::Pubkey;
use crate::params::AuthorizationAction;
use vstd::bytes::{spec_u64_to_le_bytes_open, u64_to_le_bytes};

verus! {

/// Length of the canonical signing message.
pub const AUTHORIZATION_MESSAGE_LEN: usize = 81;

/// The eight little-endian bytes of `v`.
pub open spec fn le_bytes_u64(v: u64) -> Seq<u8> {
    spec_u64_to_le_bytes_open(v)
}

/// The bytes an admin signs to approve `action` by `user` on `target`:
/// `[tag][user:32][target:32][nonce:8 LE][expiry_slot:8 LE]`.
pub open spec fn canonical_message(
    action: AuthorizationAction,
    user: Pubkey,
    target: Pubkey,
    nonce: u64,
    expiry_slot: u64,
) -> Seq<u8> {
    seq![action.tag_spec()] + user.bytes@ + target.bytes@ + le_bytes_u64(nonce) + le_bytes_u64(
        expiry_slot,
    )
}

fn push_all(buf: &mut Vec<u8>, bytes: &[u8])
    ensures
        final(buf)@ == old(buf)@ + bytes@,
{
    let mut i: usize = 0;
    while i < bytes.len()
        invariant
            0 <= i <= bytes@.len(),
            buf@ == old(buf)@ + bytes@.subrange(0, i as int),
        decreases bytes@.len() - i,
    {
        buf.push(bytes[i]);
        i += 1;
        proof {
            assert(buf@ =~= old(buf)@ + bytes@.subrange(0, i as int));
        }
    }
    proof {
        assert(bytes@.subrange(0, i as int) =~= bytes@);
    }
}

/// Builds the canonical signing message.
pub fn build_message(
    action: AuthorizationAction,
    user: &Pubkey,
    target: &Pubkey,
    nonce: u64,
    expiry_slot: u64,
) -> (r: Vec<u8>)
    ensures
        r@ == canonical_message(action, *user, *target, nonce, expiry_slot),
        r@.len() == AUTHORIZATION_MESSAGE_LEN,
{
    let mut buf: Vec<u8> = Vec::new();
    buf.push(action.tag());
    push_all(&mut buf, &user.bytes);
    push_all(&mut buf, &target.bytes);
    let nonce_bytes = u64_to_le_bytes(nonce);
    push_all(&mut buf, nonce_bytes.as_slice());
    let expiry_bytes = u64_to_le_bytes(expiry_slot);
    push_all(&mut buf, expiry_bytes.as_slice());
    proof {
        vstd::bytes::spec_u64_to_le_bytes_to_open(nonce);
        vstd::bytes::spec_u64_to_le_bytes_to_open(expiry_slot);
        assert(buf@ =~= canonical_message(action, *user, *target, nonce, expiry_slot));
    }
    buf
}

} // verus!
