use vstd::prelude::*;

use crate::delegated::{delegated_check_ok, delegated_match, le_u16_at, ProcessedInstruction};
use crate::keys::{is_trusted_key, Pubkey};
use crate::message::canonical_message;
use crate::params::{AuthorizationAction, AuthorizationPayload};
use crate::state::{consume_spec, AuthorizationNonce, PoolError};
use crate::verify::{authorization_spec, direct_match, signature_check_spec, SignatureCheck};

verus! {

/// Whether an admin of `trusted` has signed the canonical message of this
/// request, by either verification path.
pub open spec fn admin_signed(
    payload: AuthorizationPayload,
    action: AuthorizationAction,
    user: Pubkey,
    target: Pubkey,
    trusted: Seq<Pubkey>,
    instructions: Seq<ProcessedInstruction>,
) -> bool {
    let message = canonical_message(action, user, target, payload.nonce, payload.expiry_slot);
    delegated_match(instructions, message, trusted) || direct_match(
        payload.signature@,
        message,
        trusted,
    )
}

/// A payload signed by an admin, not expired, whose nonce is above the last one
/// of a ledger entry that is unbound or bound to `user`, is accepted, and the
/// entry records `user` and the payload's nonce.
pub proof fn lemma_valid_authorization_succeeds(
    payload: AuthorizationPayload,
    action: AuthorizationAction,
    user: Pubkey,
    target: Pubkey,
    current_slot: u64,
    entry: AuthorizationNonce,
    trusted: Seq<Pubkey>,
    instructions: Seq<ProcessedInstruction>,
)
    requires
        admin_signed(payload, action, user, target, trusted, instructions),
        current_slot <= payload.expiry_slot,
        payload.nonce > entry.last_nonce,
        !entry.is_bound() || entry.authority.bytes@ == user.bytes@,
    ensures
        ({
            let (r, after) = authorization_spec(
                payload,
                action,
                user,
                target,
                current_slot,
                entry,
                trusted,
                instructions,
            );
            &&& r is Ok
            &&& after.last_nonce == payload.nonce
            &&& after.authority.bytes@ == user.bytes@
        }),
{
}

/// An expired payload is refused with `AuthorizationExpired`, whatever its
/// signature, and the ledger entry is unchanged.
pub proof fn lemma_expired_rejected(
    payload: AuthorizationPayload,
    action: AuthorizationAction,
    user: Pubkey,
    target: Pubkey,
    current_slot: u64,
    entry: AuthorizationNonce,
    trusted: Seq<Pubkey>,
    instructions: Seq<ProcessedInstruction>,
)
    requires
        current_slot > payload.expiry_slot,
    ensures
        authorization_spec(payload, action, user, target, current_slot, entry, trusted, instructions)
            == (Err::<(), PoolError>(PoolError::AuthorizationExpired), entry),
{
}

/// A payload that no admin signed, by either path, is refused with
/// `InvalidAdminSignature` (once it is not expired), and the entry is unchanged.
pub proof fn lemma_unsigned_rejected(
    payload: AuthorizationPayload,
    action: AuthorizationAction,
    user: Pubkey,
    target: Pubkey,
    current_slot: u64,
    entry: AuthorizationNonce,
    trusted: Seq<Pubkey>,
    instructions: Seq<ProcessedInstruction>,
)
    requires
        !admin_signed(payload, action, user, target, trusted, instructions),
        current_slot <= payload.expiry_slot,
    ensures
        authorization_spec(payload, action, user, target, current_slot, entry, trusted, instructions)
            == (Err::<(), PoolError>(PoolError::InvalidAdminSignature), entry),
{
}

/// On an unbound entry, an authorized payload succeeds whatever its nonce and
/// binds the entry to `user` with that nonce.
pub proof fn lemma_first_use_binds(
    payload: AuthorizationPayload,
    action: AuthorizationAction,
    user: Pubkey,
    target: Pubkey,
    current_slot: u64,
    entry: AuthorizationNonce,
    trusted: Seq<Pubkey>,
    instructions: Seq<ProcessedInstruction>,
)
    requires
        !entry.is_bound(),
        admin_signed(payload, action, user, target, trusted, instructions),
        current_slot <= payload.expiry_slot,
    ensures
        authorization_spec(payload, action, user, target, current_slot, entry, trusted, instructions)
            == (Ok::<(), PoolError>(()), AuthorizationNonce { authority: user, last_nonce: payload.nonce }),
{
}

/// An entry bound to another authority refuses `user` with
/// `UnauthorizedAuthorityForSignature`, even for a signed, fresh payload, and
/// stays unchanged.
pub proof fn lemma_other_authority_rejected(
    payload: AuthorizationPayload,
    action: AuthorizationAction,
    user: Pubkey,
    target: Pubkey,
    current_slot: u64,
    entry: AuthorizationNonce,
    trusted: Seq<Pubkey>,
    instructions: Seq<ProcessedInstruction>,
)
    requires
        entry.is_bound(),
        entry.authority.bytes@ != user.bytes@,
        admin_signed(payload, action, user, target, trusted, instructions),
        current_slot <= payload.expiry_slot,
    ensures
        authorization_spec(payload, action, user, target, current_slot, entry, trusted, instructions)
            == (Err::<(), PoolError>(PoolError::UnauthorizedAuthorityForSignature), entry),
{
}

/// On an entry bound to `user`, a nonce at or below the last one is refused with
/// `AuthorizationNonceNotIncreasing`, and the entry is unchanged.
pub proof fn lemma_stale_nonce_rejected(
    payload: AuthorizationPayload,
    action: AuthorizationAction,
    user: Pubkey,
    target: Pubkey,
    current_slot: u64,
    entry: AuthorizationNonce,
    trusted: Seq<Pubkey>,
    instructions: Seq<ProcessedInstruction>,
)
    requires
        entry.is_bound(),
        entry.authority.bytes@ == user.bytes@,
        payload.nonce <= entry.last_nonce,
        admin_signed(payload, action, user, target, trusted, instructions),
        current_slot <= payload.expiry_slot,
    ensures
        authorization_spec(payload, action, user, target, current_slot, entry, trusted, instructions)
            == (Err::<(), PoolError>(PoolError::AuthorizationNonceNotIncreasing), entry),
{
}

/// A qualifying delegated verification of the canonical message settles the
/// signature check by itself, whatever bytes the payload's signature holds: the
/// outcome is that of consuming the nonce.
pub proof fn lemma_delegated_path_suffices(
    payload: AuthorizationPayload,
    action: AuthorizationAction,
    user: Pubkey,
    target: Pubkey,
    current_slot: u64,
    entry: AuthorizationNonce,
    trusted: Seq<Pubkey>,
    instructions: Seq<ProcessedInstruction>,
    i: int,
)
    requires
        0 <= i < instructions.len(),
        delegated_check_ok(
            instructions[i],
            canonical_message(action, user, target, payload.nonce, payload.expiry_slot),
            trusted,
        ),
        current_slot <= payload.expiry_slot,
    ensures
        forall|signature: Seq<u8>|
            signature_check_spec(
                signature,
                canonical_message(action, user, target, payload.nonce, payload.expiry_slot),
                trusted,
                instructions,
            ) == SignatureCheck::DelegatedMatch,
        authorization_spec(payload, action, user, target, current_slot, entry, trusted, instructions)
            == consume_spec(entry, user, payload.nonce),
{
}

/// An ed25519 instruction whose message differs from `message`, whose key is not
/// trusted, or whose offsets reach past its data does not qualify, and adding it
/// to the instructions leaves the outcome of the signature check as it was.
pub proof fn lemma_unqualified_instruction_skipped(
    ix: ProcessedInstruction,
    signature: Seq<u8>,
    message: Seq<u8>,
    trusted: Seq<Pubkey>,
    instructions: Seq<ProcessedInstruction>,
)
    requires
        ix.data@.len() >= 16,
        ({
            let d = ix.data@;
            let pubkey_offset = le_u16_at(d, 6);
            let msg_offset = le_u16_at(d, 10);
            let msg_len = le_u16_at(d, 12);
            ||| le_u16_at(d, 2) + le_u16_at(d, 4) > d.len()
            ||| pubkey_offset + le_u16_at(d, 8) > d.len()
            ||| msg_offset + msg_len > d.len()
            ||| (msg_offset + msg_len <= d.len() && d.subrange(msg_offset, msg_offset + msg_len)
                != message)
            ||| (pubkey_offset + 32 <= d.len() && !is_trusted_key(
                trusted,
                d.subrange(pubkey_offset, pubkey_offset + 32),
            ))
        }),
    ensures
        !delegated_check_ok(ix, message, trusted),
        signature_check_spec(signature, message, trusted, instructions.push(ix))
            == signature_check_spec(signature, message, trusted, instructions),
{
    let all = instructions.push(ix);
    assert forall|j: int| 0 <= j < all.len() && delegated_check_ok(#[trigger] all[j], message, trusted)
        implies 0 <= j < instructions.len() && delegated_check_ok(instructions[j], message, trusted) by {
        if j == instructions.len() {
            assert(all[j] == ix);
        } else {
            assert(all[j] == instructions[j]);
        }
    }
    if delegated_match(instructions, message, trusted) {
        let j = choose|j: int|
            0 <= j < instructions.len() && delegated_check_ok(
                #[trigger] instructions[j],
                message,
                trusted,
            );
        assert(all[j] == instructions[j]);
    }
}

/// Presenting one payload twice, the second time against the entry the first
/// attempt left, succeeds at most once: after a success the second attempt fails
/// with `AuthorizationNonceNotIncreasing`. `user` must not be the all-zero
/// identity, which would leave the entry unbound.
pub proof fn lemma_replay_rejected(
    payload: AuthorizationPayload,
    action: AuthorizationAction,
    user: Pubkey,
    target: Pubkey,
    current_slot: u64,
    entry: AuthorizationNonce,
    trusted: Seq<Pubkey>,
    instructions: Seq<ProcessedInstruction>,
)
    requires
        !user.is_zero_spec(),
    ensures
        ({
            let (r1, after) = authorization_spec(
                payload,
                action,
                user,
                target,
                current_slot,
                entry,
                trusted,
                instructions,
            );
            let (r2, _) = authorization_spec(
                payload,
                action,
                user,
                target,
                current_slot,
                after,
                trusted,
                instructions,
            );
            &&& !(r1 is Ok && r2 is Ok)
            &&& r1 is Ok ==> r2 == Err::<(), PoolError>(PoolError::AuthorizationNonceNotIncreasing)
        }),
{
}

/// Once bound, an entry keeps its authority, and its last nonce never
/// decreases; it increases on every successful consumption.
pub proof fn lemma_consume_keeps_binding(entry: AuthorizationNonce, authority: Pubkey, nonce: u64)
    requires
        entry.is_bound(),
    ensures
        ({
            let (r, after) = consume_spec(entry, authority, nonce);
            &&& after.authority == entry.authority
            &&& after.last_nonce >= entry.last_nonce
            &&& r is Ok ==> after.last_nonce > entry.last_nonce
        }),
{
}

} // verus!
