use vstd::prelude::*;

use crate::delegated::{delegated_match, verify_with_ed25519_ix, ProcessedInstruction};
use crate::keys::{AdminRegistry, Pubkey};
use crate::message::{build_message, canonical_message};
use crate::params::{AuthorizationAction, AuthorizationPayload};
use crate::signature::{ed25519_accepts, ed25519_verify, signature_encoding_ok, signature_well_formed};
use crate::state::{consume_spec, AuthorizationNonce, PoolError};

verus! {

/// Which verification path, if any, established an admin's signature.
#[derive(Clone, Copy, Debug, PartialEq, Eq, Structural)]
pub enum SignatureCheck {
    DelegatedMatch,
    DirectMatch,
    NoMatch,
}

/// Whether `signature` decodes and some key of `trusted` validates it over `message`.
pub open spec fn direct_match(signature: Seq<u8>, message: Seq<u8>, trusted: Seq<Pubkey>) -> bool {
    &&& signature_encoding_ok(signature)
    &&& exists|i: int|
        0 <= i < trusted.len() && #[trigger] ed25519_accepts(trusted[i].bytes@, message, signature)
}

/// The outcome of the signature check: the delegated path first, then the direct one.
pub open spec fn signature_check_spec(
    signature: Seq<u8>,
    message: Seq<u8>,
    trusted: Seq<Pubkey>,
    instructions: Seq<ProcessedInstruction>,
) -> SignatureCheck {
    if delegated_match(instructions, message, trusted) {
        SignatureCheck::DelegatedMatch
    } else if direct_match(signature, message, trusted) {
        SignatureCheck::DirectMatch
    } else {
        SignatureCheck::NoMatch
    }
}

/// The result and the ledger entry once a signature check has come out as `check`.
pub open spec fn settle_spec(
    check: SignatureCheck,
    entry: AuthorizationNonce,
    user: Pubkey,
    nonce: u64,
) -> (Result<(), PoolError>, AuthorizationNonce) {
    match check {
        SignatureCheck::NoMatch => (Err(PoolError::InvalidAdminSignature), entry),
        _ => consume_spec(entry, user, nonce),
    }
}

/// The result and the ledger entry of a whole authorization attempt.
pub open spec fn authorization_spec(
    payload: AuthorizationPayload,
    action: AuthorizationAction,
    user: Pubkey,
    target: Pubkey,
    current_slot: u64,
    entry: AuthorizationNonce,
    trusted: Seq<Pubkey>,
    instructions: Seq<ProcessedInstruction>,
) -> (Result<(), PoolError>, AuthorizationNonce) {
    if current_slot > payload.expiry_slot {
        (Err(PoolError::AuthorizationExpired), entry)
    } else {
        let message = canonical_message(action, user, target, payload.nonce, payload.expiry_slot);
        settle_spec(
            signature_check_spec(payload.signature@, message, trusted, instructions),
            entry,
            user,
            payload.nonce,
        )
    }
}

/// The direct path: decodes `signature` and tries each admin key in turn.
pub fn verify_with_admin_keys(signature: &[u8; 64], message: &[u8], admins: &AdminRegistry) -> (r:
    bool)
    ensures
        r == direct_match(signature@, message@, admins@),
{
    if !signature_well_formed(signature) {
        return false;
    }
    let mut i: usize = 0;
    while i < admins.keys.len()
        invariant
            0 <= i <= admins.keys@.len(),
            forall|j: int|
                0 <= j < i ==> !#[trigger] ed25519_accepts(
                    admins.keys@[j].bytes@,
                    message@,
                    signature@,
                ),
        decreases admins.keys@.len() - i,
    {
        if ed25519_verify(&admins.keys[i].bytes, message, signature) {
            return true;
        }
        i += 1;
    }
    false
}

/// Establishes an admin's signature over `message`: by a qualifying delegated
/// verification among `instructions` if there is one, else directly.
pub fn check_admin_signature(
    signature: &[u8; 64],
    message: &[u8],
    admins: &AdminRegistry,
    instructions: &Vec<ProcessedInstruction>,
) -> (r: SignatureCheck)
    ensures
        r == signature_check_spec(signature@, message@, admins@, instructions@),
{
    if verify_with_ed25519_ix(message, admins, instructions).is_ok() {
        SignatureCheck::DelegatedMatch
    } else if verify_with_admin_keys(signature, message, admins) {
        SignatureCheck::DirectMatch
    } else {
        SignatureCheck::NoMatch
    }
}

/// Finishes an authorization whose signature check came out as `check`: consumes
/// `nonce` for `user` on a match, and fails with `InvalidAdminSignature` otherwise.
pub fn settle_authorization(
    check: SignatureCheck,
    user: &Pubkey,
    nonce: u64,
    nonce_account: &mut AuthorizationNonce,
) -> (r: Result<(), PoolError>)
    ensures
        (r, *final(nonce_account)) == settle_spec(check, *old(nonce_account), *user, nonce),
{
    match check {
        SignatureCheck::NoMatch => Err(PoolError::InvalidAdminSignature),
        _ => nonce_account.consume(user, nonce),
    }
}

/// Authorizes `action` by `user` on `target` at `current_slot`: the payload must
/// not have expired, an admin of `admins` must have signed the canonical
/// message (as checked by an earlier ed25519 instruction among `instructions`, or
/// directly), and `user`'s ledger entry must accept the payload's nonce.
pub fn verify_admin_authorization(
    payload: &AuthorizationPayload,
    action: AuthorizationAction,
    user: &Pubkey,
    target: &Pubkey,
    current_slot: u64,
    nonce_account: &mut AuthorizationNonce,
    admins: &AdminRegistry,
    instructions: &Vec<ProcessedInstruction>,
) -> (r: Result<(), PoolError>)
    ensures
        (r, *final(nonce_account)) == authorization_spec(
            *payload,
            action,
            *user,
            *target,
            current_slot,
            *old(nonce_account),
            admins@,
            instructions@,
        ),
{
    if current_slot > payload.expiry_slot {
        return Err(PoolError::AuthorizationExpired);
    }
    let message = build_message(action, user, target, payload.nonce, payload.expiry_slot);
    let check = check_admin_signature(&payload.signature, message.as_slice(), admins, instructions);
    settle_authorization(check, user, payload.nonce, nonce_account)
}

} // verus!
