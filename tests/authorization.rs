use auth_guard::delegated::{
    check_delegated_instruction, verify_with_ed25519_ix, ProcessedInstruction, ED25519_PROGRAM_ID,
};
use auth_guard::keys::{assert_eq_admin, AdminRegistry, Pubkey, ADMIN_0, ADMIN_1, ADMIN_2};
use auth_guard::message::{build_message, AUTHORIZATION_MESSAGE_LEN};
use auth_guard::params::{AuthorizationAction, AuthorizationPayload};
use auth_guard::state::{AuthorizationNonce, PoolError};
use auth_guard::verify::{
    check_admin_signature, settle_authorization, verify_admin_authorization,
    verify_with_admin_keys, SignatureCheck,
};
use ed25519_dalek::{Keypair, PublicKey, SecretKey, Signer};

fn keypair(seed: u8) -> Keypair {
    let secret = SecretKey::from_bytes(&[seed; 32]).unwrap();
    let public: PublicKey = (&secret).into();
    Keypair { secret, public }
}

fn registry_of(kp: &Keypair) -> AdminRegistry {
    AdminRegistry::new(vec![Pubkey::new(kp.public.to_bytes())])
}

fn sign(kp: &Keypair, message: &[u8]) -> [u8; 64] {
    kp.sign(message).to_bytes()
}

fn user() -> Pubkey {
    Pubkey::new([0x11; 32])
}

fn target() -> Pubkey {
    Pubkey::new([0x22; 32])
}

fn signed_payload(kp: &Keypair, action: AuthorizationAction, nonce: u64, expiry_slot: u64) -> AuthorizationPayload {
    let message = build_message(action, &user(), &target(), nonce, expiry_slot);
    AuthorizationPayload::new(sign(kp, &message), nonce, expiry_slot)
}

fn ed25519_ix_data(signature: &[u8], pubkey: &[u8], message: &[u8]) -> Vec<u8> {
    let sig_offset: u16 = 16;
    let pubkey_offset: u16 = sig_offset + signature.len() as u16;
    let msg_offset: u16 = pubkey_offset + pubkey.len() as u16;
    let mut data = vec![1u8, 0];
    for v in [
        sig_offset,
        signature.len() as u16,
        pubkey_offset,
        pubkey.len() as u16,
        msg_offset,
        message.len() as u16,
        0,
    ] {
        data.extend_from_slice(&v.to_le_bytes());
    }
    data.extend_from_slice(signature);
    data.extend_from_slice(pubkey);
    data.extend_from_slice(message);
    data
}

fn ed25519_ix(data: Vec<u8>) -> ProcessedInstruction {
    ProcessedInstruction::new(Pubkey::new(ED25519_PROGRAM_ID), data)
}

#[test]
fn message_has_canonical_layout() {
    let user = Pubkey::new([0xAA; 32]);
    let target = Pubkey::new([0xBB; 32]);
    let m = build_message(AuthorizationAction::Swap, &user, &target, 5, 1000);
    assert_eq!(m.len(), AUTHORIZATION_MESSAGE_LEN);
    assert_eq!(m.len(), 81);
    assert_eq!(m[0], 2);
    assert!(m[1..33].iter().all(|b| *b == 0xAA));
    assert!(m[33..65].iter().all(|b| *b == 0xBB));
    assert_eq!(&m[65..73], &5u64.to_le_bytes());
    assert_eq!(&m[73..81], &1000u64.to_le_bytes());
    let init = build_message(AuthorizationAction::InitializePool, &user, &target, 0x0102030405060708, 0);
    assert_eq!(init[0], 1);
    assert_eq!(&init[65..73], &[8, 7, 6, 5, 4, 3, 2, 1]);
    assert_eq!(&init[73..81], &[0u8; 8]);
}

#[test]
fn action_tags_are_stable() {
    assert_eq!(AuthorizationAction::InitializePool.tag(), 1);
    assert_eq!(AuthorizationAction::Swap.tag(), 2);
}

#[test]
fn predefined_admins_are_recognised() {
    assert!(assert_eq_admin(Pubkey::new(ADMIN_0)));
    assert!(assert_eq_admin(Pubkey::new(ADMIN_1)));
    assert!(assert_eq_admin(Pubkey::new(ADMIN_2)));
    assert!(!assert_eq_admin(Pubkey::new([9; 32])));
    assert_eq!(AdminRegistry::predefined().keys.len(), 3);
}

#[test]
fn consume_binds_unbound_entry_with_any_nonce() {
    let mut entry = AuthorizationNonce::new();
    assert_eq!(entry.consume(&user(), 0), Ok(()));
    assert_eq!(entry.authority, user());
    assert_eq!(entry.last_nonce, 0);

    let mut entry = AuthorizationNonce::new();
    assert_eq!(entry.consume(&user(), u64::MAX), Ok(()));
    assert_eq!(entry.last_nonce, u64::MAX);
}

#[test]
fn consume_rejects_other_authority() {
    let mut entry = AuthorizationNonce::new();
    entry.consume(&user(), 3).unwrap();
    let other = Pubkey::new([0x33; 32]);
    assert_eq!(entry.consume(&other, 10), Err(PoolError::UnauthorizedAuthorityForSignature));
    assert_eq!(entry.authority, user());
    assert_eq!(entry.last_nonce, 3);
}

#[test]
fn consume_requires_increasing_nonce() {
    let mut entry = AuthorizationNonce::new();
    entry.consume(&user(), 3).unwrap();
    assert_eq!(entry.consume(&user(), 3), Err(PoolError::AuthorizationNonceNotIncreasing));
    assert_eq!(entry.consume(&user(), 2), Err(PoolError::AuthorizationNonceNotIncreasing));
    assert_eq!(entry.last_nonce, 3);
    assert_eq!(entry.consume(&user(), 4), Ok(()));
    assert_eq!(entry.last_nonce, 4);
}

#[test]
fn direct_path_accepts_admin_signature() {
    let kp = keypair(1);
    let message = build_message(AuthorizationAction::Swap, &user(), &target(), 5, 1000);
    let sig = sign(&kp, &message);
    assert!(verify_with_admin_keys(&sig, &message, &registry_of(&kp)));
    let mut tampered = message.clone();
    tampered[70] ^= 1;
    assert!(!verify_with_admin_keys(&sig, &tampered, &registry_of(&kp)));
    assert!(!verify_with_admin_keys(&sig, &message, &registry_of(&keypair(2))));
}

#[test]
fn direct_path_tries_every_admin_key() {
    let kp = keypair(1);
    let other = keypair(2);
    let message = build_message(AuthorizationAction::Swap, &user(), &target(), 5, 1000);
    let sig = sign(&kp, &message);
    let registry = AdminRegistry::new(vec![
        Pubkey::new(other.public.to_bytes()),
        Pubkey::new([0xFF; 32]),
        Pubkey::new(kp.public.to_bytes()),
    ]);
    assert!(verify_with_admin_keys(&sig, &message, &registry));
}

#[test]
fn direct_path_rejects_malformed_signature_encoding() {
    let kp = keypair(1);
    let message = build_message(AuthorizationAction::Swap, &user(), &target(), 5, 1000);
    let mut sig = sign(&kp, &message);
    sig[63] |= 0x80;
    assert!(!verify_with_admin_keys(&sig, &message, &registry_of(&kp)));
}

#[test]
fn concrete_swap_scenario() {
    let kp = keypair(7);
    let admins = registry_of(&kp);
    let u = user();
    let t = target();
    let mut entry = AuthorizationNonce::new();

    let payload = signed_payload(&kp, AuthorizationAction::Swap, 5, 1000);
    let r = verify_admin_authorization(&payload, AuthorizationAction::Swap, &u, &t, 999, &mut entry, &admins, &vec![]);
    assert_eq!(r, Ok(()));
    assert_eq!(entry.authority, u);
    assert_eq!(entry.last_nonce, 5);

    let r = verify_admin_authorization(&payload, AuthorizationAction::Swap, &u, &t, 999, &mut entry, &admins, &vec![]);
    assert_eq!(r, Err(PoolError::AuthorizationNonceNotIncreasing));

    let payload6 = signed_payload(&kp, AuthorizationAction::Swap, 6, 1000);
    let r = verify_admin_authorization(&payload6, AuthorizationAction::Swap, &u, &t, 1001, &mut entry, &admins, &vec![]);
    assert_eq!(r, Err(PoolError::AuthorizationExpired));
    assert_eq!(entry.last_nonce, 5);
}

#[test]
fn valid_payload_advances_bound_ledger() {
    let kp = keypair(3);
    let admins = registry_of(&kp);
    let mut entry = AuthorizationNonce::new();
    entry.consume(&user(), 10).unwrap();
    let payload = signed_payload(&kp, AuthorizationAction::InitializePool, 11, 50);
    let r = verify_admin_authorization(&payload, AuthorizationAction::InitializePool, &user(), &target(), 50, &mut entry, &admins, &vec![]);
    assert_eq!(r, Ok(()));
    assert_eq!(entry.last_nonce, 11);
}

#[test]
fn expired_payload_rejected_before_signature() {
    let kp = keypair(3);
    let admins = registry_of(&kp);
    let mut entry = AuthorizationNonce::new();
    let payload = signed_payload(&kp, AuthorizationAction::Swap, 1, 100);
    let r = verify_admin_authorization(&payload, AuthorizationAction::Swap, &user(), &target(), 101, &mut entry, &admins, &vec![]);
    assert_eq!(r, Err(PoolError::AuthorizationExpired));
    assert_eq!(entry.last_nonce, 0);
    assert!(entry.authority.is_zero());
}

#[test]
fn untrusted_signature_rejected() {
    let admin = keypair(3);
    let intruder = keypair(4);
    let admins = registry_of(&admin);
    let mut entry = AuthorizationNonce::new();
    let payload = signed_payload(&intruder, AuthorizationAction::Swap, 1, 100);
    let r = verify_admin_authorization(&payload, AuthorizationAction::Swap, &user(), &target(), 100, &mut entry, &admins, &vec![]);
    assert_eq!(r, Err(PoolError::InvalidAdminSignature));
    assert!(entry.authority.is_zero());

    // Signed by the admin, but for another action.
    let payload = signed_payload(&admin, AuthorizationAction::InitializePool, 1, 100);
    let r = verify_admin_authorization(&payload, AuthorizationAction::Swap, &user(), &target(), 100, &mut entry, &admins, &vec![]);
    assert_eq!(r, Err(PoolError::InvalidAdminSignature));
    assert_eq!(entry.last_nonce, 0);
}

#[test]
fn other_authority_rejected_with_valid_signature() {
    let kp = keypair(3);
    let admins = registry_of(&kp);
    let mut entry = AuthorizationNonce::new();
    entry.consume(&Pubkey::new([0x44; 32]), 1).unwrap();
    let payload = signed_payload(&kp, AuthorizationAction::Swap, 9, 100);
    let r = verify_admin_authorization(&payload, AuthorizationAction::Swap, &user(), &target(), 10, &mut entry, &admins, &vec![]);
    assert_eq!(r, Err(PoolError::UnauthorizedAuthorityForSignature));
    assert_eq!(entry.authority, Pubkey::new([0x44; 32]));
    assert_eq!(entry.last_nonce, 1);
}

#[test]
fn delegated_path_ignores_payload_signature() {
    let kp = keypair(5);
    let admins = registry_of(&kp);
    let message = build_message(AuthorizationAction::Swap, &user(), &target(), 5, 1000);
    let ix = ed25519_ix(ed25519_ix_data(&sign(&kp, &message), &kp.public.to_bytes(), &message));
    let payload = AuthorizationPayload::new([0xEE; 64], 5, 1000);
    assert_eq!(check_admin_signature(&payload.signature, &message, &admins, &vec![ix.clone()]), SignatureCheck::DelegatedMatch);
    let mut entry = AuthorizationNonce::new();
    let r = verify_admin_authorization(&payload, AuthorizationAction::Swap, &user(), &target(), 999, &mut entry, &admins, &vec![ix]);
    assert_eq!(r, Ok(()));
    assert_eq!(entry.last_nonce, 5);
}

#[test]
fn delegated_instruction_with_other_message_skipped() {
    let kp = keypair(5);
    let admins = registry_of(&kp);
    let message = build_message(AuthorizationAction::Swap, &user(), &target(), 5, 1000);
    let other = build_message(AuthorizationAction::Swap, &user(), &target(), 6, 1000);
    let ix = ed25519_ix(ed25519_ix_data(&sign(&kp, &other), &kp.public.to_bytes(), &other));
    assert!(!check_delegated_instruction(&ix, &message, &admins));
    // Falls through to the direct path.
    let good = sign(&kp, &message);
    assert_eq!(check_admin_signature(&good, &message, &admins, &vec![ix.clone()]), SignatureCheck::DirectMatch);
    assert_eq!(check_admin_signature(&[0xEE; 64], &message, &admins, &vec![ix]), SignatureCheck::NoMatch);
}

#[test]
fn delegated_instruction_with_untrusted_key_skipped() {
    let kp = keypair(5);
    let intruder = keypair(6);
    let admins = registry_of(&kp);
    let message = build_message(AuthorizationAction::Swap, &user(), &target(), 5, 1000);
    let ix = ed25519_ix(ed25519_ix_data(&sign(&intruder, &message), &intruder.public.to_bytes(), &message));
    assert!(!check_delegated_instruction(&ix, &message, &admins));
    let payload = AuthorizationPayload::new([0xEE; 64], 5, 1000);
    let mut entry = AuthorizationNonce::new();
    let r = verify_admin_authorization(&payload, AuthorizationAction::Swap, &user(), &target(), 999, &mut entry, &admins, &vec![ix]);
    assert_eq!(r, Err(PoolError::InvalidAdminSignature));
    assert!(entry.authority.is_zero());
}

#[test]
fn malformed_delegated_instructions_skipped() {
    let kp = keypair(5);
    let admins = registry_of(&kp);
    let message = build_message(AuthorizationAction::Swap, &user(), &target(), 5, 1000);
    let good = ed25519_ix_data(&sign(&kp, &message), &kp.public.to_bytes(), &message);

    let mut short = good.clone();
    short.truncate(15);
    let mut two_sigs = good.clone();
    two_sigs[0] = 2;
    let mut msg_out_of_bounds = good.clone();
    msg_out_of_bounds[12..14].copy_from_slice(&200u16.to_le_bytes());
    let mut sig_out_of_bounds = good.clone();
    sig_out_of_bounds[2..4].copy_from_slice(&500u16.to_le_bytes());
    let mut key_len_wrong = good.clone();
    key_len_wrong[8..10].copy_from_slice(&31u16.to_le_bytes());
    let wrong_program = ProcessedInstruction::new(Pubkey::new([0x55; 32]), good.clone());

    let bad = vec![
        ed25519_ix(short),
        ed25519_ix(two_sigs),
        ed25519_ix(msg_out_of_bounds),
        ed25519_ix(sig_out_of_bounds),
        ed25519_ix(key_len_wrong),
        wrong_program,
    ];
    for ix in bad.iter() {
        assert!(!check_delegated_instruction(ix, &message, &admins));
    }
    assert_eq!(verify_with_ed25519_ix(&message, &admins, &bad), Err(PoolError::InvalidAdminSignature));

    // A malformed candidate does not end the search: a later good one is found.
    let mut with_good = bad.clone();
    with_good.push(ed25519_ix(good));
    assert_eq!(verify_with_ed25519_ix(&message, &admins, &with_good), Ok(()));
}

#[test]
fn same_payload_succeeds_at_most_once() {
    let kp = keypair(8);
    let admins = registry_of(&kp);
    let payload = signed_payload(&kp, AuthorizationAction::Swap, 42, 500);
    let mut entry = AuthorizationNonce::new();
    let first = verify_admin_authorization(&payload, AuthorizationAction::Swap, &user(), &target(), 400, &mut entry, &admins, &vec![]);
    let second = verify_admin_authorization(&payload, AuthorizationAction::Swap, &user(), &target(), 400, &mut entry, &admins, &vec![]);
    assert_eq!(first, Ok(()));
    assert_eq!(second, Err(PoolError::AuthorizationNonceNotIncreasing));
}

#[test]
fn settle_follows_signature_outcome() {
    let mut entry = AuthorizationNonce::new();
    assert_eq!(settle_authorization(SignatureCheck::NoMatch, &user(), 1, &mut entry), Err(PoolError::InvalidAdminSignature));
    assert!(entry.authority.is_zero());
    assert_eq!(settle_authorization(SignatureCheck::DirectMatch, &user(), 1, &mut entry), Ok(()));
    assert_eq!(settle_authorization(SignatureCheck::DelegatedMatch, &user(), 1, &mut entry), Err(PoolError::AuthorizationNonceNotIncreasing));
    assert_eq!(settle_authorization(SignatureCheck::DelegatedMatch, &user(), 2, &mut entry), Ok(()));
    assert_eq!(entry.last_nonce, 2);
}
