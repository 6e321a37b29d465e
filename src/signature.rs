use vstd::prelude::*;

use ed25519_dalek::Verifier;

verus! {

/// Whether 64 bytes decode as an ed25519 signature: the three high bits of the
/// last byte (the top of the scalar `s`) must be clear.
pub open spec fn signature_encoding_ok(signature: Seq<u8>) -> bool {
    signature.len() == 64 && signature[63] & 0xe0 == 0
}

/// Whether ed25519 verification accepts `signature` over `message` under the
/// public key `key`.
pub uninterp spec fn ed25519_accepts(key: Seq<u8>, message: Seq<u8>, signature: Seq<u8>) -> bool;

/// Relies on ed25519_dalek's `Signature::from_bytes` (from the ed25519 crate),
/// which refuses 64 bytes exactly when the last byte has one of its three high
/// bits set.
#[verifier::external_body]
pub(crate) fn signature_well_formed(signature: &[u8; 64]) -> (r: bool)
    ensures
        r == signature_encoding_ok(signature@),
{
    ed25519_dalek::Signature::from_bytes(signature).is_ok()
}

/// Relies on ed25519_dalek's `PublicKey::verify`, its arguments decoded with
/// `PublicKey::from_bytes` and `Signature::from_bytes`: whether `signature` is a
/// valid signature of `message` under `key`. A key that is not a curve point and
/// a signature that does not decode are refused.
#[verifier::external_body]
pub(crate) fn ed25519_verify(key: &[u8; 32], message: &[u8], signature: &[u8; 64]) -> (r: bool)
    ensures
        r == ed25519_accepts(key@, message@, signature@),
        r ==> signature_encoding_ok(signature@),
{
    let public_key = match ed25519_dalek::PublicKey::from_bytes(key) {
        Ok(k) => k,
        Err(_) => return false,
    };
    let sig = match ed25519_dalek::Signature::from_bytes(signature) {
        Ok(s) => s,
        Err(_) => return false,
    };
    public_key.verify(message, &sig).is_ok()
}

} // verus!
