//! The Ed25519 operations of `ring`, as this library sees them: functions
//! from bytes to bytes. Nothing in this file is proved; each contract states
//! what `ring` is trusted to do.

use vstd::prelude::*;

verus! {

/// Length of an Ed25519 public key, in bytes.
pub const PUBLIC_KEY_LEN: usize = 32;

/// Length of an Ed25519 signature, in bytes.
pub const SIGNATURE_LEN: usize = 64;

#[verifier::external_type_specification]
#[verifier::external_body]
pub struct ExUnspecified(ring::error::Unspecified);

#[verifier::external_type_specification]
#[verifier::external_body]
pub struct ExKeyRejected(ring::error::KeyRejected);

/// The public key of the key pair that `Ed25519KeyPair::from_pkcs8` builds
/// from `pkcs8`; `None` where it rejects the bytes.
pub uninterp spec fn ed25519_public_key(pkcs8: Seq<u8>) -> Option<Seq<u8>>;

/// The signature that `Ed25519KeyPair::sign` gives for `message` under the
/// key pair parsed from `pkcs8`. Ed25519 signing draws no randomness.
pub uninterp spec fn ed25519_signature(pkcs8: Seq<u8>, message: Seq<u8>) -> Seq<u8>;

/// Whether `UnparsedPublicKey::verify` with the `ED25519` algorithm accepts
/// `signature` for `message` under `public_key`.
pub uninterp spec fn ed25519_accepts(
    public_key: Seq<u8>,
    message: Seq<u8>,
    signature: Seq<u8>,
) -> bool;

/// `Ed25519KeyPair::generate_pkcs8` with a fresh `SystemRandom`: a new key
/// pair as a PKCS#8 v2 document, or an error when the system's random source
/// fails. The outcome is random, so nothing is claimed of it.
#[verifier::external_body]
pub(crate) fn generate_pkcs8() -> (r: Result<Vec<u8>, ring::error::Unspecified>) {
    let rng = ring::rand::SystemRandom::new();
    match ring::signature::Ed25519KeyPair::generate_pkcs8(&rng) {
        Ok(document) => Ok(document.as_ref().to_vec()),
        Err(e) => Err(e),
    }
}

/// `Ed25519KeyPair::from_pkcs8`, then `KeyPair::public_key`. Claimed: the
/// outcome depends on `pkcs8` alone, and a public key is 32 bytes long.
#[verifier::external_body]
pub(crate) fn public_key_of_pkcs8(pkcs8: &[u8]) -> (r: Result<Vec<u8>, ring::error::KeyRejected>)
    ensures
        match r {
            Ok(public_key) => ed25519_public_key(pkcs8@) == Some(public_key@)
                && public_key@.len() == PUBLIC_KEY_LEN,
            Err(_) => ed25519_public_key(pkcs8@).is_none(),
        },
{
    match ring::signature::Ed25519KeyPair::from_pkcs8(pkcs8) {
        Ok(key_pair) => Ok(ring::signature::KeyPair::public_key(&key_pair).as_ref().to_vec()),
        Err(e) => Err(e),
    }
}

/// `Ed25519KeyPair::from_pkcs8`, then `Ed25519KeyPair::sign`. Claimed: it
/// fails exactly when the key is rejected; the signature depends on key and
/// message alone, is 64 bytes long, and is one that verification under the
/// key pair's own public key accepts for the same message.
#[verifier::external_body]
pub(crate) fn sign_with_pkcs8(pkcs8: &[u8], message: &[u8]) -> (r: Result<
    Vec<u8>,
    ring::error::KeyRejected,
>)
    ensures
        r.is_ok() == ed25519_public_key(pkcs8@).is_some(),
        r matches Ok(signature) ==> signature@ == ed25519_signature(pkcs8@, message@)
            && signature@.len() == SIGNATURE_LEN && ed25519_accepts(
            ed25519_public_key(pkcs8@).unwrap(),
            message@,
            signature@,
        ),
{
    match ring::signature::Ed25519KeyPair::from_pkcs8(pkcs8) {
        Ok(key_pair) => Ok(key_pair.sign(message).as_ref().to_vec()),
        Err(e) => Err(e),
    }
}

/// `UnparsedPublicKey::new` with the `ED25519` algorithm, then `verify`.
/// Claimed: the answer depends on the three byte strings alone, and nothing
/// is accepted under a key that is not 32 bytes long, nor a signature that is
/// not 64 bytes long.
#[verifier::external_body]
pub(crate) fn verify_ed25519(public_key: &[u8], message: &[u8], signature: &[u8]) -> (accepted:
    bool)
    ensures
        accepted == ed25519_accepts(public_key@, message@, signature@),
        accepted ==> public_key@.len() == PUBLIC_KEY_LEN && signature@.len() == SIGNATURE_LEN,
{
    let key = ring::signature::UnparsedPublicKey::new(&ring::signature::ED25519, public_key);
    key.verify(message, signature).is_ok()
}

} // verus!
