//! Signer and verifier: detached Ed25519 signatures over payload bytes.

use vstd::prelude::*;
use crate::ed25519::{
    ed25519_accepts,
    ed25519_signature,
    sign_with_pkcs8,
    verify_ed25519,
    PUBLIC_KEY_LEN,
    SIGNATURE_LEN,
};
use crate::keys::{Keypair, SigningError};

verus! {

/// Signs `data` with the private key of `key_pair`.
///
/// It succeeds for every payload when the key pair is intact, and only then;
/// what it returns is the one signature of `data` under that key, and
/// `verify_signature` accepts it for the same `data` under the key pair's
/// public key.
pub fn sign_data(data: &[u8], key_pair: &Keypair) -> (r: Result<Vec<u8>, SigningError>)
    ensures
        match r {
            Ok(signature) => key_pair@.intact() && signature@ == ed25519_signature(
                key_pair@.private_key,
                data@,
            ) && signature@.len() == SIGNATURE_LEN && ed25519_accepts(
                key_pair@.public_key,
                data@,
                signature@,
            ),
            Err(e) => key_pair@.fault() == Some(e),
        },
{
    match key_pair.check() {
        Err(e) => { return Err(e); },
        Ok(_) => {},
    }
    match sign_with_pkcs8(key_pair.private_key(), data) {
        Ok(signature) => Ok(signature),
        Err(_) => Err(SigningError::MalformedKey),
    }
}

/// Whether `signature` is a valid signature of `data` under `public_key`.
///
/// The answer is a function of the three byte strings. A key or a signature
/// of the wrong length is answered with `false`.
pub fn verify_signature(data: &[u8], signature: &[u8], public_key: &[u8]) -> (valid: bool)
    ensures
        valid == ed25519_accepts(public_key@, data@, signature@),
        valid ==> signature@.len() == SIGNATURE_LEN && public_key@.len() == PUBLIC_KEY_LEN,
{
    verify_ed25519(public_key, data, signature)
}

} // verus!
