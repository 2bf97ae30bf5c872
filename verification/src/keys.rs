//! Signing key pairs: private key material with its public key.

use vstd::prelude::*;
use crate::ed25519::{ed25519_public_key, generate_pkcs8, public_key_of_pkcs8, PUBLIC_KEY_LEN};

verus! {

/// Why no key pair could be generated.
#[derive(Clone, Copy, Debug, PartialEq, Eq, Structural)]
pub enum KeyGenerationError {
    /// The system's random source gave nothing.
    EntropyUnavailable,
    /// What was generated is not a usable key.
    UnusableKey,
}

/// What is wrong with the key material of a key pair.
#[derive(Clone, Copy, Debug, PartialEq, Eq, Structural)]
pub enum SigningError {
    /// The private key material is not an Ed25519 key in PKCS#8 v2 form.
    MalformedKey,
    /// The public key is not the one that belongs to the private key.
    PublicKeyMismatch,
}

/// A key pair: private key material as a PKCS#8 v2 document, and the public
/// key. The private key is never part of a document or a signature.
pub struct Keypair {
    pkcs8: Vec<u8>,
    public_key: Vec<u8>,
}

/// Mathematical model of a `Keypair`.
pub struct KeypairView {
    pub private_key: Seq<u8>,
    pub public_key: Seq<u8>,
}

impl KeypairView {
    /// What is wrong with the key material, if anything.
    pub open spec fn fault(self) -> Option<SigningError> {
        match ed25519_public_key(self.private_key) {
            None => Some(SigningError::MalformedKey),
            Some(derived) => if derived == self.public_key {
                None
            } else {
                Some(SigningError::PublicKeyMismatch)
            },
        }
    }

    /// The private key is well formed and the public key belongs to it.
    pub open spec fn intact(self) -> bool {
        self.fault().is_none()
    }
}

impl View for Keypair {
    type V = KeypairView;

    closed spec fn view(&self) -> KeypairView {
        KeypairView { private_key: self.pkcs8@, public_key: self.public_key@ }
    }
}

/// Why one draw of the generator gives no key pair, if it gives none: the
/// random source failed, or what it gave does not load as a key.
pub open spec fn draw_refusal(outcome: Result<Vec<u8>, ring::error::Unspecified>) -> Option<
    KeyGenerationError,
> {
    match outcome {
        Err(_) => Some(KeyGenerationError::EntropyUnavailable),
        Ok(pkcs8) => if ed25519_public_key(pkcs8@).is_none() {
            Some(KeyGenerationError::UnusableKey)
        } else {
            None
        },
    }
}

/// Why two draws give no pair of key pairs, if they give none: the refusal
/// of the first draw, else that of the second.
pub open spec fn draws_refusal(
    first: Result<Vec<u8>, ring::error::Unspecified>,
    second: Result<Vec<u8>, ring::error::Unspecified>,
) -> Option<KeyGenerationError> {
    if draw_refusal(first).is_some() {
        draw_refusal(first)
    } else {
        draw_refusal(second)
    }
}

/// Whether two byte strings are equal.
fn same_bytes(a: &[u8], b: &[u8]) -> (same: bool)
    ensures
        same == (a@ == b@),
{
    if a.len() != b.len() {
        return false;
    }
    let mut i: usize = 0;
    while i < a.len()
        invariant
            i <= a.len(),
            a@.len() == b@.len(),
            a@.subrange(0, i as int) == b@.subrange(0, i as int),
        decreases a.len() - i,
    {
        if a[i] != b[i] {
            return false;
        }
        assert(a@.subrange(0, i + 1) == a@.subrange(0, i as int).push(a@[i as int]));
        assert(b@.subrange(0, i + 1) == b@.subrange(0, i as int).push(b@[i as int]));
        i += 1;
    }
    assert(a@.subrange(0, i as int) == a@);
    assert(b@.subrange(0, i as int) == b@);
    true
}

impl Keypair {
    /// Generates a fresh key pair from the system's random source. It fails
    /// rather than hand out a key that is not intact.
    pub fn generate() -> (r: Result<Keypair, KeyGenerationError>)
        ensures
            r matches Ok(key_pair) ==> key_pair@.intact() && key_pair@.public_key.len()
                == PUBLIC_KEY_LEN,
    {
        Keypair::from_generated(generate_pkcs8())
    }

    /// The key pair for what one draw of the generator gave. It holds the
    /// drawn key material and the public key derived from it.
    pub fn from_generated(outcome: Result<Vec<u8>, ring::error::Unspecified>) -> (r: Result<
        Keypair,
        KeyGenerationError,
    >)
        ensures
            match r {
                Ok(key_pair) => outcome matches Ok(pkcs8) && key_pair@.private_key == pkcs8@
                    && ed25519_public_key(pkcs8@) == Some(key_pair@.public_key)
                    && key_pair@.intact() && key_pair@.public_key.len() == PUBLIC_KEY_LEN,
                Err(e) => draw_refusal(outcome) == Some(e),
            },
    {
        match outcome {
            Ok(pkcs8) => match Keypair::from_pkcs8(pkcs8) {
                Ok(key_pair) => Ok(key_pair),
                Err(_) => Err(KeyGenerationError::UnusableKey),
            },
            Err(_) => Err(KeyGenerationError::EntropyUnavailable),
        }
    }

    /// Loads a key pair from private key material, deriving the public key.
    pub fn from_pkcs8(pkcs8: Vec<u8>) -> (r: Result<Keypair, SigningError>)
        ensures
            match r {
                Ok(key_pair) => key_pair@.private_key == pkcs8@ && ed25519_public_key(pkcs8@)
                    == Some(key_pair@.public_key) && key_pair@.intact()
                    && key_pair@.public_key.len() == PUBLIC_KEY_LEN,
                Err(e) => e == SigningError::MalformedKey && ed25519_public_key(pkcs8@).is_none(),
            },
    {
        match public_key_of_pkcs8(pkcs8.as_slice()) {
            Ok(public_key) => Ok(Keypair { pkcs8, public_key }),
            Err(_) => Err(SigningError::MalformedKey),
        }
    }

    /// A key pair from stored parts, taken as they are. Whether they are
    /// intact is found out by `check`, and by signing.
    pub fn from_parts(pkcs8: Vec<u8>, public_key: Vec<u8>) -> (key_pair: Keypair)
        ensures
            key_pair@ == (KeypairView { private_key: pkcs8@, public_key: public_key@ }),
    {
        Keypair { pkcs8, public_key }
    }

    /// The public key.
    pub fn public_key(&self) -> (public_key: &[u8])
        ensures
            public_key@ == self@.public_key,
    {
        self.public_key.as_slice()
    }

    /// The private key material, for the party that owns the key to store.
    pub fn private_key(&self) -> (pkcs8: &[u8])
        ensures
            pkcs8@ == self@.private_key,
    {
        self.pkcs8.as_slice()
    }

    /// Tests the key material.
    pub fn check(&self) -> (r: Result<(), SigningError>)
        ensures
            match r {
                Ok(_) => self@.intact(),
                Err(e) => self@.fault() == Some(e),
            },
    {
        match public_key_of_pkcs8(self.pkcs8.as_slice()) {
            Ok(derived) => if same_bytes(derived.as_slice(), self.public_key.as_slice()) {
                Ok(())
            } else {
                Err(SigningError::PublicKeyMismatch)
            },
            Err(_) => Err(SigningError::MalformedKey),
        }
    }
}

/// The key pairs of the two parties of an exchange from two draws of the
/// generator: the first draw becomes the event organizer's key pair, the
/// second the payment gateway's. If either draw failed, or gave what does
/// not load as a key, there is an error and no pair.
pub fn keys_from_generated(
    first: Result<Vec<u8>, ring::error::Unspecified>,
    second: Result<Vec<u8>, ring::error::Unspecified>,
) -> (r: Result<(Keypair, Keypair), KeyGenerationError>)
    ensures
        match r {
            Ok(pair) => first matches Ok(a) && second matches Ok(b) && draws_refusal(
                first,
                second,
            ).is_none() && pair.0@.private_key == a@ && pair.1@.private_key == b@
                && pair.0@.intact() && pair.1@.intact() && pair.0@.public_key.len()
                == PUBLIC_KEY_LEN && pair.1@.public_key.len() == PUBLIC_KEY_LEN,
            Err(e) => draws_refusal(first, second) == Some(e),
        },
{
    let organizer_key = match Keypair::from_generated(first) {
        Ok(key_pair) => key_pair,
        Err(e) => { return Err(e); },
    };
    let payment_gateway_key = match Keypair::from_generated(second) {
        Ok(key_pair) => key_pair,
        Err(e) => { return Err(e); },
    };
    Ok((organizer_key, payment_gateway_key))
}

/// Generates the key pairs of the two parties of an exchange, each from a
/// draw of its own: the first for the event organizer, the second for the
/// payment gateway.
pub fn generate_keys() -> (r: Result<(Keypair, Keypair), KeyGenerationError>)
    ensures
        r matches Ok(pair) ==> pair.0@.intact() && pair.0@.public_key.len() == PUBLIC_KEY_LEN
            && pair.1@.intact() && pair.1@.public_key.len() == PUBLIC_KEY_LEN,
{
    keys_from_generated(generate_pkcs8(), generate_pkcs8())
}

} // verus!
