//! The document workflow: draft, sign, transmit, verify.
//!
//! A document is drafted without a signature. Signing encodes it, signs the
//! bytes and attaches the signature as base64 text. The receiving party
//! encodes what it received, leaving the signature field out, and checks the
//! signature against those bytes under the issuer's public key. Anything but
//! a valid signature ends in `Rejected`.

use vstd::prelude::*;
use crate::armor::{base64_bytes, base64_encode, base64_text, signature_from_text};
use crate::document::{Document, DocumentView, Invoice, Receipt};
use crate::ed25519::{ed25519_accepts, ed25519_signature};
use crate::encoding::{
    canonical_bytes,
    domain_violation,
    encode,
    in_domain,
    lemma_encoding_ignores_signature,
    lemma_encoding_injective,
    EncodingError,
};
use crate::keys::{Keypair, KeypairView, SigningError};
use crate::signing::{sign_data, verify_signature};

verus! {

/// How verification of a received document ended.
#[derive(Clone, Copy, Debug, PartialEq, Eq, Structural)]
pub enum Verdict {
    /// The signature is valid for the document under the given public key.
    Verified,
    /// It is not: the document must not be trusted.
    Rejected,
}

/// Why a step of the workflow was refused.
#[derive(Clone, Copy, Debug, PartialEq, Eq, Structural)]
pub enum WorkflowError {
    /// The document already carries a signature.
    AlreadySigned,
    /// Only a document that was received can be verified.
    NotTransmitted,
    /// A field lies outside its domain.
    Encoding(EncodingError),
    /// The key pair is corrupted.
    Signing(SigningError),
}

/// Number of characters in the text of a signature.
pub const SIGNATURE_TEXT_LEN: usize = 88;

/// `document` carries a signature, as base64 text, that is valid for the
/// canonical bytes of its other fields under `public_key`.
pub open spec fn accepted(document: DocumentView, public_key: Seq<u8>) -> bool {
    &&& in_domain(document)
    &&& document.signature() matches Some(text)
    &&& base64_bytes(text) matches Some(signature)
    &&& ed25519_accepts(public_key, canonical_bytes(document), signature)
}

/// The verdict on `document` under `public_key`.
pub open spec fn verdict_of(document: DocumentView, public_key: Seq<u8>) -> Verdict {
    if accepted(document, public_key) {
        Verdict::Verified
    } else {
        Verdict::Rejected
    }
}

/// The signature text that signing `document` with `key_pair` attaches.
pub open spec fn signature_text_of(document: DocumentView, key_pair: KeypairView) -> Seq<char> {
    base64_text(ed25519_signature(key_pair.private_key, canonical_bytes(document)))
}

/// Why `document` cannot be signed with `key_pair`, if it cannot: it is
/// signed already, or a field is outside its domain, or the key pair is
/// corrupted, asked in this order.
pub open spec fn sign_refusal(document: DocumentView, key_pair: KeypairView) -> Option<
    WorkflowError,
> {
    if document.signature().is_some() {
        Some(WorkflowError::AlreadySigned)
    } else if let Some(e) = domain_violation(document) {
        Some(WorkflowError::Encoding(e))
    } else if let Some(e) = key_pair.fault() {
        Some(WorkflowError::Signing(e))
    } else {
        None
    }
}

impl Verdict {
    /// `Verified` exactly when the verifier said `true`.
    pub fn from_check(valid: bool) -> (verdict: Verdict)
        ensures
            verdict == if valid {
                Verdict::Verified
            } else {
                Verdict::Rejected
            },
    {
        if valid {
            Verdict::Verified
        } else {
            Verdict::Rejected
        }
    }

    /// Whether the document may be trusted.
    pub fn is_trusted(&self) -> (trusted: bool)
        ensures
            trusted == (*self == Verdict::Verified),
    {
        match self {
            Verdict::Verified => true,
            Verdict::Rejected => false,
        }
    }
}

/// A copy of `document` with `signature` attached. A document that carries
/// a signature is refused: the old signature is never overwritten.
pub fn attach_signature(document: &Document, signature: String) -> (r: Result<
    Document,
    WorkflowError,
>)
    ensures
        match r {
            Ok(signed) => document@.signature().is_none() && signed@ == document@.with_signature(
                Some(signature@),
            ),
            Err(e) => e == WorkflowError::AlreadySigned && document@.signature().is_some(),
        },
{
    if document.is_signed() {
        return Err(WorkflowError::AlreadySigned);
    }
    match document {
        Document::Invoice(invoice) => Ok(
            Document::Invoice(
                Invoice {
                    invoice_id: invoice.invoice_id.clone(),
                    amount: invoice.amount,
                    event_id: invoice.event_id.clone(),
                    signature: Some(signature),
                },
            ),
        ),
        Document::Receipt(receipt) => Ok(
            Document::Receipt(
                Receipt {
                    receipt_id: receipt.receipt_id.clone(),
                    amount: receipt.amount,
                    transaction_id: receipt.transaction_id.clone(),
                    invoice_id: receipt.invoice_id.clone(),
                    signature: Some(signature),
                },
            ),
        ),
    }
}

/// Signs a drafted document with `key_pair`: the step from `Drafted` to
/// `Signed`. The draft is left as it is; the signed document is a new value.
///
/// The result has the fields of `document` and, as its signature, the base64
/// text of the signature over the canonical bytes, 88 characters long. It is
/// accepted under the public key of `key_pair`: `verify_document` gives
/// `Verified` for it.
pub fn sign_document(document: &Document, key_pair: &Keypair) -> (r: Result<
    Document,
    WorkflowError,
>)
    ensures
        match r {
            Ok(signed) => sign_refusal(document@, key_pair@).is_none() && signed@
                == document@.with_signature(Some(signature_text_of(document@, key_pair@)))
                && signature_text_of(document@, key_pair@).len() == SIGNATURE_TEXT_LEN
                && verdict_of(signed@, key_pair@.public_key) == Verdict::Verified,
            Err(e) => sign_refusal(document@, key_pair@) == Some(e),
        },
{
    if document.is_signed() {
        return Err(WorkflowError::AlreadySigned);
    }
    let payload = match encode(document) {
        Ok(bytes) => bytes,
        Err(e) => { return Err(WorkflowError::Encoding(e)); },
    };
    let signature = match sign_data(payload.as_slice(), key_pair) {
        Ok(bytes) => bytes,
        Err(e) => { return Err(WorkflowError::Signing(e)); },
    };
    let text = base64_encode(signature.as_slice());
    match attach_signature(document, text) {
        Ok(signed) => {
            proof {
                lemma_encoding_ignores_signature(signed@, document@);
            }
            Ok(signed)
        },
        Err(e) => Err(e),
    }
}

/// Verifies a received document under `public_key`: the step from
/// `Transmitted` to `Verified` or `Rejected`.
///
/// The document is encoded anew without its signature field; a field outside
/// its domain is reported as the error. Otherwise the verdict is `Verified`
/// exactly when the document carries base64 text of a signature that is valid
/// for those bytes under `public_key`. A missing signature, text that is not
/// base64, a signature of the wrong length, changed fields and a wrong key
/// all end in `Rejected`.
pub fn verify_document(document: &Document, public_key: &[u8]) -> (r: Result<
    Verdict,
    EncodingError,
>)
    ensures
        match r {
            Ok(verdict) => in_domain(document@) && verdict == verdict_of(
                document@,
                public_key@,
            ),
            Err(e) => domain_violation(document@) == Some(e),
        },
{
    let payload = match encode(document) {
        Ok(bytes) => bytes,
        Err(e) => { return Err(e); },
    };
    let valid = match document.signature() {
        Some(text) => match signature_from_text(text.as_str()) {
            Some(signature) => verify_signature(
                payload.as_slice(),
                signature.as_slice(),
                public_key,
            ),
            None => false,
        },
        None => false,
    };
    Ok(Verdict::from_check(valid))
}

/// Fail closed: a document without a signature is never `Verified`.
pub proof fn lemma_unsigned_is_rejected(document: DocumentView, public_key: Seq<u8>)
    requires
        document.signature().is_none(),
    ensures
        verdict_of(document, public_key) == Verdict::Rejected,
{
}

/// The verdict on a document rests on its canonical bytes: a received
/// document in its domain whose fields, the signature aside, differ from
/// those that were signed is checked against other bytes than were signed.
pub proof fn lemma_tampering_changes_payload(signed: DocumentView, received: DocumentView)
    requires
        in_domain(signed),
        in_domain(received),
        received.content() != signed.content(),
    ensures
        canonical_bytes(received) != canonical_bytes(signed),
{
    if canonical_bytes(received) == canonical_bytes(signed) {
        lemma_encoding_injective(received, signed);
    }
}

} // verus!
