//! Text form of a signature for transport: standard base64 with padding.

use vstd::prelude::*;

verus! {

#[verifier::external_type_specification]
#[verifier::external_body]
pub struct ExDecodeError(base64::DecodeError);

/// Longest byte string that is turned into text.
pub const MAX_ARMOR_INPUT: usize = 0x4000_0000;

/// The text that the `STANDARD` engine of `base64` encodes `bytes` to.
pub uninterp spec fn base64_text(bytes: Seq<u8>) -> Seq<char>;

/// The bytes that the `STANDARD` engine of `base64` decodes `text` to;
/// `None` where it rejects the text.
pub uninterp spec fn base64_bytes(text: Seq<char>) -> Option<Seq<u8>>;

/// Number of characters in the padded base64 text of `n` bytes: four for
/// every three bytes or part of three.
pub open spec fn base64_len(n: nat) -> nat {
    (n + 2) / 3 * 4
}

/// `Engine::encode` of the `STANDARD` engine. Claimed: the text depends on
/// the bytes alone, has four characters for every three bytes or part of
/// three, and the same engine decodes it back to the bytes. Inputs so long
/// that the length of the text overflows are left out.
#[verifier::external_body]
pub(crate) fn base64_encode(bytes: &[u8]) -> (text: String)
    requires
        bytes@.len() <= MAX_ARMOR_INPUT,
    ensures
        text@ == base64_text(bytes@),
        text@.len() == base64_len(bytes@.len()),
        base64_bytes(text@) == Some(bytes@),
{
    base64::Engine::encode(&base64::engine::general_purpose::STANDARD, bytes)
}

/// `Engine::decode` of the `STANDARD` engine. Claimed: the outcome depends
/// on the text alone.
#[verifier::external_body]
fn base64_decode(text: &str) -> (r: Result<Vec<u8>, base64::DecodeError>)
    ensures
        match r {
            Ok(bytes) => base64_bytes(text@) == Some(bytes@),
            Err(_) => base64_bytes(text@).is_none(),
        },
{
    base64::Engine::decode(&base64::engine::general_purpose::STANDARD, text)
}

/// The model of an optional byte string.
pub open spec fn bytes_option_view(bytes: Option<Vec<u8>>) -> Option<Seq<u8>> {
    match bytes {
        Some(b) => Some(b@),
        None => None,
    }
}

/// The text form of `signature`, from which `signature_from_text` gives the
/// same bytes back; `None` for more than `MAX_ARMOR_INPUT` bytes.
pub fn signature_to_text(signature: &[u8]) -> (text: Option<String>)
    ensures
        match text {
            Some(t) => signature@.len() <= MAX_ARMOR_INPUT && t@ == base64_text(signature@)
                && t@.len() == base64_len(signature@.len()) && base64_bytes(t@) == Some(
                signature@,
            ),
            None => signature@.len() > MAX_ARMOR_INPUT,
        },
{
    if signature.len() <= MAX_ARMOR_INPUT {
        Some(base64_encode(signature))
    } else {
        None
    }
}

/// The bytes that `text` stands for; `None` where `text` is not base64.
pub fn signature_from_text(text: &str) -> (bytes: Option<Vec<u8>>)
    ensures
        bytes_option_view(bytes) == base64_bytes(text@),
{
    match base64_decode(text) {
        Ok(bytes) => Some(bytes),
        Err(_) => None,
    }
}

} // verus!
