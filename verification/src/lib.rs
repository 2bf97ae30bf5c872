//! Signed-document exchange: an issuer drafts a document, signs its canonical
//! encoding with an Ed25519 key, and a counterparty verifies the signature
//! with the issuer's public key before trusting the contents.

pub mod document;
pub mod encoding;
pub mod ed25519;
pub mod armor;
pub mod keys;
pub mod signing;
pub mod workflow;
pub mod exchange;
