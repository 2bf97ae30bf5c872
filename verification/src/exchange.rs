//! One document's way through the workflow, as a state machine:
//!
//! ```text
//! Drafted -> Signed -> Transmitted -> Verified | Rejected
//! ```
//!
//! The issuer holds an exchange from `Drafted` to `Signed` and hands the
//! signed document to the transport. The receiver starts at `Transmitted`
//! with what arrived. Each step takes the exchange by value and gives a new
//! one, so no stage can be left twice; a step that is refused gives the
//! exchange back unchanged.

use vstd::prelude::*;
use crate::document::{Document, DocumentView};
use crate::keys::Keypair;
use crate::workflow::{
    accepted,
    sign_document,
    sign_refusal,
    signature_text_of,
    verify_document,
    Verdict,
    WorkflowError,
};
use crate::encoding::domain_violation;

verus! {

/// The stages of an exchange.
#[derive(Clone, Copy, Debug, PartialEq, Eq, Structural)]
pub enum Stage {
    /// Built by its issuer, without a signature.
    Drafted,
    /// Signed by its issuer.
    Signed,
    /// Arrived at the receiver; nothing is known of it yet.
    Transmitted,
    /// Found to carry a valid signature of its issuer.
    Verified,
    /// Found not to: never to be trusted.
    Rejected,
}

/// A document together with the stage it has reached.
pub struct Exchange {
    stage: Stage,
    document: Document,
    key: Ghost<Seq<u8>>,
}

/// Mathematical model of an `Exchange`.
pub struct ExchangeView {
    pub stage: Stage,
    pub document: DocumentView,
    /// The public key that the stage speaks of: the signer's at `Signed`,
    /// the one the document was checked under at `Verified` and `Rejected`.
    pub key: Seq<u8>,
}

impl ExchangeView {
    /// What each stage says of the document.
    pub open spec fn coherent(self) -> bool {
        match self.stage {
            Stage::Drafted => self.document.signature().is_none(),
            Stage::Signed => accepted(self.document, self.key),
            Stage::Transmitted => true,
            Stage::Verified => accepted(self.document, self.key),
            Stage::Rejected => !accepted(self.document, self.key),
        }
    }
}

impl View for Exchange {
    type V = ExchangeView;

    closed spec fn view(&self) -> ExchangeView {
        ExchangeView { stage: self.stage, document: self.document@, key: self.key@ }
    }
}

impl Exchange {
    #[verifier::type_invariant]
    spec fn well_formed(self) -> bool {
        self@.coherent()
    }

    /// Starts an exchange with a drafted document. One that carries a
    /// signature is no draft, and is handed back with the error.
    pub fn draft(document: Document) -> (r: Result<Exchange, (WorkflowError, Document)>)
        ensures
            match r {
                Ok(exchange) => document@.signature().is_none() && exchange@.stage
                    == Stage::Drafted && exchange@.document == document@,
                Err(refused) => refused.0 == WorkflowError::AlreadySigned
                    && document@.signature().is_some() && refused.1 == document,
            },
    {
        if document.is_signed() {
            Err((WorkflowError::AlreadySigned, document))
        } else {
            Ok(Exchange { stage: Stage::Drafted, document, key: Ghost(Seq::empty()) })
        }
    }

    /// `Drafted -> Signed`. Only a draft is signed: at any other stage the
    /// step is refused as `AlreadySigned`. A refusal hands the exchange back
    /// as it was.
    pub fn sign(self, key_pair: &Keypair) -> (r: Result<Exchange, (WorkflowError, Exchange)>)
        ensures
            match r {
                Ok(next) => self@.stage == Stage::Drafted && next@.stage == Stage::Signed
                    && next@.key == key_pair@.public_key && next@.document
                    == self@.document.with_signature(
                    Some(signature_text_of(self@.document, key_pair@)),
                ),
                Err(refused) => refused.1@ == self@ && if self@.stage == Stage::Drafted {
                    sign_refusal(self@.document, key_pair@) == Some(refused.0)
                } else {
                    refused.0 == WorkflowError::AlreadySigned
                },
            },
    {
        match self.stage {
            Stage::Drafted => match sign_document(&self.document, key_pair) {
                Ok(signed) => Ok(
                    Exchange {
                        stage: Stage::Signed,
                        document: signed,
                        key: Ghost(key_pair@.public_key),
                    },
                ),
                Err(e) => Err((e, self)),
            },
            _ => Err((WorkflowError::AlreadySigned, self)),
        }
    }

    /// Starts the receiver's side with a document as it arrived.
    pub fn receive(document: Document) -> (exchange: Exchange)
        ensures
            exchange@.stage == Stage::Transmitted,
            exchange@.document == document@,
    {
        Exchange { stage: Stage::Transmitted, document, key: Ghost(Seq::empty()) }
    }

    /// `Transmitted -> Verified | Rejected`, under the issuer's public key.
    /// At any other stage the step is refused as `NotTransmitted`. A refusal
    /// hands the exchange back as it was.
    pub fn verify(self, public_key: &[u8]) -> (r: Result<Exchange, (WorkflowError, Exchange)>)
        ensures
            match r {
                Ok(next) => self@.stage == Stage::Transmitted && next@.document == self@.document
                    && next@.key == public_key@ && next@.stage == (if accepted(
                    self@.document,
                    public_key@,
                ) {
                    Stage::Verified
                } else {
                    Stage::Rejected
                }),
                Err(refused) => refused.1@ == self@ && if self@.stage == Stage::Transmitted {
                    refused.0 matches WorkflowError::Encoding(violation) && domain_violation(
                        self@.document,
                    ) == Some(violation)
                } else {
                    refused.0 == WorkflowError::NotTransmitted
                },
            },
    {
        match self.stage {
            Stage::Transmitted => match verify_document(&self.document, public_key) {
                Ok(Verdict::Verified) => Ok(
                    Exchange {
                        stage: Stage::Verified,
                        document: self.document,
                        key: Ghost(public_key@),
                    },
                ),
                Ok(Verdict::Rejected) => Ok(
                    Exchange {
                        stage: Stage::Rejected,
                        document: self.document,
                        key: Ghost(public_key@),
                    },
                ),
                Err(e) => Err((WorkflowError::Encoding(e), self)),
            },
            _ => Err((WorkflowError::NotTransmitted, self)),
        }
    }

    /// The stage reached.
    pub fn stage(&self) -> (stage: Stage)
        ensures
            stage == self@.stage,
    {
        self.stage
    }

    /// The document.
    pub fn document(&self) -> (document: &Document)
        ensures
            document@ == self@.document,
    {
        &self.document
    }

    /// Gives up the exchange for its document, to hand it to the transport.
    pub fn into_document(self) -> (document: Document)
        ensures
            document@ == self@.document,
    {
        self.document
    }

    /// Whether the document may be trusted: only at `Verified`, where it
    /// carries a signature that was found valid.
    pub fn is_trusted(&self) -> (trusted: bool)
        ensures
            trusted == (self@.stage == Stage::Verified),
            trusted ==> accepted(self@.document, self@.key),
    {
        proof {
            use_type_invariant(self);
        }
        match self.stage {
            Stage::Verified => true,
            _ => false,
        }
    }
}

} // verus!
