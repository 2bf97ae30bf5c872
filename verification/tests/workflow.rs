use signed_docs::armor::{signature_from_text, signature_to_text};
use signed_docs::document::{Decimal, Document, Invoice, Receipt};
use signed_docs::encoding::{encode, EncodingError, Field, MAX_TEXT_LEN};
use signed_docs::exchange::{Exchange, Stage};
use signed_docs::keys::{generate_keys, Keypair, SigningError};
use signed_docs::signing::{sign_data, verify_signature};
use signed_docs::workflow::{
    attach_signature, sign_document, verify_document, Verdict, WorkflowError,
};

// Key pair of the first test vector of RFC 8032, section 7.1, as PKCS#8 v2.
fn issuer_pkcs8() -> Vec<u8> {
    vec![
        48, 81, 2, 1, 1, 48, 5, 6, 3, 43, 101, 112, 4, 34, 4, 32, 157, 97, 177, 157, 239, 253,
        90, 96, 186, 132, 74, 244, 146, 236, 44, 196, 68, 73, 197, 105, 123, 50, 105, 25, 112,
        59, 172, 3, 28, 174, 127, 96, 129, 33, 0, 215, 90, 152, 1, 130, 177, 10, 183, 213, 75,
        254, 211, 201, 100, 7, 58, 14, 225, 114, 243, 218, 166, 35, 37, 175, 2, 26, 104, 247, 7,
        81, 26,
    ]
}

fn issuer_key() -> Keypair {
    Keypair::from_pkcs8(issuer_pkcs8()).ok().expect("known key")
}

fn fresh_keys() -> (Keypair, Keypair) {
    generate_keys().ok().expect("key generation")
}

fn drafted_invoice() -> Document {
    Document::Invoice(Invoice::draft(
        "inv-001".to_string(),
        Decimal::new(10000, 2),
        "event_123".to_string(),
    ))
}

fn drafted_receipt() -> Document {
    Document::Receipt(Receipt::draft(
        "rcp-001".to_string(),
        Decimal::new(10000, 2),
        "txn-001".to_string(),
        "inv-001".to_string(),
    ))
}

fn signature_of(document: &Document) -> Option<String> {
    document.signature().clone()
}

fn with_signature(document: &Document, signature: Option<String>) -> Document {
    match document {
        Document::Invoice(invoice) => {
            let mut changed = invoice.clone();
            changed.signature = signature;
            Document::Invoice(changed)
        }
        Document::Receipt(receipt) => {
            let mut changed = receipt.clone();
            changed.signature = signature;
            Document::Receipt(changed)
        }
    }
}

#[test]
fn invoice_signed_by_issuer_is_verified() {
    let (organizer, _gateway) = fresh_keys();
    let invoice = Document::Invoice(Invoice::draft(
        "5d0c6c6e-58a1-4a52-9d5b-3f3f0c1f7a10".to_string(),
        Decimal::new(10000, 2),
        "event_123".to_string(),
    ));
    let signed = sign_document(&invoice, &organizer).unwrap();
    assert!(signed.is_signed());
    assert_eq!(
        verify_document(&signed, organizer.public_key()),
        Ok(Verdict::Verified)
    );
}

#[test]
fn receipt_signed_by_gateway_is_verified() {
    let (organizer, gateway) = fresh_keys();
    let invoice_id = "5d0c6c6e-58a1-4a52-9d5b-3f3f0c1f7a10".to_string();
    let invoice = Document::Invoice(Invoice::draft(
        invoice_id.clone(),
        Decimal::new(10000, 2),
        "event_123".to_string(),
    ));
    let _signed_invoice = sign_document(&invoice, &organizer).unwrap();
    let receipt = Document::Receipt(Receipt::draft(
        "0b9cf1f7-2a56-4b0e-8d0e-6b7a3f0a2c11".to_string(),
        Decimal::new(10000, 2),
        "9a3e1c52-77f4-4c7b-b1a3-2d9e5f6c8b12".to_string(),
        invoice_id.clone(),
    ));
    let signed_receipt = sign_document(&receipt, &gateway).unwrap();
    match &signed_receipt {
        Document::Receipt(receipt) => assert_eq!(receipt.invoice_id, invoice_id),
        Document::Invoice(_) => panic!("a receipt was signed"),
    }
    assert_eq!(
        verify_document(&signed_receipt, gateway.public_key()),
        Ok(Verdict::Verified)
    );
}

#[test]
fn receipt_under_issuers_key_is_rejected() {
    let (organizer, gateway) = fresh_keys();
    let signed_receipt = sign_document(&drafted_receipt(), &gateway).unwrap();
    assert_eq!(
        verify_document(&signed_receipt, organizer.public_key()),
        Ok(Verdict::Rejected)
    );
}

#[test]
fn receipt_with_altered_amount_is_rejected() {
    let (_organizer, gateway) = fresh_keys();
    let signed_receipt = sign_document(&drafted_receipt(), &gateway).unwrap();
    let altered = match signed_receipt {
        Document::Receipt(mut receipt) => {
            receipt.amount = Decimal::new(1000000, 2);
            Document::Receipt(receipt)
        }
        Document::Invoice(_) => panic!("a receipt was signed"),
    };
    assert_eq!(
        verify_document(&altered, gateway.public_key()),
        Ok(Verdict::Rejected)
    );
}

#[test]
fn round_trip_over_encoded_documents() {
    let (organizer, gateway) = fresh_keys();
    for document in [drafted_invoice(), drafted_receipt()].iter() {
        for key in [&organizer, &gateway].iter() {
            let payload = encode(document).unwrap();
            let signature = sign_data(&payload, key).unwrap();
            assert!(verify_signature(&payload, &signature, key.public_key()));
        }
    }
}

#[test]
fn signing_keeps_fields_and_attaches_base64_signature() {
    let key = issuer_key();
    let signed = sign_document(&drafted_invoice(), &key).unwrap();
    assert_eq!(
        signed,
        Document::Invoice(Invoice {
            invoice_id: "inv-001".to_string(),
            amount: Decimal::new(10000, 2),
            event_id: "event_123".to_string(),
            signature: Some(
                "oNqTVP22ZD7JJLQ2cRju3B48elMuo2t2s0OZVXRqqfhwB5xSzGZa5L8fA/lgmp5+Zpfq2pNREpCPKGzAjHuzBA=="
                    .to_string()
            ),
        })
    );
    let signed = sign_document(&drafted_receipt(), &key).unwrap();
    assert_eq!(
        signature_of(&signed),
        Some(
            "qbl2ZsGKIX/AgFaV0DJ+AZFb3/OrqNECHbrLKvsMTQxnrgXb+Qu7Zpk+y35TolZHG29SJPuxRt7xYhCRPVr0Aw=="
                .to_string()
        )
    );
}

#[test]
fn attached_signature_is_the_signature_of_the_encoding() {
    let key = issuer_key();
    let payload = encode(&drafted_invoice()).unwrap();
    let expected = sign_data(&payload, &key).unwrap();
    let signed = sign_document(&drafted_invoice(), &key).unwrap();
    let text = signature_of(&signed).unwrap();
    assert_eq!(signature_from_text(&text), Some(expected.clone()));
    assert_eq!(signature_to_text(&expected), Some(text));
}

#[test]
fn signing_does_not_change_the_encoding() {
    let key = issuer_key();
    let before = encode(&drafted_receipt()).unwrap();
    let signed = sign_document(&drafted_receipt(), &key).unwrap();
    assert_eq!(encode(&signed).unwrap(), before);
}

#[test]
fn signing_twice_is_refused() {
    let key = issuer_key();
    let signed = sign_document(&drafted_invoice(), &key).unwrap();
    let kept = signed.clone();
    assert_eq!(sign_document(&signed, &key), Err(WorkflowError::AlreadySigned));
    assert_eq!(signed, kept);
    assert_eq!(
        verify_document(&signed, key.public_key()),
        Ok(Verdict::Verified)
    );
}

#[test]
fn attaching_to_a_signed_document_is_refused() {
    let drafted = drafted_invoice();
    let signed = attach_signature(&drafted, "Zmlyc3Q=".to_string()).unwrap();
    assert_eq!(signature_of(&signed), Some("Zmlyc3Q=".to_string()));
    assert_eq!(
        attach_signature(&signed, "c2Vjb25k".to_string()),
        Err(WorkflowError::AlreadySigned)
    );
    let receipt = attach_signature(&drafted_receipt(), "UQ==".to_string()).unwrap();
    assert_eq!(
        receipt,
        Document::Receipt(Receipt {
            receipt_id: "rcp-001".to_string(),
            amount: Decimal::new(10000, 2),
            transaction_id: "txn-001".to_string(),
            invoice_id: "inv-001".to_string(),
            signature: Some("UQ==".to_string()),
        })
    );
}

#[test]
fn signing_surfaces_encoding_errors() {
    let key = issuer_key();
    let invoice = Document::Invoice(Invoice::draft(
        "".to_string(),
        Decimal::new(1, 0),
        "e".to_string(),
    ));
    assert_eq!(
        sign_document(&invoice, &key),
        Err(WorkflowError::Encoding(EncodingError::EmptyIdentifier(
            Field::InvoiceId
        )))
    );
    let invoice = Document::Invoice(Invoice::draft(
        "i".to_string(),
        Decimal::new(1, 19),
        "e".to_string(),
    ));
    assert_eq!(
        sign_document(&invoice, &key),
        Err(WorkflowError::Encoding(EncodingError::ScaleOutOfRange))
    );
}

#[test]
fn signing_surfaces_key_errors() {
    let malformed = Keypair::from_parts(vec![0; 83], vec![0; 32]);
    assert_eq!(
        sign_document(&drafted_invoice(), &malformed),
        Err(WorkflowError::Signing(SigningError::MalformedKey))
    );
    let mismatched = Keypair::from_parts(issuer_pkcs8(), vec![0; 32]);
    assert_eq!(
        sign_document(&drafted_invoice(), &mismatched),
        Err(WorkflowError::Signing(SigningError::PublicKeyMismatch))
    );
}

#[test]
fn sign_refusals_are_asked_in_order() {
    let malformed = Keypair::from_parts(Vec::new(), Vec::new());
    let invalid_and_signed = Document::Invoice(Invoice {
        invoice_id: "".to_string(),
        amount: Decimal::new(1, 0),
        event_id: "e".to_string(),
        signature: Some("UQ==".to_string()),
    });
    assert_eq!(
        sign_document(&invalid_and_signed, &malformed),
        Err(WorkflowError::AlreadySigned)
    );
    let invalid = Document::Invoice(Invoice::draft(
        "i".to_string(),
        Decimal::new(1, 0),
        "e".repeat(MAX_TEXT_LEN + 1),
    ));
    assert_eq!(
        sign_document(&invalid, &malformed),
        Err(WorkflowError::Encoding(EncodingError::TextTooLong(
            Field::EventId
        )))
    );
}

#[test]
fn unsigned_document_is_rejected() {
    let key = issuer_key();
    assert_eq!(
        verify_document(&drafted_invoice(), key.public_key()),
        Ok(Verdict::Rejected)
    );
}

#[test]
fn signature_that_is_not_base64_is_rejected() {
    let key = issuer_key();
    let signed = sign_document(&drafted_invoice(), &key).unwrap();
    let garbled = with_signature(&signed, Some("***".to_string()));
    assert_eq!(
        verify_document(&garbled, key.public_key()),
        Ok(Verdict::Rejected)
    );
    let empty = with_signature(&signed, Some(String::new()));
    assert_eq!(
        verify_document(&empty, key.public_key()),
        Ok(Verdict::Rejected)
    );
}

#[test]
fn signature_of_wrong_length_is_rejected() {
    let key = issuer_key();
    let signed = sign_document(&drafted_invoice(), &key).unwrap();
    let bytes = signature_from_text(&signature_of(&signed).unwrap()).unwrap();
    let shorter = signature_to_text(&bytes[..63]).unwrap();
    assert_eq!(
        verify_document(&with_signature(&signed, Some(shorter)), key.public_key()),
        Ok(Verdict::Rejected)
    );
    let mut extended = bytes.clone();
    extended.push(0);
    let longer = signature_to_text(&extended).unwrap();
    assert_eq!(
        verify_document(&with_signature(&signed, Some(longer)), key.public_key()),
        Ok(Verdict::Rejected)
    );
}

#[test]
fn signature_of_another_document_is_rejected() {
    let key = issuer_key();
    let signed_invoice = sign_document(&drafted_invoice(), &key).unwrap();
    let signed_receipt = sign_document(&drafted_receipt(), &key).unwrap();
    let swapped = with_signature(&signed_receipt, signature_of(&signed_invoice));
    assert_eq!(
        verify_document(&swapped, key.public_key()),
        Ok(Verdict::Rejected)
    );
}

#[test]
fn malformed_public_key_is_rejected() {
    let key = issuer_key();
    let signed = sign_document(&drafted_invoice(), &key).unwrap();
    assert_eq!(verify_document(&signed, &[]), Ok(Verdict::Rejected));
    assert_eq!(
        verify_document(&signed, &key.public_key()[..31]),
        Ok(Verdict::Rejected)
    );
    assert_eq!(verify_document(&signed, &[0xff; 32]), Ok(Verdict::Rejected));
}

#[test]
fn every_single_field_mutation_is_detected() {
    let key = issuer_key();
    let signed_invoice = match sign_document(&drafted_invoice(), &key).unwrap() {
        Document::Invoice(invoice) => invoice,
        Document::Receipt(_) => panic!("an invoice was signed"),
    };
    let mut changed = signed_invoice.clone();
    changed.invoice_id = "inv-002".to_string();
    assert_eq!(
        verify_document(&Document::Invoice(changed), key.public_key()),
        Ok(Verdict::Rejected)
    );
    let mut changed = signed_invoice.clone();
    changed.amount = Decimal::new(10000, 3);
    assert_eq!(
        verify_document(&Document::Invoice(changed), key.public_key()),
        Ok(Verdict::Rejected)
    );
    let mut changed = signed_invoice.clone();
    changed.event_id = "event_124".to_string();
    assert_eq!(
        verify_document(&Document::Invoice(changed), key.public_key()),
        Ok(Verdict::Rejected)
    );
    let signed_receipt = match sign_document(&drafted_receipt(), &key).unwrap() {
        Document::Receipt(receipt) => receipt,
        Document::Invoice(_) => panic!("a receipt was signed"),
    };
    let mut changed = signed_receipt.clone();
    changed.receipt_id = "rcp-002".to_string();
    assert_eq!(
        verify_document(&Document::Receipt(changed), key.public_key()),
        Ok(Verdict::Rejected)
    );
    let mut changed = signed_receipt.clone();
    changed.amount = Decimal::new(10001, 2);
    assert_eq!(
        verify_document(&Document::Receipt(changed), key.public_key()),
        Ok(Verdict::Rejected)
    );
    let mut changed = signed_receipt.clone();
    changed.transaction_id = "txn-002".to_string();
    assert_eq!(
        verify_document(&Document::Receipt(changed), key.public_key()),
        Ok(Verdict::Rejected)
    );
    let mut changed = signed_receipt.clone();
    changed.invoice_id = "inv-002".to_string();
    assert_eq!(
        verify_document(&Document::Receipt(changed), key.public_key()),
        Ok(Verdict::Rejected)
    );
    assert_eq!(
        verify_document(&Document::Receipt(signed_receipt), key.public_key()),
        Ok(Verdict::Verified)
    );
}

#[test]
fn verifying_surfaces_encoding_errors() {
    let key = issuer_key();
    let signed = sign_document(&drafted_receipt(), &key).unwrap();
    let broken = match signed {
        Document::Receipt(mut receipt) => {
            receipt.transaction_id = String::new();
            Document::Receipt(receipt)
        }
        Document::Invoice(_) => panic!("a receipt was signed"),
    };
    assert_eq!(
        verify_document(&broken, key.public_key()),
        Err(EncodingError::EmptyIdentifier(Field::TransactionId))
    );
}

#[test]
fn verifying_a_document_is_idempotent() {
    let (organizer, gateway) = fresh_keys();
    let signed = sign_document(&drafted_invoice(), &organizer).unwrap();
    for _ in 0..4 {
        assert_eq!(
            verify_document(&signed, organizer.public_key()),
            Ok(Verdict::Verified)
        );
        assert_eq!(
            verify_document(&signed, gateway.public_key()),
            Ok(Verdict::Rejected)
        );
    }
}

#[test]
fn verdict_follows_the_verifier() {
    assert_eq!(Verdict::from_check(true), Verdict::Verified);
    assert_eq!(Verdict::from_check(false), Verdict::Rejected);
    assert!(Verdict::Verified.is_trusted());
    assert!(!Verdict::Rejected.is_trusted());
}

#[test]
fn exchange_runs_from_draft_to_verified() {
    let (organizer, _gateway) = fresh_keys();
    let drafted = match Exchange::draft(drafted_invoice()) {
        Ok(exchange) => exchange,
        Err(e) => panic!("draft refused: {:?}", e),
    };
    assert_eq!(drafted.stage(), Stage::Drafted);
    assert!(!drafted.is_trusted());
    assert_eq!(drafted.document(), &drafted_invoice());
    let signed = match drafted.sign(&organizer) {
        Ok(exchange) => exchange,
        Err(refused) => panic!("signing refused: {:?}", refused.0),
    };
    assert_eq!(signed.stage(), Stage::Signed);
    assert!(signed.document().is_signed());
    assert!(!signed.is_trusted());
    let in_transit = signed.into_document();
    let received = Exchange::receive(in_transit.clone());
    assert_eq!(received.stage(), Stage::Transmitted);
    assert_eq!(received.document(), &in_transit);
    assert!(!received.is_trusted());
    let decided = match received.verify(organizer.public_key()) {
        Ok(exchange) => exchange,
        Err(refused) => panic!("verification refused: {:?}", refused.0),
    };
    assert_eq!(decided.stage(), Stage::Verified);
    assert!(decided.is_trusted());
    assert_eq!(decided.into_document(), in_transit);
}

#[test]
fn exchange_rejects_under_wrong_key_and_after_tampering() {
    let (organizer, gateway) = fresh_keys();
    let signed = sign_document(&drafted_receipt(), &gateway).unwrap();
    let decided = Exchange::receive(signed.clone())
        .verify(organizer.public_key())
        .ok()
        .expect("a verdict");
    assert_eq!(decided.stage(), Stage::Rejected);
    assert!(!decided.is_trusted());
    let altered = match signed {
        Document::Receipt(mut receipt) => {
            receipt.amount = Decimal::new(1, 2);
            Document::Receipt(receipt)
        }
        Document::Invoice(_) => panic!("a receipt was signed"),
    };
    let decided = Exchange::receive(altered)
        .verify(gateway.public_key())
        .ok()
        .expect("a verdict");
    assert_eq!(decided.stage(), Stage::Rejected);
    assert!(!decided.is_trusted());
}

#[test]
fn exchange_refuses_a_signed_draft() {
    let signed = sign_document(&drafted_invoice(), &issuer_key()).unwrap();
    assert_eq!(
        Exchange::draft(signed.clone()).err(),
        Some((WorkflowError::AlreadySigned, signed))
    );
}

#[test]
fn exchange_refuses_to_sign_after_drafted() {
    let key = issuer_key();
    let signed = Exchange::draft(drafted_invoice())
        .ok()
        .expect("a draft")
        .sign(&key)
        .ok()
        .expect("signed");
    assert_eq!(signed.sign(&key).err().map(|refused| refused.0), Some(WorkflowError::AlreadySigned));
    let received = Exchange::receive(drafted_invoice());
    assert_eq!(received.sign(&key).err().map(|refused| refused.0), Some(WorkflowError::AlreadySigned));
    let signed_document = sign_document(&drafted_invoice(), &key).unwrap();
    let decided = Exchange::receive(signed_document)
        .verify(key.public_key())
        .ok()
        .expect("a verdict");
    assert_eq!(decided.sign(&key).err().map(|refused| refused.0), Some(WorkflowError::AlreadySigned));
}

#[test]
fn exchange_verifies_only_what_was_transmitted() {
    let key = issuer_key();
    let drafted = Exchange::draft(drafted_invoice()).ok().expect("a draft");
    assert_eq!(
        drafted.verify(key.public_key()).err().map(|refused| refused.0),
        Some(WorkflowError::NotTransmitted)
    );
    let signed = Exchange::draft(drafted_invoice())
        .ok()
        .expect("a draft")
        .sign(&key)
        .ok()
        .expect("signed");
    assert_eq!(
        signed.verify(key.public_key()).err().map(|refused| refused.0),
        Some(WorkflowError::NotTransmitted)
    );
    let signed_document = sign_document(&drafted_invoice(), &key).unwrap();
    let decided = Exchange::receive(signed_document)
        .verify(key.public_key())
        .ok()
        .expect("a verdict");
    assert_eq!(
        decided.verify(key.public_key()).err().map(|refused| refused.0),
        Some(WorkflowError::NotTransmitted)
    );
}

#[test]
fn exchange_surfaces_errors() {
    let key = issuer_key();
    let invalid = Document::Invoice(Invoice::draft(
        "".to_string(),
        Decimal::new(1, 0),
        "e".to_string(),
    ));
    let drafted = Exchange::draft(invalid.clone()).ok().expect("a draft");
    assert_eq!(
        drafted.sign(&key).err().map(|refused| refused.0),
        Some(WorkflowError::Encoding(EncodingError::EmptyIdentifier(
            Field::InvoiceId
        )))
    );
    assert_eq!(
        Exchange::receive(invalid).verify(key.public_key()).err().map(|refused| refused.0),
        Some(WorkflowError::Encoding(EncodingError::EmptyIdentifier(
            Field::InvoiceId
        )))
    );
    let corrupted = Keypair::from_parts(vec![1], vec![2]);
    let drafted = Exchange::draft(drafted_invoice()).ok().expect("a draft");
    assert_eq!(
        drafted.sign(&corrupted).err().map(|refused| refused.0),
        Some(WorkflowError::Signing(SigningError::MalformedKey))
    );
}

#[test]
fn exchange_rejects_an_unsigned_document_that_arrived() {
    let key = issuer_key();
    let decided = Exchange::receive(drafted_receipt())
        .verify(key.public_key())
        .ok()
        .expect("a verdict");
    assert_eq!(decided.stage(), Stage::Rejected);
}

#[test]
fn signing_leaves_the_draft_as_it_was() {
    let key = issuer_key();
    let draft = drafted_invoice();
    let signed = sign_document(&draft, &key).unwrap();
    assert_eq!(draft, drafted_invoice());
    assert!(!draft.is_signed());
    assert!(signed.is_signed());
    let invalid = Document::Invoice(Invoice::draft(
        "".to_string(),
        Decimal::new(1, 0),
        "e".to_string(),
    ));
    let kept = invalid.clone();
    assert!(sign_document(&invalid, &key).is_err());
    assert_eq!(invalid, kept);
}

#[test]
fn signature_text_has_88_characters() {
    let (organizer, gateway) = fresh_keys();
    for key in [&organizer, &gateway, &issuer_key()].iter() {
        for document in [drafted_invoice(), drafted_receipt()].iter() {
            let signed = sign_document(document, key).unwrap();
            assert_eq!(signature_of(&signed).unwrap().chars().count(), 88);
        }
    }
}

#[test]
fn refused_exchange_is_handed_back_unchanged() {
    let key = issuer_key();
    let corrupted = Keypair::from_parts(vec![1], vec![2]);
    let drafted = Exchange::draft(drafted_invoice()).ok().expect("a draft");
    let (error, drafted) = match drafted.sign(&corrupted) {
        Ok(_) => panic!("signed with a corrupted key"),
        Err(refused) => refused,
    };
    assert_eq!(error, WorkflowError::Signing(SigningError::MalformedKey));
    assert_eq!(drafted.stage(), Stage::Drafted);
    assert_eq!(drafted.document(), &drafted_invoice());
    let (error, drafted) = match drafted.verify(key.public_key()) {
        Ok(_) => panic!("verified a draft"),
        Err(refused) => refused,
    };
    assert_eq!(error, WorkflowError::NotTransmitted);
    assert_eq!(drafted.stage(), Stage::Drafted);
    let signed = drafted.sign(&key).ok().expect("signed after all");
    assert_eq!(signed.stage(), Stage::Signed);
    let in_transit = signed.document().clone();
    let (error, signed) = match signed.sign(&key) {
        Ok(_) => panic!("signed twice"),
        Err(refused) => refused,
    };
    assert_eq!(error, WorkflowError::AlreadySigned);
    assert_eq!(signed.stage(), Stage::Signed);
    assert_eq!(signed.document(), &in_transit);
    let invalid = Document::Invoice(Invoice::draft(
        "".to_string(),
        Decimal::new(1, 0),
        "e".to_string(),
    ));
    let (error, received) = match Exchange::receive(invalid.clone()).verify(key.public_key()) {
        Ok(_) => panic!("a verdict on a document outside its domain"),
        Err(refused) => refused,
    };
    assert_eq!(
        error,
        WorkflowError::Encoding(EncodingError::EmptyIdentifier(Field::InvoiceId))
    );
    assert_eq!(received.stage(), Stage::Transmitted);
    assert_eq!(received.document(), &invalid);
}
