//! Canonical encoding: the byte sequence of a document that is signed and
//! verified.
//!
//! Layout, format version 1. The signature field is left out entirely.
//!
//! ```text
//! document := version kind fields
//! version  := 0x01
//! kind     := 0x01 (invoice) | 0x02 (receipt)
//! invoice  := text(invoice_id) amount text(event_id)
//! receipt  := text(receipt_id) amount text(transaction_id) text(invoice_id)
//! text     := length of the UTF-8 bytes as 2 bytes, big-endian; the UTF-8 bytes
//! amount   := scale as 1 byte; mantissa as 8 bytes, big-endian
//! ```

use vstd::prelude::*;
use vstd::utf8::*;
use vstd::string::*;
use crate::document::{
    Decimal,
    Document,
    DocumentView,
    Invoice,
    InvoiceView,
    Receipt,
    ReceiptView,
    MAX_SCALE,
};

verus! {

/// Version marker that starts every encoding.
pub const FORMAT_VERSION: u8 = 1;

/// Kind byte of an invoice.
pub const INVOICE_TAG: u8 = 1;

/// Kind byte of a receipt.
pub const RECEIPT_TAG: u8 = 2;

/// Largest number of UTF-8 bytes a text field may hold.
pub const MAX_TEXT_LEN: usize = 65535;

/// The fields of a document that have a domain.
#[derive(Clone, Copy, Debug, PartialEq, Eq, Structural)]
pub enum Field {
    InvoiceId,
    ReceiptId,
    TransactionId,
    EventId,
}

/// Why a document has no canonical encoding.
#[derive(Clone, Copy, Debug, PartialEq, Eq, Structural)]
pub enum EncodingError {
    /// An identifier is the empty string.
    EmptyIdentifier(Field),
    /// A text field is longer than `MAX_TEXT_LEN` bytes of UTF-8.
    TextTooLong(Field),
    /// The amount's scale exceeds `MAX_SCALE`.
    ScaleOutOfRange,
}

/// `n` as two bytes, most significant first.
pub open spec fn be16(n: nat) -> Seq<u8> {
    seq![(n / 0x100 % 0x100) as u8, (n % 0x100) as u8]
}

/// `v` as eight bytes, most significant first.
pub open spec fn be64(v: u64) -> Seq<u8> {
    seq![
        (v / 0x100_0000_0000_0000) as u8,
        (v / 0x1_0000_0000_0000 % 0x100) as u8,
        (v / 0x100_0000_0000 % 0x100) as u8,
        (v / 0x1_0000_0000 % 0x100) as u8,
        (v / 0x100_0000 % 0x100) as u8,
        (v / 0x1_0000 % 0x100) as u8,
        (v / 0x100 % 0x100) as u8,
        (v % 0x100) as u8,
    ]
}

/// Encoding of a text field: length prefix, then the UTF-8 bytes.
pub open spec fn text_field(text: Seq<char>) -> Seq<u8> {
    be16(encode_utf8(text).len()) + encode_utf8(text)
}

/// Encoding of an amount: scale, then mantissa.
pub open spec fn amount_field(amount: Decimal) -> Seq<u8> {
    seq![amount.scale] + be64(amount.mantissa)
}

/// The canonical encoding of a document. It does not depend on the
/// signature field.
pub open spec fn canonical_bytes(document: DocumentView) -> Seq<u8> {
    match document {
        DocumentView::Invoice(invoice) => seq![FORMAT_VERSION, INVOICE_TAG] + (text_field(
            invoice.invoice_id,
        ) + (amount_field(invoice.amount) + text_field(invoice.event_id))),
        DocumentView::Receipt(receipt) => seq![FORMAT_VERSION, RECEIPT_TAG] + (text_field(
            receipt.receipt_id,
        ) + (amount_field(receipt.amount) + (text_field(receipt.transaction_id) + text_field(
            receipt.invoice_id,
        )))),
    }
}

/// What is wrong with free text in `field`, if anything.
pub open spec fn text_violation(text: Seq<char>, field: Field) -> Option<EncodingError> {
    if encode_utf8(text).len() > MAX_TEXT_LEN {
        Some(EncodingError::TextTooLong(field))
    } else {
        None
    }
}

/// What is wrong with an identifier in `field`, if anything.
pub open spec fn identifier_violation(text: Seq<char>, field: Field) -> Option<EncodingError> {
    if text.len() == 0 {
        Some(EncodingError::EmptyIdentifier(field))
    } else {
        text_violation(text, field)
    }
}

/// What is wrong with an amount, if anything.
pub open spec fn amount_violation(amount: Decimal) -> Option<EncodingError> {
    if amount.in_domain() {
        None
    } else {
        Some(EncodingError::ScaleOutOfRange)
    }
}

/// `first` if it reports a violation, else `second`.
pub open spec fn or_else(first: Option<EncodingError>, second: Option<EncodingError>) -> Option<
    EncodingError,
> {
    if first.is_some() {
        first
    } else {
        second
    }
}

/// The first field of `document`, in encoding order, that lies outside its
/// domain, with the reason; `None` when every field is in its domain.
pub open spec fn domain_violation(document: DocumentView) -> Option<EncodingError> {
    match document {
        DocumentView::Invoice(invoice) => or_else(
            identifier_violation(invoice.invoice_id, Field::InvoiceId),
            or_else(amount_violation(invoice.amount), text_violation(invoice.event_id, Field::EventId)),
        ),
        DocumentView::Receipt(receipt) => or_else(
            identifier_violation(receipt.receipt_id, Field::ReceiptId),
            or_else(
                amount_violation(receipt.amount),
                or_else(
                    identifier_violation(receipt.transaction_id, Field::TransactionId),
                    identifier_violation(receipt.invoice_id, Field::InvoiceId),
                ),
            ),
        ),
    }
}

/// Every field of `document` lies in its domain.
pub open spec fn in_domain(document: DocumentView) -> bool {
    domain_violation(document).is_none()
}

fn append_bytes(out: &mut Vec<u8>, bytes: &[u8])
    ensures
        final(out)@ == old(out)@ + bytes@,
{
    let mut i: usize = 0;
    while i < bytes.len()
        invariant
            i <= bytes.len(),
            out@ == old(out)@ + bytes@.subrange(0, i as int),
        decreases bytes.len() - i,
    {
        out.push(bytes[i]);
        i += 1;
    }
    assert(bytes@.subrange(0, i as int) == bytes@);
}

fn append_text(out: &mut Vec<u8>, text: &str)
    requires
        text.spec_bytes().len() <= MAX_TEXT_LEN,
    ensures
        final(out)@ == old(out)@ + text_field(text@),
{
    let bytes = text.as_bytes();
    let len: usize = bytes.len();
    out.push((len / 0x100) as u8);
    out.push((len % 0x100) as u8);
    append_bytes(out, bytes);
}

fn append_amount(out: &mut Vec<u8>, amount: Decimal)
    ensures
        final(out)@ == old(out)@ + amount_field(amount),
{
    let v: u64 = amount.mantissa;
    out.push(amount.scale);
    out.push((v / 0x100_0000_0000_0000) as u8);
    out.push((v / 0x1_0000_0000_0000 % 0x100) as u8);
    out.push((v / 0x100_0000_0000 % 0x100) as u8);
    out.push((v / 0x1_0000_0000 % 0x100) as u8);
    out.push((v / 0x100_0000 % 0x100) as u8);
    out.push((v / 0x1_0000 % 0x100) as u8);
    out.push((v / 0x100 % 0x100) as u8);
    out.push((v % 0x100) as u8);
}

fn check_text(text: &str, field: Field) -> (violation: Option<EncodingError>)
    ensures
        violation == text_violation(text@, field),
{
    if text.as_bytes().len() > MAX_TEXT_LEN {
        Some(EncodingError::TextTooLong(field))
    } else {
        None
    }
}

fn check_identifier(text: &str, field: Field) -> (violation: Option<EncodingError>)
    ensures
        violation == identifier_violation(text@, field),
{
    if text.is_empty() {
        Some(EncodingError::EmptyIdentifier(field))
    } else {
        check_text(text, field)
    }
}

fn check_amount(amount: Decimal) -> (violation: Option<EncodingError>)
    ensures
        violation == amount_violation(amount),
{
    if amount.scale <= MAX_SCALE {
        None
    } else {
        Some(EncodingError::ScaleOutOfRange)
    }
}

fn first_of(first: Option<EncodingError>, second: Option<EncodingError>) -> (r: Option<
    EncodingError,
>)
    ensures
        r == or_else(first, second),
{
    if first.is_some() {
        first
    } else {
        second
    }
}

/// Checks every field of `document` against its domain, in encoding order.
pub fn check_domain(document: &Document) -> (violation: Option<EncodingError>)
    ensures
        violation == domain_violation(document@),
{
    match document {
        Document::Invoice(invoice) => first_of(
            check_identifier(invoice.invoice_id.as_str(), Field::InvoiceId),
            first_of(
                check_amount(invoice.amount),
                check_text(invoice.event_id.as_str(), Field::EventId),
            ),
        ),
        Document::Receipt(receipt) => first_of(
            check_identifier(receipt.receipt_id.as_str(), Field::ReceiptId),
            first_of(
                check_amount(receipt.amount),
                first_of(
                    check_identifier(receipt.transaction_id.as_str(), Field::TransactionId),
                    check_identifier(receipt.invoice_id.as_str(), Field::InvoiceId),
                ),
            ),
        ),
    }
}

fn encode_invoice(invoice: &Invoice) -> (bytes: Vec<u8>)
    requires
        in_domain(DocumentView::Invoice(invoice@)),
    ensures
        bytes@ == canonical_bytes(DocumentView::Invoice(invoice@)),
{
    let mut out: Vec<u8> = Vec::new();
    out.push(FORMAT_VERSION);
    out.push(INVOICE_TAG);
    append_text(&mut out, invoice.invoice_id.as_str());
    append_amount(&mut out, invoice.amount);
    append_text(&mut out, invoice.event_id.as_str());
    out
}

fn encode_receipt(receipt: &Receipt) -> (bytes: Vec<u8>)
    requires
        in_domain(DocumentView::Receipt(receipt@)),
    ensures
        bytes@ == canonical_bytes(DocumentView::Receipt(receipt@)),
{
    let mut out: Vec<u8> = Vec::new();
    out.push(FORMAT_VERSION);
    out.push(RECEIPT_TAG);
    append_text(&mut out, receipt.receipt_id.as_str());
    append_amount(&mut out, receipt.amount);
    append_text(&mut out, receipt.transaction_id.as_str());
    append_text(&mut out, receipt.invoice_id.as_str());
    out
}

/// Encodes `document` for signing or verification. The domain of every field
/// is checked first; the signature field takes no part.
pub fn encode(document: &Document) -> (r: Result<Vec<u8>, EncodingError>)
    ensures
        match r {
            Ok(bytes) => in_domain(document@) && bytes@ == canonical_bytes(document@),
            Err(e) => domain_violation(document@) == Some(e),
        },
{
    match check_domain(document) {
        Some(e) => Err(e),
        None => match document {
            Document::Invoice(invoice) => Ok(encode_invoice(invoice)),
            Document::Receipt(receipt) => Ok(encode_receipt(receipt)),
        },
    }
}

proof fn lemma_be16_injective(a: nat, b: nat)
    requires
        a <= MAX_TEXT_LEN,
        b <= MAX_TEXT_LEN,
        be16(a) == be16(b),
    ensures
        a == b,
{
    assert(be16(a)[0] == be16(b)[0]);
    assert(be16(a)[1] == be16(b)[1]);
}

/// A 64-bit value is fixed by its eight bytes.
proof fn lemma_bytes_fix_u64(a: u64, b: u64)
    by (bit_vector)
    requires
        a / 0x100_0000_0000_0000 == b / 0x100_0000_0000_0000,
        a / 0x1_0000_0000_0000 % 0x100 == b / 0x1_0000_0000_0000 % 0x100,
        a / 0x100_0000_0000 % 0x100 == b / 0x100_0000_0000 % 0x100,
        a / 0x1_0000_0000 % 0x100 == b / 0x1_0000_0000 % 0x100,
        a / 0x100_0000 % 0x100 == b / 0x100_0000 % 0x100,
        a / 0x1_0000 % 0x100 == b / 0x1_0000 % 0x100,
        a / 0x100 % 0x100 == b / 0x100 % 0x100,
        a % 0x100 == b % 0x100,
    ensures
        a == b,
{
}

/// The most significant byte of a 64-bit value is a byte.
proof fn lemma_top_byte(v: u64)
    by (bit_vector)
    ensures
        v / 0x100_0000_0000_0000 < 0x100,
{
}

proof fn lemma_be64_injective(a: u64, b: u64)
    requires
        be64(a) == be64(b),
    ensures
        a == b,
{
    lemma_top_byte(a);
    lemma_top_byte(b);
    assert(a / 0x100_0000_0000_0000 == b / 0x100_0000_0000_0000) by {
        assert(be64(a)[0] == be64(b)[0]);
    }
    assert(a / 0x1_0000_0000_0000 % 0x100 == b / 0x1_0000_0000_0000 % 0x100) by {
        assert(be64(a)[1] == be64(b)[1]);
    }
    assert(a / 0x100_0000_0000 % 0x100 == b / 0x100_0000_0000 % 0x100) by {
        assert(be64(a)[2] == be64(b)[2]);
    }
    assert(a / 0x1_0000_0000 % 0x100 == b / 0x1_0000_0000 % 0x100) by {
        assert(be64(a)[3] == be64(b)[3]);
    }
    assert(a / 0x100_0000 % 0x100 == b / 0x100_0000 % 0x100) by {
        assert(be64(a)[4] == be64(b)[4]);
    }
    assert(a / 0x1_0000 % 0x100 == b / 0x1_0000 % 0x100) by {
        assert(be64(a)[5] == be64(b)[5]);
    }
    assert(a / 0x100 % 0x100 == b / 0x100 % 0x100) by {
        assert(be64(a)[6] == be64(b)[6]);
    }
    assert(a % 0x100 == b % 0x100) by {
        assert(be64(a)[7] == be64(b)[7]);
    }
    lemma_bytes_fix_u64(a, b);
}

/// A text field can be read off the front of an encoding in one way only.
proof fn lemma_text_field_split(a: Seq<char>, x: Seq<u8>, b: Seq<char>, y: Seq<u8>)
    requires
        encode_utf8(a).len() <= MAX_TEXT_LEN,
        encode_utf8(b).len() <= MAX_TEXT_LEN,
        text_field(a) + x == text_field(b) + y,
    ensures
        a == b,
        x == y,
{
    let ua = encode_utf8(a);
    let ub = encode_utf8(b);
    let left = text_field(a) + x;
    let right = text_field(b) + y;
    assert(left.subrange(0, 2) == be16(ua.len()));
    assert(right.subrange(0, 2) == be16(ub.len()));
    lemma_be16_injective(ua.len(), ub.len());
    let n = ua.len() as int;
    assert(left.subrange(2, 2 + n) == ua);
    assert(right.subrange(2, 2 + n) == ub);
    encode_utf8_decode_utf8(a);
    encode_utf8_decode_utf8(b);
    assert(left.subrange(2 + n, left.len() as int) == x);
    assert(right.subrange(2 + n, right.len() as int) == y);
}

/// An amount can be read off the front of an encoding in one way only.
proof fn lemma_amount_field_split(a: Decimal, x: Seq<u8>, b: Decimal, y: Seq<u8>)
    requires
        amount_field(a) + x == amount_field(b) + y,
    ensures
        a == b,
        x == y,
{
    let left = amount_field(a) + x;
    let right = amount_field(b) + y;
    assert(left[0] == a.scale);
    assert(right[0] == b.scale);
    assert(left.subrange(1, 9) == be64(a.mantissa));
    assert(right.subrange(1, 9) == be64(b.mantissa));
    lemma_be64_injective(a.mantissa, b.mantissa);
    assert(left.subrange(9, left.len() as int) == x);
    assert(right.subrange(9, right.len() as int) == y);
}

/// The encoding and the domain check read nothing of the signature field:
/// two documents whose other fields are equal have the same violation, and
/// the same canonical bytes.
pub proof fn lemma_encoding_ignores_signature(a: DocumentView, b: DocumentView)
    requires
        a.content() == b.content(),
    ensures
        domain_violation(a) == domain_violation(b),
        canonical_bytes(a) == canonical_bytes(b),
{
}

/// What follows a common prefix is fixed by the whole.
proof fn lemma_same_prefix(prefix: Seq<u8>, x: Seq<u8>, y: Seq<u8>)
    requires
        prefix + x == prefix + y,
    ensures
        x == y,
{
    let n = prefix.len() as int;
    assert((prefix + x).subrange(n, n + x.len()) == x);
    assert((prefix + y).subrange(n, n + y.len()) == y);
}

/// A text field at the end of an encoding can be read in one way only.
proof fn lemma_last_text_field(a: Seq<char>, b: Seq<char>)
    requires
        encode_utf8(a).len() <= MAX_TEXT_LEN,
        encode_utf8(b).len() <= MAX_TEXT_LEN,
        text_field(a) == text_field(b),
    ensures
        a == b,
{
    let empty = Seq::<u8>::empty();
    assert(text_field(a) + empty == text_field(a));
    assert(text_field(b) + empty == text_field(b));
    lemma_text_field_split(a, empty, b, empty);
}

proof fn lemma_invoice_encoding_injective(a: InvoiceView, b: InvoiceView)
    requires
        in_domain(DocumentView::Invoice(a)),
        in_domain(DocumentView::Invoice(b)),
        canonical_bytes(DocumentView::Invoice(a)) == canonical_bytes(DocumentView::Invoice(b)),
    ensures
        a.invoice_id == b.invoice_id,
        a.amount == b.amount,
        a.event_id == b.event_id,
{
    let rest_a = amount_field(a.amount) + text_field(a.event_id);
    let rest_b = amount_field(b.amount) + text_field(b.event_id);
    lemma_same_prefix(
        seq![FORMAT_VERSION, INVOICE_TAG],
        text_field(a.invoice_id) + rest_a,
        text_field(b.invoice_id) + rest_b,
    );
    lemma_text_field_split(a.invoice_id, rest_a, b.invoice_id, rest_b);
    lemma_amount_field_split(a.amount, text_field(a.event_id), b.amount, text_field(b.event_id));
    lemma_last_text_field(a.event_id, b.event_id);
}

proof fn lemma_receipt_encoding_injective(a: ReceiptView, b: ReceiptView)
    requires
        in_domain(DocumentView::Receipt(a)),
        in_domain(DocumentView::Receipt(b)),
        canonical_bytes(DocumentView::Receipt(a)) == canonical_bytes(DocumentView::Receipt(b)),
    ensures
        a.receipt_id == b.receipt_id,
        a.amount == b.amount,
        a.transaction_id == b.transaction_id,
        a.invoice_id == b.invoice_id,
{
    let texts_a = text_field(a.transaction_id) + text_field(a.invoice_id);
    let texts_b = text_field(b.transaction_id) + text_field(b.invoice_id);
    let rest_a = amount_field(a.amount) + texts_a;
    let rest_b = amount_field(b.amount) + texts_b;
    lemma_same_prefix(
        seq![FORMAT_VERSION, RECEIPT_TAG],
        text_field(a.receipt_id) + rest_a,
        text_field(b.receipt_id) + rest_b,
    );
    lemma_text_field_split(a.receipt_id, rest_a, b.receipt_id, rest_b);
    lemma_amount_field_split(a.amount, texts_a, b.amount, texts_b);
    lemma_text_field_split(
        a.transaction_id,
        text_field(a.invoice_id),
        b.transaction_id,
        text_field(b.invoice_id),
    );
    lemma_last_text_field(a.invoice_id, b.invoice_id);
}

/// The second byte of an encoding tells the kind of the document.
proof fn lemma_kind_byte(document: DocumentView)
    ensures
        canonical_bytes(document).len() >= 2,
        canonical_bytes(document)[1] == match document {
            DocumentView::Invoice(_) => INVOICE_TAG,
            DocumentView::Receipt(_) => RECEIPT_TAG,
        },
{
}

/// The encoding is injective on the signed content: two documents in their
/// domains with the same canonical bytes are of the same kind and agree on
/// every field but the signature. So changing any such field changes the
/// bytes that a signature is checked against.
pub proof fn lemma_encoding_injective(a: DocumentView, b: DocumentView)
    requires
        in_domain(a),
        in_domain(b),
        canonical_bytes(a) == canonical_bytes(b),
    ensures
        a.content() == b.content(),
{
    lemma_kind_byte(a);
    lemma_kind_byte(b);
    match (a, b) {
        (DocumentView::Invoice(ia), DocumentView::Invoice(ib)) => {
            lemma_invoice_encoding_injective(ia, ib);
        },
        (DocumentView::Receipt(ra), DocumentView::Receipt(rb)) => {
            lemma_receipt_encoding_injective(ra, rb);
        },
        _ => {},
    }
}

} // verus!
