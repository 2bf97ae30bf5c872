//! The documents that are exchanged: invoices and payment receipts.

use vstd::prelude::*;

verus! {

/// Largest number of decimal places an amount may carry.
pub const MAX_SCALE: u8 = 18;

/// A non-negative decimal amount: `mantissa / 10^scale`.
#[derive(Clone, Copy, Debug, PartialEq, Eq, Structural)]
pub struct Decimal {
    pub mantissa: u64,
    pub scale: u8,
}

impl Decimal {
    /// An amount is in its domain when its scale is at most `MAX_SCALE`.
    pub open spec fn in_domain(self) -> bool {
        self.scale <= MAX_SCALE
    }

    pub fn new(mantissa: u64, scale: u8) -> (amount: Decimal)
        ensures
            amount.mantissa == mantissa,
            amount.scale == scale,
    {
        Decimal { mantissa, scale }
    }
}

/// An invoice issued by an event organizer.
#[derive(Clone, Debug, PartialEq, Eq)]
pub struct Invoice {
    pub invoice_id: String,
    pub amount: Decimal,
    pub event_id: String,
    /// Base64 text of the detached signature; `None` until the invoice is signed.
    pub signature: Option<String>,
}

/// A payment receipt issued by a payment gateway for an invoice.
#[derive(Clone, Debug, PartialEq, Eq)]
pub struct Receipt {
    pub receipt_id: String,
    pub amount: Decimal,
    pub transaction_id: String,
    pub invoice_id: String,
    /// Base64 text of the detached signature; `None` until the receipt is signed.
    pub signature: Option<String>,
}

#[derive(Clone, Debug, PartialEq, Eq)]
pub enum Document {
    Invoice(Invoice),
    Receipt(Receipt),
}

/// Mathematical model of an `Invoice`.
pub struct InvoiceView {
    pub invoice_id: Seq<char>,
    pub amount: Decimal,
    pub event_id: Seq<char>,
    pub signature: Option<Seq<char>>,
}

/// Mathematical model of a `Receipt`.
pub struct ReceiptView {
    pub receipt_id: Seq<char>,
    pub amount: Decimal,
    pub transaction_id: Seq<char>,
    pub invoice_id: Seq<char>,
    pub signature: Option<Seq<char>>,
}

/// Mathematical model of a `Document`.
pub enum DocumentView {
    Invoice(InvoiceView),
    Receipt(ReceiptView),
}

/// The model of an optional text field.
pub open spec fn text_option_view(text: Option<String>) -> Option<Seq<char>> {
    match text {
        Some(t) => Some(t@),
        None => None,
    }
}

impl View for Invoice {
    type V = InvoiceView;

    open spec fn view(&self) -> InvoiceView {
        InvoiceView {
            invoice_id: self.invoice_id@,
            amount: self.amount,
            event_id: self.event_id@,
            signature: text_option_view(self.signature),
        }
    }
}

impl View for Receipt {
    type V = ReceiptView;

    open spec fn view(&self) -> ReceiptView {
        ReceiptView {
            receipt_id: self.receipt_id@,
            amount: self.amount,
            transaction_id: self.transaction_id@,
            invoice_id: self.invoice_id@,
            signature: text_option_view(self.signature),
        }
    }
}

impl View for Document {
    type V = DocumentView;

    open spec fn view(&self) -> DocumentView {
        match self {
            Document::Invoice(invoice) => DocumentView::Invoice(invoice@),
            Document::Receipt(receipt) => DocumentView::Receipt(receipt@),
        }
    }
}

impl DocumentView {
    /// The attached signature text, if any.
    pub open spec fn signature(self) -> Option<Seq<char>> {
        match self {
            DocumentView::Invoice(invoice) => invoice.signature,
            DocumentView::Receipt(receipt) => receipt.signature,
        }
    }

    /// The same document carrying `signature` in its signature field.
    pub open spec fn with_signature(self, signature: Option<Seq<char>>) -> DocumentView {
        match self {
            DocumentView::Invoice(invoice) => DocumentView::Invoice(
                InvoiceView { signature, ..invoice },
            ),
            DocumentView::Receipt(receipt) => DocumentView::Receipt(
                ReceiptView { signature, ..receipt },
            ),
        }
    }

    /// The signed content: every field but the signature.
    pub open spec fn content(self) -> DocumentView {
        self.with_signature(None)
    }
}

impl Invoice {
    /// Drafts an unsigned invoice.
    pub fn draft(invoice_id: String, amount: Decimal, event_id: String) -> (invoice: Invoice)
        ensures
            invoice@ == (InvoiceView {
                invoice_id: invoice_id@,
                amount,
                event_id: event_id@,
                signature: None,
            }),
    {
        Invoice { invoice_id, amount, event_id, signature: None }
    }
}

impl Receipt {
    /// Drafts an unsigned receipt for the invoice `invoice_id`.
    pub fn draft(
        receipt_id: String,
        amount: Decimal,
        transaction_id: String,
        invoice_id: String,
    ) -> (receipt: Receipt)
        ensures
            receipt@ == (ReceiptView {
                receipt_id: receipt_id@,
                amount,
                transaction_id: transaction_id@,
                invoice_id: invoice_id@,
                signature: None,
            }),
    {
        Receipt { receipt_id, amount, transaction_id, invoice_id, signature: None }
    }
}

impl Document {
    /// The attached signature text, if any.
    pub fn signature(&self) -> (signature: &Option<String>)
        ensures
            text_option_view(*signature) == self@.signature(),
    {
        match self {
            Document::Invoice(invoice) => &invoice.signature,
            Document::Receipt(receipt) => &receipt.signature,
        }
    }

    /// Whether a signature is attached.
    pub fn is_signed(&self) -> (signed: bool)
        ensures
            signed == self@.signature().is_some(),
    {
        self.signature().is_some()
    }
}

} // verus!
