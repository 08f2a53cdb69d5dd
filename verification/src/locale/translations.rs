//! The labels that an invoice shows, by the place where it shows them.

use vstd::prelude::*;

verus! {

/// The labels of one language.
#[derive(Debug, Clone, Copy, PartialEq, Eq)]
pub struct Translations {
    pub invoice: InvoiceTranslations,
    pub company_id: &'static str,
    pub vat_id: &'static str,
    pub account: AccountTranslations,
}

/// The labels of the invoice itself.
#[derive(Debug, Clone, Copy, PartialEq, Eq)]
pub struct InvoiceTranslations {
    pub invoice: &'static str,
    pub number: &'static str,
    pub date: &'static str,
    pub due_date: &'static str,
    pub reference_number: &'static str,
    pub total_price_without_tax: &'static str,
    pub total_price: &'static str,
    pub vat: &'static str,
    pub line: LineTranslations,
}

/// The labels of the bank account.
#[derive(Debug, Clone, Copy, PartialEq, Eq)]
pub struct AccountTranslations {
    pub number: &'static str,
    pub bic: &'static str,
}

/// The headings of the columns of the invoice lines.
#[derive(Debug, Clone, Copy, PartialEq, Eq)]
pub struct LineTranslations {
    pub item: &'static str,
    pub quantity: &'static str,
    pub price: &'static str,
    pub price_without_tax: &'static str,
    pub vat: &'static str,
}

impl LineTranslations {
    /// Whether every label holds some text.
    pub open spec fn complete(self) -> bool {
        &&& self.item@.len() > 0
        &&& self.quantity@.len() > 0
        &&& self.price@.len() > 0
        &&& self.price_without_tax@.len() > 0
        &&& self.vat@.len() > 0
    }
}

impl AccountTranslations {
    /// Whether every label holds some text.
    pub open spec fn complete(self) -> bool {
        &&& self.number@.len() > 0
        &&& self.bic@.len() > 0
    }
}

impl InvoiceTranslations {
    /// Whether every label holds some text.
    pub open spec fn complete(self) -> bool {
        &&& self.invoice@.len() > 0
        &&& self.number@.len() > 0
        &&& self.date@.len() > 0
        &&& self.due_date@.len() > 0
        &&& self.reference_number@.len() > 0
        &&& self.total_price_without_tax@.len() > 0
        &&& self.total_price@.len() > 0
        &&& self.vat@.len() > 0
        &&& self.line.complete()
    }
}

impl Translations {
    /// Whether every label holds some text.
    pub open spec fn complete(self) -> bool {
        &&& self.invoice.complete()
        &&& self.company_id@.len() > 0
        &&& self.vat_id@.len() > 0
        &&& self.account.complete()
    }
}

} // verus!
