//! The invoice to render.

use vstd::prelude::*;
use bigdecimal::BigDecimal;

verus! {

/// An invoice: who bills whom, for what, and how to pay.
#[derive(Debug)]
pub struct Invoice {
    /// The locale whose labels and number format the invoice uses.
    pub locale: String,
    /// The currency of all amounts, as a three-letter code.
    pub currency: String,
    pub invoice_number: String,
    /// The date of the invoice, as it is to be shown.
    pub billed_at: String,
    /// The date by which to pay, as it is to be shown.
    pub due_date: String,
    pub reference_id: Option<String>,
    /// The rate of the value-added tax that the prices include, in tenths
    /// of a percent.
    pub vat_percent: u32,
    pub note: Option<String>,
    pub invoice_description: Option<String>,
    pub billed_by: BilledBy,
    pub billed_to: BilledTo,
    pub bank_details: BankDetails,
    pub invoice_lines: Vec<InvoiceLine>,
}

/// The party that sends the invoice.
#[derive(Debug)]
pub struct BilledBy {
    pub name: String,
    pub address_line_1: String,
    pub address_line_2: Option<String>,
    pub address_line_3: Option<String>,
    pub company_id: Option<String>,
    pub vat_id: Option<String>,
    pub email: Option<String>,
    pub phone_number: Option<String>,
    pub detail: Option<String>,
    /// Where to find the logo: a path, or a URL that starts with `http://`
    /// or `https://`.
    pub logo: Option<String>,
}

/// The party that receives the invoice.
#[derive(Debug)]
pub struct BilledTo {
    pub name: String,
    pub address_line_1: String,
    pub address_line_2: Option<String>,
    pub address_line_3: Option<String>,
    pub company_id: Option<String>,
    pub vat_id: Option<String>,
}

/// The account to pay to.
#[derive(Debug)]
pub struct BankDetails {
    pub account_number: String,
    pub bic_code: String,
}

/// One line of the invoice: so many of an item at a price.
#[derive(Debug)]
pub struct InvoiceLine {
    pub name: String,
    pub count: u32,
    /// The price of the line, tax included.
    pub price: BigDecimal,
}

/// The text of an optional field: nothing where the field is absent.
pub open spec fn text_or_empty(field: Option<String>) -> Seq<char> {
    match field {
        Some(text) => text@,
        None => Seq::empty(),
    }
}

/// The text of an optional field, or the empty text.
pub fn str_or_empty(field: &Option<String>) -> (text: &str)
    ensures
        text@ == text_or_empty(*field),
{
    match field {
        Some(text) => text.as_str(),
        None => {
            proof {
                reveal_strlit("");
            }
            assert(""@ =~= Seq::<char>::empty());
            ""
        },
    }
}

} // verus!
