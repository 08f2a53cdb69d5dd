//! British English.

use vstd::prelude::*;
use crate::locale::translations::{
    AccountTranslations,
    InvoiceTranslations,
    LineTranslations,
    Translations,
};

verus! {

/// The labels in British English.
pub open spec fn en_gb_table() -> Translations {
    Translations {
        invoice: InvoiceTranslations {
            invoice: "Invoice",
            number: "Invoice number",
            date: "Date",
            due_date: "Due date",
            reference_number: "Reference number",
            total_price_without_tax: "Total price without tax",
            total_price: "Total price",
            vat: "VAT",
            line: LineTranslations {
                item: "Item",
                quantity: "Quantity",
                price: "Price",
                price_without_tax: "Price without tax",
                vat: "VAT",
            },
        },
        company_id: "Registration number",
        vat_id: "VAT ID",
        account: AccountTranslations { number: "Account number", bic: "BIC" },
    }
}

/// The labels in British English.
pub fn en_gb() -> (table: Translations)
    ensures
        table == en_gb_table(),
{
    Translations {
        invoice: InvoiceTranslations {
            invoice: "Invoice",
            number: "Invoice number",
            date: "Date",
            due_date: "Due date",
            reference_number: "Reference number",
            total_price_without_tax: "Total price without tax",
            total_price: "Total price",
            vat: "VAT",
            line: LineTranslations {
                item: "Item",
                quantity: "Quantity",
                price: "Price",
                price_without_tax: "Price without tax",
                vat: "VAT",
            },
        },
        company_id: "Registration number",
        vat_id: "VAT ID",
        account: AccountTranslations { number: "Account number", bic: "BIC" },
    }
}

/// Every label of the British English table holds some text.
pub proof fn lemma_en_gb_complete()
    ensures
        en_gb_table().complete(),
{
    reveal_strlit("Invoice");
    reveal_strlit("Invoice number");
    reveal_strlit("Date");
    reveal_strlit("Due date");
    reveal_strlit("Reference number");
    reveal_strlit("Total price without tax");
    reveal_strlit("Total price");
    reveal_strlit("VAT");
    reveal_strlit("Item");
    reveal_strlit("Quantity");
    reveal_strlit("Price");
    reveal_strlit("Price without tax");
    reveal_strlit("Registration number");
    reveal_strlit("VAT ID");
    reveal_strlit("Account number");
    reveal_strlit("BIC");
}

} // verus!
