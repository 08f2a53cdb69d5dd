//! Finnish.

use vstd::prelude::*;
use crate::locale::translations::{
    AccountTranslations,
    InvoiceTranslations,
    LineTranslations,
    Translations,
};

verus! {

/// The labels in Finnish.
pub open spec fn fi_fi_table() -> Translations {
    Translations {
        invoice: InvoiceTranslations {
            invoice: "Lasku",
            number: "Laskunumero",
            date: "Päiväys",
            due_date: "Eräpäivä",
            reference_number: "Viitenumero",
            total_price_without_tax: "Veroton hinta yhteensä",
            total_price: "Summa yhteensä",
            vat: "Alv",
            line: LineTranslations {
                item: "Tuote",
                quantity: "Määrä",
                price: "Hinta(sis. ALV)",
                price_without_tax: "Veroton hinta",
                vat: "ALV",
            },
        },
        company_id: "Yritystunnus",
        vat_id: "ALV tunnus",
        account: AccountTranslations { number: "Tilinumero", bic: "BIC-koodi" },
    }
}

/// The labels in Finnish.
pub fn fi_fi() -> (table: Translations)
    ensures
        table == fi_fi_table(),
{
    Translations {
        invoice: InvoiceTranslations {
            invoice: "Lasku",
            number: "Laskunumero",
            date: "Päiväys",
            due_date: "Eräpäivä",
            reference_number: "Viitenumero",
            total_price_without_tax: "Veroton hinta yhteensä",
            total_price: "Summa yhteensä",
            vat: "Alv",
            line: LineTranslations {
                item: "Tuote",
                quantity: "Määrä",
                price: "Hinta(sis. ALV)",
                price_without_tax: "Veroton hinta",
                vat: "ALV",
            },
        },
        company_id: "Yritystunnus",
        vat_id: "ALV tunnus",
        account: AccountTranslations { number: "Tilinumero", bic: "BIC-koodi" },
    }
}

/// Every label of the Finnish table holds some text.
pub proof fn lemma_fi_fi_complete()
    ensures
        fi_fi_table().complete(),
{
    reveal_strlit("Lasku");
    reveal_strlit("Laskunumero");
    reveal_strlit("Päiväys");
    reveal_strlit("Eräpäivä");
    reveal_strlit("Viitenumero");
    reveal_strlit("Veroton hinta yhteensä");
    reveal_strlit("Summa yhteensä");
    reveal_strlit("Alv");
    reveal_strlit("Tuote");
    reveal_strlit("Määrä");
    reveal_strlit("Hinta(sis. ALV)");
    reveal_strlit("Veroton hinta");
    reveal_strlit("ALV");
    reveal_strlit("Yritystunnus");
    reveal_strlit("ALV tunnus");
    reveal_strlit("Tilinumero");
    reveal_strlit("BIC-koodi");
}

} // verus!
