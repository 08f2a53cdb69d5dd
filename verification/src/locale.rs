//! Labels by locale.

use vstd::prelude::*;
use crate::error::RenderError;
use crate::locale::en_gb::{en_gb, en_gb_table, lemma_en_gb_complete};
use crate::locale::fi_fi::{fi_fi, fi_fi_table, lemma_fi_fi_complete};
use crate::locale::translations::Translations;
use crate::text::same_text;

pub mod en_gb;
pub mod fi_fi;
pub mod translations;

verus! {

/// The labels of a locale, for the locales that have any.
pub open spec fn translations_of(locale: Seq<char>) -> Option<Translations> {
    if locale == "en-GB"@ {
        Some(en_gb_table())
    } else if locale == "fi-FI"@ {
        Some(fi_fi_table())
    } else {
        None
    }
}

/// Looks up the labels of a locale. Only `en-GB` and `fi-FI` have labels;
/// any other locale is reported as unsupported.
pub fn get_translations(locale: &str) -> (found: Result<Translations, RenderError>)
    ensures
        match translations_of(locale@) {
            Some(table) => found == Ok::<Translations, RenderError>(table),
            None => found matches Err(RenderError::UnsupportedLocale { locale: named })
                && named@ == locale@,
        },
{
    if same_text(locale, "en-GB") {
        Ok(en_gb())
    } else if same_text(locale, "fi-FI") {
        Ok(fi_fi())
    } else {
        Err(RenderError::UnsupportedLocale { locale: locale.to_owned() })
    }
}

/// The two locales that have labels have different labels, and each has a
/// text for every label.
pub proof fn lemma_supported_locales()
    ensures
        translations_of("en-GB"@) == Some(en_gb_table()),
        translations_of("fi-FI"@) == Some(fi_fi_table()),
        en_gb_table() != fi_fi_table(),
        en_gb_table().complete(),
        fi_fi_table().complete(),
{
    reveal_strlit("en-GB");
    reveal_strlit("fi-FI");
    reveal_strlit("Registration number");
    reveal_strlit("Yritystunnus");
    assert("en-GB"@[0] != "fi-FI"@[0]);
    assert("Registration number"@.len() != "Yritystunnus"@.len());
    lemma_en_gb_complete();
    lemma_fi_fi_complete();
}

} // verus!
