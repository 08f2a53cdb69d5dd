//! What the sections of a page share: labels, fonts, currency and locale.

use vstd::prelude::*;
use vstd::string::StringExecFns;
use printpdf::{FontId, PdfDocument};
use crate::error::RenderError;
use crate::fonts::{FontManager, fonts_loaded, fonts_missing};
use crate::invoice::Invoice;
use crate::locale::translations::Translations;
use crate::pdf::{document_images, document_title_of};
use crate::text::{same_text, texts};

verus! {

/// What rendering an invoice needs besides the invoice, resolved once.
pub struct RenderingContext {
    /// The labels of the invoice's locale.
    pub translations: Translations,
    /// The currency as the invoice shows it.
    pub currency: String,
    /// The locale of the invoice.
    pub locale: String,
    pub regular_font_id: FontId,
    pub bold_font_id: FontId,
}

/// What a [`RenderingContext`] holds, as mathematical values.
pub struct RenderingContextView {
    pub translations: Translations,
    pub currency: Seq<char>,
    pub locale: Seq<char>,
    pub regular_font_id: FontId,
    pub bold_font_id: FontId,
}

impl View for RenderingContext {
    type V = RenderingContextView;

    open spec fn view(&self) -> RenderingContextView {
        RenderingContextView {
            translations: self.translations,
            currency: self.currency@,
            locale: self.locale@,
            regular_font_id: self.regular_font_id,
            bold_font_id: self.bold_font_id,
        }
    }
}

/// How a currency is shown: the euro by its sign, any other currency by
/// its code.
pub open spec fn currency_shown(code: Seq<char>) -> Seq<char> {
    if code == "EUR"@ {
        "€"@
    } else {
        code
    }
}

/// How a currency is shown: the euro by its sign, any other currency by
/// its code.
pub fn currency_symbol(code: &str) -> (symbol: String)
    ensures
        symbol@ == currency_shown(code@),
{
    if same_text(code, "EUR") {
        String::from_str("€")
    } else {
        String::from_str(code)
    }
}

/// Resolves what rendering the invoice needs: the way to show its
/// currency, and the two fonts, which are read by the reader and added to
/// the document. Fails where there is no font for any candidate of one of
/// the two.
pub fn init_rendering_context<F: Fn(&str) -> Option<Vec<u8>>>(
    doc: &mut PdfDocument,
    invoice: &Invoice,
    translations: Translations,
    locale: &str,
    read_font: &F,
) -> (context: Result<RenderingContext, RenderError>)
    requires
        forall|name: &str| read_font.requires((name,)),
    ensures
        match context {
            Ok(context) => {
                &&& context.translations == translations
                &&& context.currency@ == currency_shown(invoice.currency@)
                &&& context.locale@ == locale@
                &&& fonts_loaded(
                    *read_font,
                    *old(doc),
                    *final(doc),
                    context.regular_font_id,
                    context.bold_font_id,
                )
            },
            Err(RenderError::FontUnavailable { tried }) => {
                &&& fonts_missing(*read_font, texts(tried@))
                &&& document_images(*final(doc)) == document_images(*old(doc))
                &&& document_title_of(*final(doc)) == document_title_of(*old(doc))
            },
            Err(_) => false,
        },
{
    let currency = currency_symbol(invoice.currency.as_str());
    let font_manager = match FontManager::initialize(doc, read_font) {
        Ok(font_manager) => font_manager,
        Err(e) => { return Err(e); },
    };
    let regular_font_id = font_manager.regular_font();
    let bold_font_id = font_manager.bold_font();
    Ok(
        RenderingContext {
            translations,
            currency,
            locale: String::from_str(locale),
            regular_font_id,
            bold_font_id,
        },
    )
}

} // verus!
