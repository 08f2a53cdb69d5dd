//! The ways in which rendering an invoice can fail.

use vstd::prelude::*;
use vstd::string::StringExecFns;
use crate::image::ImageLoadError;
use crate::text::texts;

verus! {

/// Why an invoice could not be rendered.
#[derive(Debug, Clone, PartialEq, Eq)]
pub enum RenderError {
    /// There are no labels for the invoice's locale.
    UnsupportedLocale { locale: String },
    /// None of the candidate fonts could be loaded.
    FontUnavailable { tried: Vec<String> },
    /// The logo could not be loaded.
    ImageLoad { reason: ImageLoadError },
    /// A price has a scale too near the ends of `i64` to compute with.
    AmountOutOfRange,
}

/// What std's `Debug` writes for a list of strings: between square
/// brackets and separated by commas, each string as `Debug` writes it.
pub uninterp spec fn names_listed(names: Seq<Seq<char>>) -> Seq<char>;

/// `Debug` of `Vec<String>`, as `format!` writes it.
#[verifier::external_body]
fn list_names(names: &Vec<String>) -> (text: String)
    ensures
        text@ == names_listed(texts(names@)),
{
    format!("{:?}", names)
}

impl RenderError {
    /// What went wrong, in words.
    pub open spec fn message_text(self) -> Seq<char> {
        match self {
            RenderError::UnsupportedLocale { locale } => "Unsupported locale: "@ + locale@,
            RenderError::FontUnavailable { tried } =>
                "Could not load any appropriate system fonts. Are fonts installed? Tried: "@
                    + names_listed(texts(tried@)),
            RenderError::ImageLoad { reason } => reason.message_text(),
            RenderError::AmountOutOfRange => "Invoice amounts are out of range"@,
        }
    }

    /// What went wrong, in words.
    pub fn message(&self) -> (text: String)
        ensures
            text@ == self.message_text(),
    {
        match self {
            RenderError::UnsupportedLocale { locale } => String::from_str(
                "Unsupported locale: ",
            ).concat(locale.as_str()),
            RenderError::FontUnavailable { tried } => String::from_str(
                "Could not load any appropriate system fonts. Are fonts installed? Tried: ",
            ).concat(list_names(tried).as_str()),
            RenderError::ImageLoad { reason } => reason.message(),
            RenderError::AmountOutOfRange => String::from_str("Invoice amounts are out of range"),
        }
    }
}

} // verus!
