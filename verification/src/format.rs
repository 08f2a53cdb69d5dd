//! Prices and percentages as text.

use vstd::prelude::*;
use bigdecimal::BigDecimal;
use crate::decimal::{decimal_two_places, two_decimals};
use crate::text::{decimal_digits, dots_to_commas, push_char, push_decimal, replace_dots, same_text};

verus! {

/// A number in the way of the locale: every locale but `en-GB` writes a
/// comma where the number has a full stop.
pub open spec fn number_text(number: Seq<char>, locale: Seq<char>) -> Seq<char> {
    if locale == "en-GB"@ {
        number
    } else {
        dots_to_commas(number)
    }
}

/// A price as an invoice shows it: the number in the way of the locale, a
/// space and the currency as it is given.
pub open spec fn price_text(number: Seq<char>, currency: Seq<char>, locale: Seq<char>) -> Seq<
    char,
> {
    number_text(number, locale).push(' ') + currency
}

/// A percentage given in tenths of a percent, with one digit after a
/// decimal comma.
pub open spec fn vat_text(tenths: nat) -> Seq<char> {
    decimal_digits(tenths / 10).push(',') + decimal_digits(tenths % 10)
}

/// Puts a number that is already written with a decimal point, and a
/// currency, together as a price in the way of the locale.
pub fn price_with_currency(number: &str, currency: &str, locale: &str) -> (price: String)
    ensures
        price@ == price_text(number@, currency@, locale@),
{
    let mut formatted = if !same_text(locale, "en-GB") {
        replace_dots(number)
    } else {
        number.to_owned()
    };
    push_char(&mut formatted, ' ');
    formatted.append(currency);
    formatted
}

/// Formats an amount as a price in the way of the locale: the amount as
/// bigdecimal writes it with a precision of two, followed by the currency.
pub fn format_price(value: &BigDecimal, currency: &str, locale: &str) -> (price: String)
    ensures
        price@ == price_text(two_decimals(*value), currency@, locale@),
{
    let number = decimal_two_places(value);
    price_with_currency(number.as_str(), currency, locale)
}

/// Formats a percentage given in tenths of a percent, with one digit after
/// a decimal comma.
pub fn format_vat(value: u32) -> (text: String)
    ensures
        text@ == vat_text(value as nat),
{
    let mut text = String::new();
    push_decimal(&mut text, (value / 10) as u64);
    push_char(&mut text, ',');
    push_decimal(&mut text, (value % 10) as u64);
    proof {
        assert(text@ =~= vat_text(value as nat));
    }
    text
}

} // verus!
