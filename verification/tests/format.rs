use bigdecimal::{BigDecimal, FromPrimitive};
use invoicely::format::{format_price, format_vat, price_with_currency};
use std::str::FromStr;

#[test]
fn test_format_price() {
    assert_eq!(format_price(&BigDecimal::from_f32(1.212423).unwrap(), "EUR", "fi-FI"), "1,21 EUR");
    assert_eq!(format_price(&BigDecimal::from_f32(2.3450).unwrap(), "USD", "fi-FI"), "2,35 USD");
    assert_eq!(format_price(&BigDecimal::from_f32(2.30).unwrap(), "€", "fi-FI"), "2,30 €");
    assert_eq!(format_price(&BigDecimal::from_f32(2.00).unwrap(), "EUR", "fi-FI"), "2,00 EUR");
    assert_eq!(format_price(&BigDecimal::from_f32(100.00).unwrap(), "EUR", "fi-FI"), "100,00 EUR");
    assert_eq!(format_price(&BigDecimal::from_f32(5400.12).unwrap(), "EUR", "fi-FI"), "5400,12 EUR");
    assert_eq!(format_price(&BigDecimal::from_f32(1.212423).unwrap(), "EUR", "en-GB"), "1.21 EUR");
}

#[test]
fn test_format_vat() {
    assert_eq!(format_vat(255), "25,5");
    assert_eq!(format_vat(140), "14,0");
}

#[test]
fn format_vat_writes_tenths_after_the_comma() {
    assert_eq!(format_vat(0), "0,0");
    assert_eq!(format_vat(5), "0,5");
    assert_eq!(format_vat(10), "1,0");
    assert_eq!(format_vat(210), "21,0");
    assert_eq!(format_vat(1000), "100,0");
    assert_eq!(format_vat(u32::MAX), "429496729,5");
}

#[test]
fn format_price_rounds_to_two_places() {
    let price = |text: &str| BigDecimal::from_str(text).unwrap();
    assert_eq!(format_price(&price("121.00"), "€", "fi-FI"), "121,00 €");
    assert_eq!(format_price(&price("121"), "€", "fi-FI"), "121,00 €");
    assert_eq!(format_price(&price("0.005"), "€", "en-GB"), "0.00 €");
    assert_eq!(format_price(&price("0.015"), "€", "en-GB"), "0.02 €");
    assert_eq!(format_price(&price("-3.456"), "SEK", "en-GB"), "-3.46 SEK");
    assert_eq!(format_price(&price("1e3"), "€", "en-GB"), "1000.00 €");
}

#[test]
fn price_is_number_space_currency() {
    assert_eq!(price_with_currency("1.21", "EUR", "en-GB"), "1.21 EUR");
    assert_eq!(price_with_currency("1.21", "EUR", "fi-FI"), "1,21 EUR");
    assert_eq!(price_with_currency("1.21", "EUR", "de-DE"), "1,21 EUR");
    assert_eq!(price_with_currency("1.21", "EUR", ""), "1,21 EUR");
    assert_eq!(price_with_currency("", "", "en-GB"), " ");
}

#[test]
fn currency_keeps_its_full_stops() {
    assert_eq!(price_with_currency("1.5", "U.S.D.", "fi-FI"), "1,5 U.S.D.");
    assert_eq!(price_with_currency("1.5", "U.S.D.", "en-GB"), "1.5 U.S.D.");
    let price = BigDecimal::from_str("1.21").unwrap();
    assert_eq!(format_price(&price, "Rs.", "fi-FI"), "1,21 Rs.");
    assert_eq!(format_price(&price, "Rs.", "en-GB"), "1.21 Rs.");
}
