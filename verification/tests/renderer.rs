use bigdecimal::BigDecimal;
use invoicely::components::table::Table;
use invoicely::components::{Component, Drawable};
use invoicely::error::RenderError;
use invoicely::image::{decode_image, ImageLoadError, ImageSource};
use invoicely::instruction::Instruction;
use invoicely::invoice::{BankDetails, BilledBy, BilledTo, Invoice, InvoiceLine};
use invoicely::locale::get_translations;
use invoicely::renderer::rendering_context::{
    currency_symbol, init_rendering_context, RenderingContext,
};
use invoicely::renderer::{
    assemble_page, billed_by, billed_to, check_amounts, document_title, invoice_info,
    invoice_lines, logo, render, sum_of_prices, summary,
};
use printpdf::{BuiltinFont, FontId, ParsedFont, PdfDocument, XObject, XObjectId};
use std::cell::RefCell;
use std::str::FromStr;

fn line(name: &str, count: u32, price: &str) -> InvoiceLine {
    InvoiceLine { name: name.to_string(), count, price: BigDecimal::from_str(price).unwrap() }
}

fn invoice(locale: &str, currency: &str, lines: Vec<InvoiceLine>) -> Invoice {
    Invoice {
        locale: locale.to_string(),
        currency: currency.to_string(),
        invoice_number: "2024-001".to_string(),
        billed_at: "1.2.2024".to_string(),
        due_date: "15.2.2024".to_string(),
        reference_id: Some("RF18 5390 0754 7034".to_string()),
        vat_percent: 210,
        note: None,
        invoice_description: None,
        billed_by: BilledBy {
            name: "Seller Oy".to_string(),
            address_line_1: "Katu 1".to_string(),
            address_line_2: Some("00100 Helsinki".to_string()),
            address_line_3: None,
            company_id: Some("1234567-8".to_string()),
            vat_id: None,
            email: Some("seller@example.com".to_string()),
            phone_number: None,
            detail: None,
            logo: None,
        },
        billed_to: BilledTo {
            name: "Buyer Ltd".to_string(),
            address_line_1: "1 High Street".to_string(),
            address_line_2: None,
            address_line_3: Some("London".to_string()),
            company_id: None,
            vat_id: Some("GB999".to_string()),
        },
        bank_details: BankDetails {
            account_number: "FI21 1234 5600 0007 85".to_string(),
            bic_code: "NDEAFIHH".to_string(),
        },
        invoice_lines: lines,
    }
}

fn context(invoice: &Invoice, regular: &FontId, bold: &FontId) -> RenderingContext {
    RenderingContext {
        translations: get_translations(&invoice.locale).unwrap(),
        currency: currency_symbol(&invoice.currency),
        locale: invoice.locale.clone(),
        regular_font_id: regular.clone(),
        bold_font_id: bold.clone(),
    }
}

fn cell_texts(row: &[Drawable]) -> Vec<String> {
    row.iter()
        .map(|cell| match cell {
            Drawable::Label(label) => label.value.clone(),
            Drawable::Table(_) => panic!("a label was expected"),
        })
        .collect()
}

fn rows_texts(table: &Table) -> Vec<Vec<String>> {
    table.rows.iter().map(|row| cell_texts(row)).collect()
}

fn fonts_of(row: &[Drawable]) -> Vec<FontId> {
    row.iter()
        .map(|cell| match cell {
            Drawable::Label(label) => label.font_id.clone(),
            Drawable::Table(_) => panic!("a label was expected"),
        })
        .collect()
}

fn written(ops: &[Instruction]) -> Vec<String> {
    let mut texts = Vec::new();
    for op in ops {
        if let Instruction::WriteText { text, .. } = op {
            texts.push(text.clone());
        }
    }
    texts
}

#[test]
fn euro_is_shown_by_its_sign() {
    assert_eq!(currency_symbol("EUR"), "€");
}

#[test]
fn other_currencies_are_shown_by_their_code() {
    assert_eq!(currency_symbol("USD"), "USD");
    assert_eq!(currency_symbol("GBP"), "GBP");
    assert_eq!(currency_symbol("eur"), "eur");
    assert_eq!(currency_symbol("EURO"), "EURO");
    assert_eq!(currency_symbol(""), "");
    assert_eq!(currency_symbol("€"), "€");
}

#[test]
fn price_with_and_without_tax_in_finnish() {
    let regular = FontId::new();
    let bold = FontId::new();
    let invoice = invoice("fi-FI", "EUR", vec![line("Widget", 3, "121.00")]);
    let table = invoice_lines(&invoice, &context(&invoice, &regular, &bold));

    assert_eq!(table.column_widths, vec![80_000, 20_000, 30_000, 40_000, 15_000]);
    assert_eq!(table.row_height, 5_000);
    assert_eq!(
        cell_texts(table.header.as_ref().unwrap()),
        vec!["Tuote", "Määrä", "Hinta(sis. ALV)", "Veroton hinta", "ALV %"]
    );
    assert_eq!(
        rows_texts(&table),
        vec![vec!["Widget", "3", "121,00 €", "100,00 €", "21,0"]]
    );
    assert_eq!(fonts_of(table.header.as_ref().unwrap()), vec![bold.clone(); 5]);
    assert_eq!(fonts_of(&table.rows[0]), vec![regular.clone(); 5]);

    let ops = table.render_at(15_000, 200_000);
    let texts = written(&ops);
    assert!(texts.contains(&"121,00 €".to_string()));
    assert!(texts.contains(&"100,00 €".to_string()));
}

#[test]
fn prices_in_english_keep_the_decimal_point() {
    let regular = FontId::new();
    let bold = FontId::new();
    let invoice = invoice(
        "en-GB",
        "GBP",
        vec![line("Hours", 12, "1250.5"), line("Travel", 1, "99.999")],
    );
    let table = invoice_lines(&invoice, &context(&invoice, &regular, &bold));
    assert_eq!(
        cell_texts(table.header.as_ref().unwrap()),
        vec!["Item", "Quantity", "Price", "Price without tax", "VAT %"]
    );
    assert_eq!(
        rows_texts(&table),
        vec![
            vec!["Hours", "12", "1250.50 GBP", "1033.47 GBP", "21,0"],
            vec!["Travel", "1", "100.00 GBP", "82.64 GBP", "21,0"],
        ]
    );
}

#[test]
fn invoice_without_lines_has_only_headings() {
    let regular = FontId::new();
    let bold = FontId::new();
    let invoice = invoice("en-GB", "EUR", Vec::new());
    let table = invoice_lines(&invoice, &context(&invoice, &regular, &bold));
    assert!(table.rows.is_empty());
    assert_eq!(table.header.as_ref().unwrap().len(), 5);
    // Five headings and the rule under them.
    assert_eq!(table.render_at(0, 0).len(), 5 * 5 + 2);
}

#[test]
fn totals_add_up_the_lines() {
    let regular = FontId::new();
    let bold = FontId::new();
    let invoice = invoice(
        "fi-FI",
        "EUR",
        vec![line("A", 1, "121.00"), line("B", 2, "60.50")],
    );
    assert_eq!(sum_of_prices(&invoice), BigDecimal::from_str("181.50").unwrap());

    let table = summary(&invoice, &context(&invoice, &regular, &bold));
    assert_eq!(table.column_widths, vec![45_000, 30_000]);
    assert_eq!(table.row_height, 5_000);
    assert!(table.header.is_none());
    assert_eq!(
        rows_texts(&table),
        vec![
            vec!["Veroton hinta yhteensä:", "150,00 €"],
            vec!["Alv 21,0 %:", "38,12 €"],
            vec!["Summa yhteensä:", "181,50 €"],
        ]
    );
    assert_eq!(fonts_of(&table.rows[0]), vec![regular.clone(); 2]);
    assert_eq!(fonts_of(&table.rows[1]), vec![regular.clone(); 2]);
    assert_eq!(fonts_of(&table.rows[2]), vec![bold.clone(); 2]);
}

#[test]
fn totals_of_no_lines_are_zero() {
    let regular = FontId::new();
    let bold = FontId::new();
    let mut invoice = invoice("en-GB", "USD", Vec::new());
    invoice.vat_percent = 0;
    let table = summary(&invoice, &context(&invoice, &regular, &bold));
    assert_eq!(
        rows_texts(&table),
        vec![
            vec!["Total price without tax:", "0.00 USD"],
            vec!["VAT 0,0 %:", "0.00 USD"],
            vec!["Total price:", "0.00 USD"],
        ]
    );
}

#[test]
fn invoice_info_lists_labels_and_values() {
    let regular = FontId::new();
    let bold = FontId::new();
    let mut invoice = invoice("en-GB", "EUR", Vec::new());
    let table = invoice_info(&invoice, &context(&invoice, &regular, &bold));
    assert_eq!(table.column_widths, vec![40_000, 30_000]);
    assert_eq!(table.row_height, 5_000);
    assert!(table.header.is_none());
    assert_eq!(
        rows_texts(&table),
        vec![
            vec!["Invoice number:", "2024-001"],
            vec!["Date:", "1.2.2024"],
            vec!["Due date:", "15.2.2024"],
            vec!["Reference number:", "RF18 5390 0754 7034"],
            vec!["Account number:", "FI21 1234 5600 0007 85"],
            vec!["BIC:", "NDEAFIHH"],
        ]
    );
    for row in &table.rows {
        for cell in row {
            match cell {
                Drawable::Label(label) => {
                    assert_eq!(label.font_size, 11_000);
                    assert_eq!(label.font_id, regular);
                }
                Drawable::Table(_) => panic!("a label was expected"),
            }
        }
    }
    invoice.reference_id = None;
    let table = invoice_info(&invoice, &context(&invoice, &regular, &bold));
    assert_eq!(rows_texts(&table)[3], vec!["Reference number:", ""]);
}

#[test]
fn billed_to_lists_only_what_is_given() {
    let regular = FontId::new();
    let bold = FontId::new();
    let mut invoice = invoice("en-GB", "EUR", Vec::new());
    let table = billed_to(&invoice, &context(&invoice, &regular, &bold));
    assert_eq!(table.column_widths, vec![30_000]);
    assert_eq!(table.row_height, 5_000);
    assert_eq!(
        rows_texts(&table),
        vec![vec!["Buyer Ltd"], vec!["1 High Street"], vec!["London"], vec!["VAT ID: GB999"]]
    );

    invoice.billed_to.address_line_2 = Some(String::new());
    invoice.billed_to.company_id = Some(String::new());
    invoice.billed_to.vat_id = None;
    let table = billed_to(&invoice, &context(&invoice, &regular, &bold));
    assert_eq!(
        rows_texts(&table),
        vec![
            vec!["Buyer Ltd"],
            vec!["1 High Street"],
            vec![""],
            vec!["London"],
            vec!["Registration number: "],
        ]
    );
}

#[test]
fn billed_by_fills_three_columns() {
    let regular = FontId::new();
    let bold = FontId::new();
    let invoice = invoice("fi-FI", "EUR", Vec::new());
    let table = billed_by(&invoice, &context(&invoice, &regular, &bold));
    assert_eq!(table.column_widths, vec![60_000, 60_000, 65_000]);
    assert_eq!(table.row_height, 3_000);
    assert_eq!(
        rows_texts(&table),
        vec![
            vec!["Seller Oy", "Yritystunnus: 1234567-8", "seller@example.com"],
            vec!["Katu 1", "", ""],
            vec!["00100 Helsinki", "FI21 1234 5600 0007 85", ""],
            vec!["", "NDEAFIHH", ""],
            vec!["", "", ""],
        ]
    );
    match &table.rows[0][0] {
        Drawable::Label(label) => assert_eq!(label.font_size, 7_000),
        Drawable::Table(_) => panic!("a label was expected"),
    }
}

/// A picture of two by two pixels.
fn picture() -> Vec<u8> {
    vec![
        137, 80, 78, 71, 13, 10, 26, 10, 0, 0, 0, 13, 73, 72, 68, 82, 0, 0, 0, 2, 0, 0, 0, 2, 8,
        2, 0, 0, 0, 253, 212, 154, 115, 0, 0, 0, 21, 73, 68, 65, 84, 120, 218, 99, 56, 33, 39,
        39, 119, 66, 142, 1, 72, 252, 255, 255, 31, 0, 32, 112, 6, 10, 206, 128, 34, 190, 0, 0,
        0, 0, 73, 69, 78, 68, 174, 66, 96, 130,
    ]
}

fn font_file() -> Vec<u8> {
    BuiltinFont::Helvetica.get_subset_font().bytes
}

fn placed(image: &XObjectId) -> Instruction {
    Instruction::PlaceImage {
        image: image.clone(),
        translate_x: 45_000,
        translate_y: 770_000,
        scale_x: 500,
        scale_y: 500,
        dpi: 300_000,
    }
}

#[test]
fn logo_is_added_and_placed_at_half_size() {
    let mut doc = PdfDocument::new("logo");
    let image = decode_image(&picture()).unwrap();
    let ops = logo(&mut doc, &image);
    let registered: Vec<XObjectId> = doc.resources.xobjects.map.keys().cloned().collect();
    assert_eq!(registered.len(), 1);
    assert_eq!(ops, vec![placed(&registered[0])]);
    assert_eq!(doc.resources.xobjects.map[&registered[0]], XObject::Image(image.clone()));
    assert!(doc.resources.fonts.map.is_empty());
    assert_eq!(doc.metadata.info.document_title, "logo");
}

#[test]
fn document_is_titled_by_the_invoice_number() {
    let invoice = invoice("fi-FI", "EUR", Vec::new());
    let translations = get_translations("fi-FI").unwrap();
    assert_eq!(document_title(&translations, &invoice), "Lasku 2024-001");
}

#[test]
fn page_holds_the_sections_in_order() {
    let regular = FontId::new();
    let bold = FontId::new();
    let mut invoice = invoice("en-GB", "EUR", vec![line("Widget", 1, "121.00")]);
    invoice.note = Some("Thank you!\nSee you".to_string());
    invoice.invoice_description = Some("Consulting".to_string());
    let context = context(&invoice, &regular, &bold);
    let image = XObjectId::new();

    let page = assemble_page(&invoice, &context, vec![placed(&image)]);

    let mut expected = vec![placed(&image)];
    expected.push(Instruction::SetFont { size: 22_000, font: bold.clone() });
    expected.push(Instruction::BeginText);
    expected.push(Instruction::SetCursor { x: 110_000, y: 270_000 });
    expected.push(Instruction::WriteText { text: "Invoice".to_string(), font: bold.clone() });
    expected.push(Instruction::EndText);
    expected.extend(invoice_info(&invoice, &context).render_at(110_000, 260_000));
    expected.extend(billed_to(&invoice, &context).render_at(15_000, 260_000));
    expected.extend(invoice_lines(&invoice, &context).render_at(15_000, 200_000));
    expected.extend(summary(&invoice, &context).render_at(125_000, 164_000));
    for (text, y) in [("Thank you!", 140_000), ("See you", 135_000), ("Consulting", 130_000)] {
        expected.push(Instruction::SetFont { size: 10_000, font: regular.clone() });
        expected.push(Instruction::BeginText);
        expected.push(Instruction::SetCursor { x: 15_000, y });
        expected.push(Instruction::WriteText { text: text.to_string(), font: regular.clone() });
        expected.push(Instruction::EndText);
    }
    expected.push(Instruction::SetStrokeWidth { width: 800 });
    expected.push(Instruction::DrawLine {
        from_x: 15_000,
        from_y: 25_000,
        to_x: 200_000,
        to_y: 25_000,
    });
    expected.extend(billed_by(&invoice, &context).render_at(25_000, 20_000));
    assert_eq!(page, expected);

    // Without logo, note and description those sections draw nothing.
    invoice.note = None;
    invoice.invoice_description = None;
    let bare = assemble_page(&invoice, &context, Vec::new());
    assert_eq!(bare.len(), page.len() - 1 - 3 * 5);
    assert_eq!(bare[0], Instruction::SetFont { size: 22_000, font: bold.clone() });
}

#[test]
fn context_resolves_currency_and_fonts() {
    let read = |name: &str| match name {
        "Helvetica" | "Arial-Bold" => Some(font_file()),
        _ => None,
    };
    let invoice = invoice("fi-FI", "EUR", Vec::new());
    let translations = get_translations("fi-FI").unwrap();
    let mut doc = PdfDocument::new("context");
    let context =
        init_rendering_context(&mut doc, &invoice, translations, "fi-FI", &read).unwrap();
    assert_eq!(context.translations, translations);
    assert_eq!(context.currency, "€");
    assert_eq!(context.locale, "fi-FI");
    assert_ne!(context.regular_font_id, context.bold_font_id);
    assert_eq!(doc.resources.fonts.map.len(), 2);
    assert!(doc.resources.fonts.map.contains_key(&context.regular_font_id));
    assert!(doc.resources.fonts.map.contains_key(&context.bold_font_id));

    let nothing = |_name: &str| None;
    assert!(matches!(
        init_rendering_context(&mut doc, &invoice, translations, "fi-FI", &nothing),
        Err(RenderError::FontUnavailable { .. })
    ));
}

#[test]
fn render_draws_the_page_with_what_the_readers_give() {
    let read_font = |name: &str| match name {
        "Liberation Sans" | "Liberation Sans-Bold" => Some(font_file()),
        _ => None,
    };
    let asked = RefCell::new(Vec::new());
    let read_image = |path: &String, source: ImageSource| {
        asked.borrow_mut().push((path.clone(), source));
        Ok(picture())
    };
    let mut invoice = invoice("fi-FI", "EUR", vec![line("Widget", 1, "121.00")]);

    let (doc, page) = render(&invoice, &read_font, &read_image).unwrap();
    assert!(asked.borrow().is_empty());
    assert_eq!(doc.metadata.info.document_title, "Lasku 2024-001");
    assert!(doc.pages.is_empty());
    assert!(doc.resources.xobjects.map.is_empty());
    assert_eq!(doc.resources.fonts.map.len(), 2);
    let (bold, regular) = match (&page[0], &page[5]) {
        (Instruction::SetFont { font: bold, .. }, Instruction::SetFont { font: regular, .. }) => {
            (bold.clone(), regular.clone())
        }
        _ => panic!("the title and the first label select their fonts"),
    };
    assert!(doc.resources.fonts.map.contains_key(&regular));
    assert!(doc.resources.fonts.map.contains_key(&bold));
    let context = context(&invoice, &regular, &bold);
    assert_eq!(page, assemble_page(&invoice, &context, Vec::new()));
    let texts = written(&page);
    assert_eq!(texts[0], "Lasku");
    assert!(texts.contains(&"121,00 €".to_string()));
    assert!(texts.contains(&"100,00 €".to_string()));

    invoice.billed_by.logo = Some("https://example.com/logo.png".to_string());
    let (doc, page) = render(&invoice, &read_font, &read_image).unwrap();
    assert_eq!(
        *asked.borrow(),
        vec![("https://example.com/logo.png".to_string(), ImageSource::Remote)]
    );
    let images: Vec<XObjectId> = doc.resources.xobjects.map.keys().cloned().collect();
    assert_eq!(images.len(), 1);
    assert_eq!(page[0], placed(&images[0]));
    assert_eq!(
        doc.resources.xobjects.map[&images[0]],
        XObject::Image(decode_image(&picture()).unwrap())
    );
    assert_eq!(page.len(), assemble_page(&invoice, &context, Vec::new()).len() + 1);
}

#[test]
fn page_names_only_what_the_document_holds() {
    let read_font = |name: &str| match name {
        "Ubuntu" | "Noto Sans-Bold" => Some(font_file()),
        _ => None,
    };
    let read_image = |_path: &String, _source: ImageSource| Ok(picture());
    let mut invoice = invoice(
        "en-GB",
        "USD",
        vec![line("A", 1, "10"), line("B", 2, "20.5"), line("C", 3, "0.01")],
    );
    invoice.note = Some("one\ntwo".to_string());
    invoice.invoice_description = Some("three".to_string());
    invoice.billed_by.logo = Some("logo.png".to_string());

    let (doc, page) = render(&invoice, &read_font, &read_image).unwrap();
    let mut fonts = 0;
    let mut images = 0;
    for instruction in &page {
        match instruction {
            Instruction::SetFont { font, .. } | Instruction::WriteText { font, .. } => {
                assert!(doc.resources.fonts.map.contains_key(font));
                fonts += 1;
            }
            Instruction::PlaceImage { image, .. } => {
                assert!(doc.resources.xobjects.map.contains_key(image));
                images += 1;
            }
            _ => {}
        }
    }
    assert_eq!(images, 1);
    assert_eq!(fonts, 2 * (page.len() - 3) / 5);
}

#[test]
fn render_writes_with_the_fonts_that_were_read_for_them() {
    let regular_file = BuiltinFont::Helvetica.get_subset_font().bytes;
    let bold_file = BuiltinFont::HelveticaBold.get_subset_font().bytes;
    let read_font = |name: &str| match name {
        "Arial" => Some(regular_file.clone()),
        "Arial-Bold" => Some(bold_file.clone()),
        _ => None,
    };
    let read_image = |_path: &String, _source: ImageSource| Ok(picture());
    let invoice = invoice("en-GB", "EUR", vec![line("Widget", 1, "121.00")]);
    let (doc, page) = render(&invoice, &read_font, &read_image).unwrap();
    let (title_font, label_font) = match (&page[0], &page[5]) {
        (Instruction::SetFont { font: bold, .. }, Instruction::SetFont { font: regular, .. }) => {
            (bold.clone(), regular.clone())
        }
        _ => panic!("the title and the first label select their fonts"),
    };
    let parse = |bytes: &[u8]| ParsedFont::from_bytes(bytes, 0, &mut Vec::new()).unwrap();
    assert_ne!(parse(&regular_file), parse(&bold_file));
    assert_eq!(doc.resources.fonts.map[&title_font], parse(&bold_file));
    assert_eq!(doc.resources.fonts.map[&label_font], parse(&regular_file));
}

fn priced(scale: i64) -> InvoiceLine {
    InvoiceLine { name: "odd".to_string(), count: 1, price: BigDecimal::from((7i64, scale)) }
}

#[test]
fn amounts_with_long_fractions_are_rendered() {
    assert!(check_amounts(&invoice("en-GB", "EUR", Vec::new())));
    assert!(check_amounts(&invoice(
        "en-GB",
        "EUR",
        vec![line("A", 1, "121.00"), line("B", 1, "1e9"), line("C", 1, "0.000001")]
    )));

    let invoice = invoice("en-GB", "EUR", vec![priced(20_000), priced(-10_001)]);
    assert!(check_amounts(&invoice));
    let regular = FontId::new();
    let bold = FontId::new();
    let table = summary(&invoice, &context(&invoice, &regular, &bold));
    assert_eq!(rows_texts(&table)[2][0], "Total price:");
    let table = invoice_lines(&invoice, &context(&invoice, &regular, &bold));
    assert_eq!(rows_texts(&table)[0][2], "0.00 €");
    assert_eq!(rows_texts(&table)[0][3], "0.00 €");

    let read_font = |_name: &str| Some(font_file());
    let read_image = |_path: &String, _source: ImageSource| Ok(picture());
    assert!(render(&invoice, &read_font, &read_image).is_ok());
}

#[test]
fn scales_are_admitted_up_to_a_quarter_of_the_range() {
    let limit = 0x2000_0000_0000_0000i64;
    for scale in [0, 2, -2, 10_001, -10_001, limit - 1, limit, -limit] {
        assert!(check_amounts(&invoice("en-GB", "EUR", vec![priced(scale)])));
    }
    for scale in [limit + 1, -limit - 1, i64::MAX - 2, i64::MAX, i64::MIN + 2, i64::MIN] {
        assert!(!check_amounts(&invoice("en-GB", "EUR", vec![priced(scale)])));
        assert!(!check_amounts(&invoice(
            "en-GB",
            "EUR",
            vec![line("A", 1, "1.00"), priced(scale), line("B", 1, "2.00")]
        )));
    }
}

#[test]
fn amounts_with_scales_out_of_range_are_refused_last() {
    for scale in [i64::MAX, i64::MAX - 2, i64::MIN + 2, i64::MIN] {
        let mut invoice = invoice("en-GB", "EUR", vec![priced(scale)]);
        let read_font = |_name: &str| Some(font_file());
        let no_font = |_name: &str| None;
        let read_image = |_path: &String, _source: ImageSource| Ok(picture());
        let no_image = |path: &String, _source: ImageSource| {
            Err(ImageLoadError::File { cause: format!("{} is missing", path) })
        };

        assert_eq!(
            render(&invoice, &read_font, &read_image),
            Err(RenderError::AmountOutOfRange)
        );
        assert!(matches!(
            render(&invoice, &no_font, &read_image),
            Err(RenderError::FontUnavailable { .. })
        ));

        invoice.billed_by.logo = Some("logo.png".to_string());
        assert_eq!(
            render(&invoice, &read_font, &read_image),
            Err(RenderError::AmountOutOfRange)
        );
        assert_eq!(
            render(&invoice, &read_font, &no_image),
            Err(RenderError::ImageLoad {
                reason: ImageLoadError::File { cause: "logo.png is missing".to_string() }
            })
        );

        invoice.locale = "fr-FR".to_string();
        assert!(matches!(
            render(&invoice, &read_font, &read_image),
            Err(RenderError::UnsupportedLocale { .. })
        ));
    }
}

#[test]
fn page_leaves_no_text_block_open() {
    let read_font = |_name: &str| Some(font_file());
    let read_image = |_path: &String, _source: ImageSource| Ok(picture());
    let mut invoice = invoice("fi-FI", "EUR", vec![line("A", 1, "10"), line("B", 2, "20.5")]);
    invoice.note = Some("one\n\ntwo\n".to_string());
    invoice.invoice_description = Some(String::new());
    invoice.billed_by.logo = Some("logo.png".to_string());
    let (_doc, page) = render(&invoice, &read_font, &read_image).unwrap();
    let mut open = false;
    let mut blocks = 0;
    for instruction in &page {
        match instruction {
            Instruction::BeginText => {
                assert!(!open);
                open = true;
                blocks += 1;
            }
            Instruction::EndText => {
                assert!(open);
                open = false;
            }
            Instruction::SetCursor { .. } | Instruction::WriteText { .. } => assert!(open),
            _ => {}
        }
    }
    assert!(!open);
    assert_eq!(blocks, (page.len() - 3) / 5);
}

#[test]
fn render_refuses_an_unsupported_locale_before_anything_else() {
    let asked = RefCell::new(0);
    let read_font = |_name: &str| {
        *asked.borrow_mut() += 1;
        Some(font_file())
    };
    let read_image = |_path: &String, _source: ImageSource| {
        *asked.borrow_mut() += 1;
        Ok(picture())
    };
    let mut invoice = invoice("fr-FR", "EUR", Vec::new());
    invoice.billed_by.logo = Some("logo.png".to_string());
    assert_eq!(
        render(&invoice, &read_font, &read_image),
        Err(RenderError::UnsupportedLocale { locale: "fr-FR".to_string() })
    );
    assert_eq!(*asked.borrow(), 0);
}

#[test]
fn render_fails_without_fonts_before_it_asks_for_the_logo() {
    let asked = RefCell::new(0);
    let read_font = |_name: &str| None;
    let read_image = |_path: &String, _source: ImageSource| {
        *asked.borrow_mut() += 1;
        Ok(picture())
    };
    let mut invoice = invoice("en-GB", "EUR", Vec::new());
    invoice.billed_by.logo = Some("logo.png".to_string());
    assert!(matches!(
        render(&invoice, &read_font, &read_image),
        Err(RenderError::FontUnavailable { .. })
    ));
    assert_eq!(*asked.borrow(), 0);
}

#[test]
fn render_fails_where_the_logo_cannot_be_loaded() {
    let read_font = |_name: &str| Some(font_file());
    let read_image = |path: &String, _source: ImageSource| {
        Err(ImageLoadError::File { cause: format!("{} is missing", path) })
    };
    let mut invoice = invoice("en-GB", "EUR", Vec::new());
    invoice.billed_by.logo = Some("logo.png".to_string());
    assert_eq!(
        render(&invoice, &read_font, &read_image),
        Err(RenderError::ImageLoad {
            reason: ImageLoadError::File { cause: "logo.png is missing".to_string() }
        })
    );

    let no_image = |_path: &String, _source: ImageSource| Ok(vec![9, 9, 9]);
    assert!(matches!(
        render(&invoice, &read_font, &no_image),
        Err(RenderError::ImageLoad { reason: ImageLoadError::Decode { .. } })
    ));
}
