//! The page of an invoice: its sections, each at its place.

use vstd::prelude::*;
use vstd::string::StringExecFns;
use bigdecimal::BigDecimal;
use printpdf::{FontId, ParsedFont, PdfDocument, RawImage, XObjectId};
use crate::components::label::{
    Label,
    LabelView,
    label_row,
    label_rows,
    lemma_label_closes_text,
    lemma_label_names_its_font,
    lemma_label_rows_within,
    slice_rows,
    slices,
};
use crate::components::table::{
    Table,
    TableView,
    cells_within,
    lemma_table_closes_text,
    lemma_table_names_its_fonts,
    widths_view,
};
use crate::components::{Component, Drawable, row_view, rows_view};
use crate::decimal::{
    computable,
    decimal_add,
    decimal_divide,
    decimal_from_scaled,
    decimal_multiply,
    decimal_product,
    decimal_quotient,
    decimal_sum,
    is_computable,
    scaled_decimal,
    two_decimals,
};
use crate::error::RenderError;
use crate::fonts::{
    bold_candidates,
    fonts_found,
    fonts_missing,
    loads_first,
    regular_candidates,
};
use crate::format::{format_price, format_vat, price_text, vat_text};
use crate::image::{ImageLoadError, ImageSource, image_loaded, load_image};
use crate::instruction::{
    Instruction,
    InstructionView,
    extend,
    lemma_names_only_concat,
    lemma_names_only_more,
    lemma_text_closed_concat,
    names_only,
    text_closed,
    text_open_after,
    views,
};
use crate::invoice::{Invoice, InvoiceLine, str_or_empty, text_or_empty};
use crate::locale::translations::Translations;
use crate::locale::{get_translations, translations_of};
use crate::pdf::{
    add_image,
    document_fonts,
    document_images,
    document_title_of,
    image_added,
    new_document,
    no_fonts,
    no_images,
};
use crate::renderer::rendering_context::{
    RenderingContext,
    RenderingContextView,
    currency_shown,
    init_rendering_context,
};
use crate::text::{
    decimal_digits,
    label_with_colon,
    push_char,
    push_decimal,
    tagged_or_empty,
    tagged_value_or_empty,
    texts,
    with_colon,
};

pub mod rendering_context;

verus! {

/// The texts of the invoice's number, dates, reference and bank account:
/// a label and its value in each row.
pub open spec fn invoice_info_cells(invoice: &Invoice, labels: Translations) -> Seq<
    Seq<Seq<char>>,
> {
    seq![
        seq![with_colon(labels.invoice.number@), invoice.invoice_number@],
        seq![with_colon(labels.invoice.date@), invoice.billed_at@],
        seq![with_colon(labels.invoice.due_date@), invoice.due_date@],
        seq![with_colon(labels.invoice.reference_number@), text_or_empty(invoice.reference_id)],
        seq![with_colon(labels.account.number@), invoice.bank_details.account_number@],
        seq![with_colon(labels.account.bic@), invoice.bank_details.bic_code@],
    ]
}

/// The table of the invoice's number, dates, reference and bank account.
pub open spec fn invoice_info_view(invoice: &Invoice, context: RenderingContextView) -> TableView {
    TableView {
        column_widths: seq![40_000int, 30_000int],
        row_height: 5_000,
        header: None,
        rows: label_rows(
            invoice_info_cells(invoice, context.translations),
            11_000,
            context.regular_font_id,
        ),
    }
}

/// Builds the table of the invoice's number, dates, reference and bank
/// account.
pub fn invoice_info(invoice: &Invoice, rendering_context: &RenderingContext) -> (table: Table)
    ensures
        table@ == invoice_info_view(invoice, rendering_context@),
{
    let translations = rendering_context.translations;
    let number = label_with_colon(translations.invoice.number);
    let date = label_with_colon(translations.invoice.date);
    let due_date = label_with_colon(translations.invoice.due_date);
    let reference_number = label_with_colon(translations.invoice.reference_number);
    let account_number = label_with_colon(translations.account.number);
    let bic = label_with_colon(translations.account.bic);
    let rows = vec![
        vec![number.as_str(), invoice.invoice_number.as_str()],
        vec![date.as_str(), invoice.billed_at.as_str()],
        vec![due_date.as_str(), invoice.due_date.as_str()],
        vec![reference_number.as_str(), str_or_empty(&invoice.reference_id)],
        vec![account_number.as_str(), invoice.bank_details.account_number.as_str()],
        vec![bic.as_str(), invoice.bank_details.bic_code.as_str()],
    ];
    let column_widths: Vec<i64> = vec![40_000, 30_000];
    proof {
        assert(slice_rows(rows@) =~~= invoice_info_cells(invoice, translations));
        assert(widths_view(column_widths@) =~= seq![40_000int, 30_000int]);
    }
    Table {
        column_widths,
        row_height: 5_000,
        header: None,
        rows: Label::new_rows(rows, 11_000, &rendering_context.regular_font_id),
    }
}

/// The lines that an optional field adds: its text where it is present.
pub open spec fn present_line(field: Option<String>) -> Seq<Seq<char>> {
    match field {
        Some(text) => seq![text@],
        None => Seq::empty(),
    }
}

/// The lines that a text adds: itself, unless it is empty.
pub open spec fn filled_line(text: Seq<char>) -> Seq<Seq<char>> {
    if text.len() == 0 {
        Seq::empty()
    } else {
        seq![text]
    }
}

/// Rows of one cell each, one row for each line.
pub open spec fn single_cells(lines: Seq<Seq<char>>) -> Seq<Seq<Seq<char>>> {
    lines.map_values(|line: Seq<char>| seq![line])
}

/// The lines that name the receiver of the invoice: name and address, then
/// the company and tax numbers with their labels, as far as they are
/// given.
pub open spec fn billed_to_lines(invoice: &Invoice, context: RenderingContextView) -> Seq<
    Seq<char>,
> {
    let labels = context.translations;
    let party = invoice.billed_to;
    seq![party.name@, party.address_line_1@] + present_line(party.address_line_2) + present_line(
        party.address_line_3,
    ) + filled_line(tagged_or_empty(labels.company_id@, party.company_id)) + filled_line(
        tagged_or_empty(labels.vat_id@, party.vat_id),
    )
}

/// The table that names the receiver of the invoice, one line in each row.
pub open spec fn billed_to_view(invoice: &Invoice, context: RenderingContextView) -> TableView {
    TableView {
        column_widths: seq![30_000int],
        row_height: 5_000,
        header: None,
        rows: label_rows(
            single_cells(billed_to_lines(invoice, context)),
            11_000,
            context.regular_font_id,
        ),
    }
}

/// Builds the table that names the receiver of the invoice.
pub fn billed_to(invoice: &Invoice, rendering_context: &RenderingContext) -> (table: Table)
    ensures
        table@ == billed_to_view(invoice, rendering_context@),
{
    let translations = rendering_context.translations;
    let ghost party = invoice.billed_to;
    let mut billed_to_lines: Vec<Vec<&str>> = vec![
        vec![invoice.billed_to.name.as_str()],
        vec![invoice.billed_to.address_line_1.as_str()],
    ];
    let ghost mut lines = seq![party.name@, party.address_line_1@];
    assert(slice_rows(billed_to_lines@) =~~= single_cells(lines));
    if let Some(address_line_2) = &invoice.billed_to.address_line_2 {
        billed_to_lines.push(vec![address_line_2.as_str()]);
    }
    proof {
        lines = lines + present_line(party.address_line_2);
        assert(slice_rows(billed_to_lines@) =~~= single_cells(lines));
    }
    if let Some(address_line_3) = &invoice.billed_to.address_line_3 {
        billed_to_lines.push(vec![address_line_3.as_str()]);
    }
    proof {
        lines = lines + present_line(party.address_line_3);
        assert(slice_rows(billed_to_lines@) =~~= single_cells(lines));
    }
    let company_id_line = tagged_value_or_empty(
        translations.company_id,
        &invoice.billed_to.company_id,
    );
    if !company_id_line.as_str().is_empty() {
        billed_to_lines.push(vec![company_id_line.as_str()]);
    }
    proof {
        lines = lines + filled_line(tagged_or_empty(translations.company_id@, party.company_id));
        assert(slice_rows(billed_to_lines@) =~~= single_cells(lines));
    }
    let vat_id_line = tagged_value_or_empty(translations.vat_id, &invoice.billed_to.vat_id);
    if !vat_id_line.as_str().is_empty() {
        billed_to_lines.push(vec![vat_id_line.as_str()]);
    }
    proof {
        lines = lines + filled_line(tagged_or_empty(translations.vat_id@, party.vat_id));
        assert(slice_rows(billed_to_lines@) =~~= single_cells(lines));
        assert(lines == self::billed_to_lines(invoice, rendering_context@));
    }
    let column_widths: Vec<i64> = vec![30_000];
    assert(widths_view(column_widths@) =~= seq![30_000int]);
    let billed_to = Table {
        column_widths,
        row_height: 5_000,
        header: None,
        rows: Label::new_rows(billed_to_lines, 11_000, &rendering_context.regular_font_id),
    };
    billed_to
}

/// The texts that name the sender of the invoice, in three columns: name
/// and address; company number, tax number and bank account; and how to
/// reach the sender.
pub open spec fn billed_by_cells(invoice: &Invoice, labels: Translations) -> Seq<
    Seq<Seq<char>>,
> {
    let party = invoice.billed_by;
    seq![
        seq![
            party.name@,
            tagged_or_empty(labels.company_id@, party.company_id),
            text_or_empty(party.email),
        ],
        seq![
            party.address_line_1@,
            tagged_or_empty(labels.vat_id@, party.vat_id),
            text_or_empty(party.phone_number),
        ],
        seq![
            text_or_empty(party.address_line_2),
            invoice.bank_details.account_number@,
            Seq::empty(),
        ],
        seq![text_or_empty(party.address_line_3), invoice.bank_details.bic_code@, Seq::empty()],
        seq![text_or_empty(party.detail), Seq::empty(), Seq::empty()],
    ]
}

/// The table that names the sender of the invoice.
pub open spec fn billed_by_view(invoice: &Invoice, context: RenderingContextView) -> TableView {
    TableView {
        column_widths: seq![60_000int, 60_000int, 65_000int],
        row_height: 3_000,
        header: None,
        rows: label_rows(
            billed_by_cells(invoice, context.translations),
            7_000,
            context.regular_font_id,
        ),
    }
}

/// Builds the table that names the sender of the invoice.
pub fn billed_by(invoice: &Invoice, rendering_context: &RenderingContext) -> (table: Table)
    ensures
        table@ == billed_by_view(invoice, rendering_context@),
{
    let translations = rendering_context.translations;
    let company_id = tagged_value_or_empty(translations.company_id, &invoice.billed_by.company_id);
    let vat_id = tagged_value_or_empty(translations.vat_id, &invoice.billed_by.vat_id);
    let nothing = "";
    let rows = vec![
        vec![
            invoice.billed_by.name.as_str(),
            company_id.as_str(),
            str_or_empty(&invoice.billed_by.email),
        ],
        vec![
            invoice.billed_by.address_line_1.as_str(),
            vat_id.as_str(),
            str_or_empty(&invoice.billed_by.phone_number),
        ],
        vec![
            str_or_empty(&invoice.billed_by.address_line_2),
            invoice.bank_details.account_number.as_str(),
            nothing,
        ],
        vec![
            str_or_empty(&invoice.billed_by.address_line_3),
            invoice.bank_details.bic_code.as_str(),
            nothing,
        ],
        vec![str_or_empty(&invoice.billed_by.detail), nothing, nothing],
    ];
    let column_widths: Vec<i64> = vec![60_000, 60_000, 65_000];
    proof {
        reveal_strlit("");
        assert(nothing@ =~= Seq::<char>::empty());
        assert(slice_rows(rows@) =~~= billed_by_cells(invoice, translations));
        assert(widths_view(column_widths@) =~= seq![60_000int, 60_000int, 65_000int]);
    }
    Table {
        column_widths,
        row_height: 3_000,
        header: None,
        rows: Label::new_rows(rows, 7_000, &rendering_context.regular_font_id),
    }
}

/// What a price that includes the tax is divided by to take the tax out:
/// one and the rate of the tax, which is given in tenths of a percent.
pub open spec fn tax_divisor(vat: nat) -> BigDecimal {
    scaled_decimal(1000 + vat as int, 3)
}

/// What a price that includes the tax is multiplied by to get the tax as
/// the invoice states it: the rate of the tax, which is given in tenths of
/// a percent.
pub open spec fn tax_rate(vat: nat) -> BigDecimal {
    scaled_decimal(vat as int, 3)
}

/// A price as the invoice shows it.
pub open spec fn price_shown(price: BigDecimal, context: RenderingContextView) -> Seq<char> {
    price_text(two_decimals(price), context.currency, context.locale)
}

/// The texts of the row of an invoice line: what was sold, how many, the
/// price, the price without the tax, and the rate of the tax.
pub open spec fn line_cells(line: InvoiceLine, vat: nat, context: RenderingContextView) -> Seq<
    Seq<char>,
> {
    seq![
        line.name@,
        decimal_digits(line.count as nat),
        price_shown(line.price, context),
        price_shown(decimal_quotient(line.price, tax_divisor(vat)), context),
        vat_text(vat),
    ]
}

/// The texts of the headings of the invoice lines.
pub open spec fn line_headings(context: RenderingContextView) -> Seq<Seq<char>> {
    let labels = context.translations.invoice.line;
    seq![
        labels.item@,
        labels.quantity@,
        labels.price@,
        labels.price_without_tax@,
        labels.vat@.push(' ').push('%'),
    ]
}

/// The table of the invoice lines: the headings in bold, then a row for
/// each line.
pub open spec fn invoice_lines_view(invoice: &Invoice, context: RenderingContextView) -> TableView {
    TableView {
        column_widths: seq![80_000int, 20_000int, 30_000int, 40_000int, 15_000int],
        row_height: 5_000,
        header: Some(label_row(line_headings(context), 10_000, context.bold_font_id)),
        rows: label_rows(
            Seq::new(
                invoice.invoice_lines@.len(),
                |i: int| line_cells(invoice.invoice_lines@[i], invoice.vat_percent as nat, context),
            ),
            10_000,
            context.regular_font_id,
        ),
    }
}

/// Whether the price of every invoice line can be computed with.
pub open spec fn prices_computable(invoice: &Invoice) -> bool {
    forall|i: int|
        0 <= i < invoice.invoice_lines@.len() ==> computable(
            (#[trigger] invoice.invoice_lines@[i]).price,
        )
}

/// Builds the table of the invoice lines. The prices must be such as can
/// be computed with, which [`check_amounts`] tells.
pub fn invoice_lines(invoice: &Invoice, rendering_context: &RenderingContext) -> (table: Table)
    requires
        prices_computable(invoice),
    ensures
        table@ == invoice_lines_view(invoice, rendering_context@),
{
    let translations = rendering_context.translations;
    let regular_font_id = &rendering_context.regular_font_id;
    let bold_font_id = &rendering_context.bold_font_id;
    let currency = rendering_context.currency.as_str();
    let locale = rendering_context.locale.as_str();
    let ghost context = rendering_context@;
    let ghost vat = invoice.vat_percent as nat;
    let mut rows: Vec<Vec<Drawable>> = Vec::new();
    let mut i: usize = 0;
    while i < invoice.invoice_lines.len()
        invariant
            i <= invoice.invoice_lines.len(),
            prices_computable(invoice),
            context == rendering_context@,
            vat == invoice.vat_percent,
            currency@ == context.currency,
            locale@ == context.locale,
            *regular_font_id == context.regular_font_id,
            rows.len() == i,
            forall|k: int|
                0 <= k < i ==> row_view(#[trigger] rows[k]@) == label_row(
                    line_cells(invoice.invoice_lines@[k], vat, context),
                    10_000,
                    context.regular_font_id,
                ),
        decreases invoice.invoice_lines.len() - i,
    {
        let invoice_line = &invoice.invoice_lines[i];
        assert(computable(invoice.invoice_lines@[i as int].price));
        let divisor = decimal_from_scaled(1000 + (invoice.vat_percent as i64), 3);
        let price_without_vat = decimal_divide(&invoice_line.price, divisor);
        let mut count = String::new();
        push_decimal(&mut count, invoice_line.count as u64);
        let price = format_price(&invoice_line.price, currency, locale);
        let price_without_vat = format_price(&price_without_vat, currency, locale);
        let vat_percent = format_vat(invoice.vat_percent);
        let cells = vec![
            invoice_line.name.as_str(),
            count.as_str(),
            price.as_str(),
            price_without_vat.as_str(),
            vat_percent.as_str(),
        ];
        proof {
            assert(count@ =~= decimal_digits(invoice_line.count as nat));
            assert(slices(cells@) =~= line_cells(*invoice_line, vat, context));
        }
        rows.push(Label::new_row(cells, 10_000, regular_font_id));
        i += 1;
    }
    let mut vat_heading = String::from_str(translations.invoice.line.vat);
    push_char(&mut vat_heading, ' ');
    push_char(&mut vat_heading, '%');
    let headings = vec![
        translations.invoice.line.item,
        translations.invoice.line.quantity,
        translations.invoice.line.price,
        translations.invoice.line.price_without_tax,
        vat_heading.as_str(),
    ];
    let column_widths: Vec<i64> = vec![80_000, 20_000, 30_000, 40_000, 15_000];
    proof {
        assert(slices(headings@) =~= line_headings(context));
        assert(widths_view(column_widths@) =~= seq![
            80_000int,
            20_000int,
            30_000int,
            40_000int,
            15_000int,
        ]);
        assert(rows_view(rows@) =~= label_rows(
            Seq::new(
                invoice.invoice_lines@.len(),
                |i: int| line_cells(invoice.invoice_lines@[i], vat, context),
            ),
            10_000,
            context.regular_font_id,
        ));
    }
    Table {
        column_widths,
        row_height: 5_000,
        header: Some(Label::new_row(headings, 10_000, bold_font_id)),
        rows,
    }
}

/// The sum of the prices of the first `n` invoice lines, added up in order
/// from zero.
pub open spec fn total_of(lines: Seq<InvoiceLine>, n: nat) -> BigDecimal
    decreases n,
{
    if n == 0 {
        scaled_decimal(0, 0)
    } else {
        decimal_sum(total_of(lines, (n - 1) as nat), lines[n - 1].price)
    }
}

/// The sum of the prices of all invoice lines.
pub open spec fn total_price(invoice: &Invoice) -> BigDecimal {
    total_of(invoice.invoice_lines@, invoice.invoice_lines@.len())
}

/// The texts of the three rows of the totals: the total without the tax,
/// the tax, and the total.
pub open spec fn summary_cells(invoice: &Invoice, context: RenderingContextView) -> Seq<
    Seq<Seq<char>>,
> {
    let labels = context.translations.invoice;
    let vat = invoice.vat_percent as nat;
    let total = total_price(invoice);
    seq![
        seq![
            with_colon(labels.total_price_without_tax@),
            price_shown(decimal_quotient(total, tax_divisor(vat)), context),
        ],
        seq![
            (labels.vat@.push(' ') + vat_text(vat)).push(' ').push('%').push(':'),
            price_shown(decimal_product(tax_rate(vat), total), context),
        ],
        seq![with_colon(labels.total_price@), price_shown(total, context)],
    ]
}

/// The table of the totals: the total without the tax and the tax in the
/// regular font, the total in bold.
pub open spec fn summary_view(invoice: &Invoice, context: RenderingContextView) -> TableView {
    let cells = summary_cells(invoice, context);
    TableView {
        column_widths: seq![45_000int, 30_000int],
        row_height: 5_000,
        header: None,
        rows: seq![
            label_row(cells[0], 10_000, context.regular_font_id),
            label_row(cells[1], 10_000, context.regular_font_id),
            label_row(cells[2], 10_000, context.bold_font_id),
        ],
    }
}

/// Adds up the prices of the invoice lines. The prices must be such as
/// can be computed with, which [`check_amounts`] tells; their sum is then
/// such an amount too.
pub fn sum_of_prices(invoice: &Invoice) -> (total: BigDecimal)
    requires
        prices_computable(invoice),
    ensures
        total == total_price(invoice),
        computable(total),
{
    let mut total = decimal_from_scaled(0, 0);
    let mut i: usize = 0;
    while i < invoice.invoice_lines.len()
        invariant
            i <= invoice.invoice_lines.len(),
            prices_computable(invoice),
            total == total_of(invoice.invoice_lines@, i as nat),
            computable(total),
        decreases invoice.invoice_lines.len() - i,
    {
        assert(computable(invoice.invoice_lines@[i as int].price));
        total = decimal_add(total, &invoice.invoice_lines[i].price);
        i += 1;
    }
    total
}

/// Tells whether the price of every invoice line can be computed with.
pub fn check_amounts(invoice: &Invoice) -> (fit: bool)
    ensures
        fit == prices_computable(invoice),
{
    let mut i: usize = 0;
    while i < invoice.invoice_lines.len()
        invariant
            i <= invoice.invoice_lines.len(),
            forall|k: int| 0 <= k < i ==> computable((#[trigger] invoice.invoice_lines@[k]).price),
        decreases invoice.invoice_lines.len() - i,
    {
        if !is_computable(&invoice.invoice_lines[i].price) {
            return false;
        }
        i += 1;
    }
    true
}

/// Builds the table of the totals. The prices must be such as can be
/// computed with, which [`check_amounts`] tells.
pub fn summary(invoice: &Invoice, rendering_context: &RenderingContext) -> (table: Table)
    requires
        prices_computable(invoice),
    ensures
        table@ == summary_view(invoice, rendering_context@),
{
    let translations = rendering_context.translations;
    let regular_font_id = &rendering_context.regular_font_id;
    let bold_font_id = &rendering_context.bold_font_id;
    let currency = rendering_context.currency.as_str();
    let locale = rendering_context.locale.as_str();
    let ghost context = rendering_context@;
    let ghost cells = summary_cells(invoice, context);

    let total_price = sum_of_prices(invoice);
    let total_vat = decimal_multiply(
        decimal_from_scaled(invoice.vat_percent as i64, 3),
        &total_price,
    );
    let total_price_without_vat = decimal_divide(
        &total_price,
        decimal_from_scaled(1000 + (invoice.vat_percent as i64), 3),
    );

    let without_tax_label = label_with_colon(translations.invoice.total_price_without_tax);
    let without_tax = format_price(&total_price_without_vat, currency, locale);
    let mut vat_label = String::from_str(translations.invoice.vat);
    push_char(&mut vat_label, ' ');
    vat_label.append(format_vat(invoice.vat_percent).as_str());
    push_char(&mut vat_label, ' ');
    push_char(&mut vat_label, '%');
    push_char(&mut vat_label, ':');
    let vat = format_price(&total_vat, currency, locale);
    let total_label = label_with_colon(translations.invoice.total_price);
    let total = format_price(&total_price, currency, locale);

    let first = vec![without_tax_label.as_str(), without_tax.as_str()];
    let second = vec![vat_label.as_str(), vat.as_str()];
    let third = vec![total_label.as_str(), total.as_str()];
    let column_widths: Vec<i64> = vec![45_000, 30_000];
    proof {
        assert(slices(first@) =~= cells[0]);
        assert(slices(second@) =~= cells[1]);
        assert(slices(third@) =~= cells[2]);
        assert(widths_view(column_widths@) =~= seq![45_000int, 30_000int]);
    }
    let rows = vec![
        Label::new_row(first, 10_000, regular_font_id),
        Label::new_row(second, 10_000, regular_font_id),
        Label::new_row(third, 10_000, bold_font_id),
    ];
    assert(rows_view(rows@) =~= summary_view(invoice, context).rows);
    Table { column_widths, row_height: 5_000, header: None, rows }
}

/// The instruction that paints the logo, where there is one: at half its
/// size and 300 dots per inch, in the upper left corner of the page.
pub open spec fn logo_drawn(image: Option<XObjectId>) -> Seq<InstructionView> {
    match image {
        Some(image) => seq![
            InstructionView::PlaceImage {
                image,
                translate_x: 45_000,
                translate_y: 770_000,
                scale_x: 500,
                scale_y: 500,
                dpi: 300_000,
            },
        ],
        None => Seq::empty(),
    }
}

/// Adds the logo to the document and paints it: the instruction names the
/// handle under which the document holds the logo.
pub fn logo(doc: &mut PdfDocument, logo_image: &RawImage) -> (ops: Vec<Instruction>)
    ensures
        exists|id: XObjectId| #[trigger]
            image_added(*old(doc), *final(doc), id, *logo_image) && views(ops@) == logo_drawn(
                Some(id),
            ),
{
    let image_xobject_id = add_image(doc, logo_image);
    let ops = vec![
        Instruction::PlaceImage {
            image: image_xobject_id,
            translate_x: 45_000,
            translate_y: 770_000,
            scale_x: 500,
            scale_y: 500,
            dpi: 300_000,
        },
    ];
    assert(views(ops@) =~= logo_drawn(Some(image_xobject_id)));
    ops
}

/// The instructions that draw an optional text as a label in the regular
/// font at size 10: none where the text is absent.
pub open spec fn remark_drawn_at(
    text: Option<String>,
    context: RenderingContextView,
    x: int,
    y: int,
) -> Seq<InstructionView> {
    match text {
        Some(text) => LabelView {
            value: text@,
            font_size: 10_000,
            font_id: context.regular_font_id,
        }.drawn_at(x, y),
        None => Seq::empty(),
    }
}

/// Draws an optional text as a label in the regular font at size 10.
fn remark(text: &Option<String>, rendering_context: &RenderingContext, x: i64, y: i64) -> (ops:
    Vec<Instruction>)
    ensures
        views(ops@) == remark_drawn_at(*text, rendering_context@, x as int, y as int),
{
    match text {
        Some(text) => Label::new(
            text.as_str(),
            10_000,
            &rendering_context.regular_font_id,
        ).render_at(x, y),
        None => {
            let ops: Vec<Instruction> = Vec::new();
            assert(views(ops@) =~= Seq::<InstructionView>::empty());
            ops
        },
    }
}

/// The two instructions that draw the rule above the footer.
pub open spec fn footer_rule_drawn() -> Seq<InstructionView> {
    seq![
        InstructionView::SetStrokeWidth { width: 800 },
        InstructionView::DrawLine { from_x: 15_000, from_y: 25_000, to_x: 200_000, to_y: 25_000 },
    ]
}

/// The title of the page: the word for an invoice, in bold.
pub open spec fn title_view(context: RenderingContextView) -> LabelView {
    LabelView {
        value: context.translations.invoice.invoice@,
        font_size: 22_000,
        font_id: context.bold_font_id,
    }
}

/// The instructions that draw the page of an invoice after what paints
/// the logo: the sections in this order, each at its fixed place.
pub open spec fn page_drawn_after(
    logo: Seq<InstructionView>,
    invoice: &Invoice,
    context: RenderingContextView,
) -> Seq<InstructionView> {
    logo + title_view(context).drawn_at(110_000, 270_000) + invoice_info_view(
        invoice,
        context,
    ).drawn_at(110_000, 260_000) + billed_to_view(invoice, context).drawn_at(15_000, 260_000)
        + invoice_lines_view(invoice, context).drawn_at(15_000, 200_000) + summary_view(
        invoice,
        context,
    ).drawn_at(125_000, 164_000) + remark_drawn_at(invoice.note, context, 15_000, 140_000)
        + remark_drawn_at(invoice.invoice_description, context, 15_000, 130_000)
        + footer_rule_drawn() + billed_by_view(invoice, context).drawn_at(25_000, 20_000)
}

/// The instructions that draw the page of an invoice: the logo, where
/// there is one, and then the sections.
pub open spec fn page_drawn(
    invoice: &Invoice,
    context: RenderingContextView,
    image: Option<XObjectId>,
) -> Seq<InstructionView> {
    page_drawn_after(logo_drawn(image), invoice, context)
}

/// The fonts of a page: the regular and the bold font.
pub open spec fn page_fonts(context: RenderingContextView) -> Set<FontId> {
    Set::<FontId>::empty().insert(context.regular_font_id).insert(context.bold_font_id)
}

/// The images of a page: the logo, where there is one.
pub open spec fn page_images(image: Option<XObjectId>) -> Set<XObjectId> {
    match image {
        Some(id) => Set::<XObjectId>::empty().insert(id),
        None => Set::<XObjectId>::empty(),
    }
}

/// The instructions that draw a label in one of the fonts of a page name
/// no font and no image but those of the page.
proof fn lemma_label_on_page(
    label: LabelView,
    context: RenderingContextView,
    image: Option<XObjectId>,
    x: int,
    y: int,
)
    requires
        page_fonts(context).contains(label.font_id),
    ensures
        names_only(label.drawn_at(x, y), page_fonts(context), page_images(image)),
{
    lemma_label_names_its_font(label, x, y);
    lemma_names_only_more(
        label.drawn_at(x, y),
        Set::<FontId>::empty().insert(label.font_id),
        Set::<XObjectId>::empty(),
        page_fonts(context),
        page_images(image),
    );
}

/// The instructions that draw a table whose labels are written in the
/// fonts of a page name no font and no image but those of the page.
proof fn lemma_table_on_page(
    table: TableView,
    context: RenderingContextView,
    image: Option<XObjectId>,
    x: int,
    y: int,
)
    requires
        table.fonts_within(page_fonts(context)),
    ensures
        names_only(table.drawn_at(x, y), page_fonts(context), page_images(image)),
{
    lemma_table_names_its_fonts(table, page_fonts(context), x, y);
    lemma_names_only_more(
        table.drawn_at(x, y),
        page_fonts(context),
        Set::<XObjectId>::empty(),
        page_fonts(context),
        page_images(image),
    );
}

/// The instructions that draw the page of an invoice name no font but the
/// regular and the bold font, and no image but the logo.
pub proof fn lemma_page_names_its_resources(
    invoice: &Invoice,
    context: RenderingContextView,
    image: Option<XObjectId>,
)
    ensures
        names_only(page_drawn(invoice, context, image), page_fonts(context), page_images(image)),
{
    let fonts = page_fonts(context);
    let images = page_images(image);
    let regular = context.regular_font_id;
    let bold = context.bold_font_id;
    let vat = invoice.vat_percent as nat;

    let logo = logo_drawn(image);
    assert(names_only(logo, fonts, images));

    let title = title_view(context).drawn_at(110_000, 270_000);
    lemma_label_on_page(title_view(context), context, image, 110_000, 270_000);
    lemma_names_only_concat(logo, title, fonts, images);

    let info = invoice_info_view(invoice, context);
    let labels = context.translations;
    lemma_label_rows_within(invoice_info_cells(invoice, labels), 11_000, regular, fonts);
    lemma_table_on_page(info, context, image, 110_000, 260_000);
    lemma_names_only_concat(logo + title, info.drawn_at(110_000, 260_000), fonts, images);

    let to = billed_to_view(invoice, context);
    let to_lines = single_cells(billed_to_lines(invoice, context));
    lemma_label_rows_within(to_lines, 11_000, regular, fonts);
    lemma_table_on_page(to, context, image, 15_000, 260_000);
    lemma_names_only_concat(
        logo + title + info.drawn_at(110_000, 260_000),
        to.drawn_at(15_000, 260_000),
        fonts,
        images,
    );

    let lines = invoice_lines_view(invoice, context);
    lemma_label_rows_within(
        Seq::new(
            invoice.invoice_lines@.len(),
            |i: int| line_cells(invoice.invoice_lines@[i], vat, context),
        ),
        10_000,
        regular,
        fonts,
    );
    lemma_label_rows_within(seq![line_headings(context)], 10_000, bold, fonts);
    assert(seq![line_headings(context)][0] == line_headings(context));
    assert(cells_within(label_row(line_headings(context), 10_000, bold), fonts));
    lemma_table_on_page(lines, context, image, 15_000, 200_000);
    lemma_names_only_concat(
        logo + title + info.drawn_at(110_000, 260_000) + to.drawn_at(15_000, 260_000),
        lines.drawn_at(15_000, 200_000),
        fonts,
        images,
    );

    let totals = summary_view(invoice, context);
    let cells = summary_cells(invoice, context);
    lemma_label_rows_within(cells, 10_000, regular, fonts);
    lemma_label_rows_within(cells, 10_000, bold, fonts);
    assert(cells_within(totals.rows[0], fonts));
    assert(cells_within(totals.rows[1], fonts));
    assert(cells_within(totals.rows[2], fonts));
    lemma_table_on_page(totals, context, image, 125_000, 164_000);
    lemma_names_only_concat(
        logo + title + info.drawn_at(110_000, 260_000) + to.drawn_at(15_000, 260_000)
            + lines.drawn_at(15_000, 200_000),
        totals.drawn_at(125_000, 164_000),
        fonts,
        images,
    );

    let note = remark_drawn_at(invoice.note, context, 15_000, 140_000);
    match invoice.note {
        Some(text) => {
            lemma_label_on_page(
                LabelView { value: text@, font_size: 10_000, font_id: regular },
                context,
                image,
                15_000,
                140_000,
            );
        },
        None => {},
    }
    lemma_names_only_concat(
        logo + title + info.drawn_at(110_000, 260_000) + to.drawn_at(15_000, 260_000)
            + lines.drawn_at(15_000, 200_000) + totals.drawn_at(125_000, 164_000),
        note,
        fonts,
        images,
    );

    let description = remark_drawn_at(invoice.invoice_description, context, 15_000, 130_000);
    match invoice.invoice_description {
        Some(text) => {
            lemma_label_on_page(
                LabelView { value: text@, font_size: 10_000, font_id: regular },
                context,
                image,
                15_000,
                130_000,
            );
        },
        None => {},
    }
    lemma_names_only_concat(
        logo + title + info.drawn_at(110_000, 260_000) + to.drawn_at(15_000, 260_000)
            + lines.drawn_at(15_000, 200_000) + totals.drawn_at(125_000, 164_000) + note,
        description,
        fonts,
        images,
    );

    assert(names_only(footer_rule_drawn(), fonts, images));
    lemma_names_only_concat(
        logo + title + info.drawn_at(110_000, 260_000) + to.drawn_at(15_000, 260_000)
            + lines.drawn_at(15_000, 200_000) + totals.drawn_at(125_000, 164_000) + note
            + description,
        footer_rule_drawn(),
        fonts,
        images,
    );

    let by = billed_by_view(invoice, context);
    lemma_label_rows_within(billed_by_cells(invoice, labels), 7_000, regular, fonts);
    lemma_table_on_page(by, context, image, 25_000, 20_000);
    lemma_names_only_concat(
        logo + title + info.drawn_at(110_000, 260_000) + to.drawn_at(15_000, 260_000)
            + lines.drawn_at(15_000, 200_000) + totals.drawn_at(125_000, 164_000) + note
            + description + footer_rule_drawn(),
        by.drawn_at(25_000, 20_000),
        fonts,
        images,
    );
}

/// The instructions that draw the page of an invoice leave no block of
/// text open, and neither does any section of the page: each section
/// starts outside any block, whatever was drawn before it.
pub proof fn lemma_page_closes_text(
    invoice: &Invoice,
    context: RenderingContextView,
    image: Option<XObjectId>,
)
    ensures
        text_closed(logo_drawn(image)),
        text_closed(title_view(context).drawn_at(110_000, 270_000)),
        text_closed(invoice_info_view(invoice, context).drawn_at(110_000, 260_000)),
        text_closed(billed_to_view(invoice, context).drawn_at(15_000, 260_000)),
        text_closed(invoice_lines_view(invoice, context).drawn_at(15_000, 200_000)),
        text_closed(summary_view(invoice, context).drawn_at(125_000, 164_000)),
        text_closed(remark_drawn_at(invoice.note, context, 15_000, 140_000)),
        text_closed(remark_drawn_at(invoice.invoice_description, context, 15_000, 130_000)),
        text_closed(footer_rule_drawn()),
        text_closed(billed_by_view(invoice, context).drawn_at(25_000, 20_000)),
        text_closed(page_drawn(invoice, context, image)),
{
    let regular = context.regular_font_id;
    let logo = logo_drawn(image);
    assert(text_closed(logo)) by {
        reveal_with_fuel(text_open_after, 2);
    }
    let title = title_view(context).drawn_at(110_000, 270_000);
    lemma_label_closes_text(title_view(context), 110_000, 270_000);
    let info = invoice_info_view(invoice, context).drawn_at(110_000, 260_000);
    lemma_table_closes_text(invoice_info_view(invoice, context), 110_000, 260_000);
    let to = billed_to_view(invoice, context).drawn_at(15_000, 260_000);
    lemma_table_closes_text(billed_to_view(invoice, context), 15_000, 260_000);
    let lines = invoice_lines_view(invoice, context).drawn_at(15_000, 200_000);
    lemma_table_closes_text(invoice_lines_view(invoice, context), 15_000, 200_000);
    let totals = summary_view(invoice, context).drawn_at(125_000, 164_000);
    lemma_table_closes_text(summary_view(invoice, context), 125_000, 164_000);
    let note = remark_drawn_at(invoice.note, context, 15_000, 140_000);
    if invoice.note is Some {
        lemma_label_closes_text(
            LabelView { value: invoice.note->0@, font_size: 10_000, font_id: regular },
            15_000,
            140_000,
        );
    }
    let description = remark_drawn_at(invoice.invoice_description, context, 15_000, 130_000);
    if invoice.invoice_description is Some {
        lemma_label_closes_text(
            LabelView {
                value: invoice.invoice_description->0@,
                font_size: 10_000,
                font_id: regular,
            },
            15_000,
            130_000,
        );
    }
    let rule = footer_rule_drawn();
    assert(text_closed(rule)) by {
        reveal_with_fuel(text_open_after, 3);
    }
    let by = billed_by_view(invoice, context).drawn_at(25_000, 20_000);
    lemma_table_closes_text(billed_by_view(invoice, context), 25_000, 20_000);

    lemma_text_closed_concat(logo, title);
    lemma_text_closed_concat(logo + title, info);
    lemma_text_closed_concat(logo + title + info, to);
    lemma_text_closed_concat(logo + title + info + to, lines);
    lemma_text_closed_concat(logo + title + info + to + lines, totals);
    lemma_text_closed_concat(logo + title + info + to + lines + totals, note);
    lemma_text_closed_concat(logo + title + info + to + lines + totals + note, description);
    lemma_text_closed_concat(
        logo + title + info + to + lines + totals + note + description,
        rule,
    );
    lemma_text_closed_concat(
        logo + title + info + to + lines + totals + note + description + rule,
        by,
    );
}

/// Draws the page of an invoice: what paints the logo, which the caller
/// hands in, and then the sections. The prices of the invoice must be such
/// as can be computed with, which [`check_amounts`] tells.
pub fn assemble_page(
    invoice: &Invoice,
    rendering_context: &RenderingContext,
    logo: Vec<Instruction>,
) -> (page_contents: Vec<Instruction>)
    requires
        prices_computable(invoice),
    ensures
        views(page_contents@) == page_drawn_after(views(logo@), invoice, rendering_context@),
{
    let mut page_contents: Vec<Instruction> = logo;
    extend(
        &mut page_contents,
        Label::new(
            rendering_context.translations.invoice.invoice,
            22_000,
            &rendering_context.bold_font_id,
        ).render_at(110_000, 270_000),
    );
    extend(
        &mut page_contents,
        invoice_info(invoice, rendering_context).render_at(110_000, 260_000),
    );
    extend(&mut page_contents, billed_to(invoice, rendering_context).render_at(15_000, 260_000));
    extend(
        &mut page_contents,
        invoice_lines(invoice, rendering_context).render_at(15_000, 200_000),
    );
    extend(&mut page_contents, summary(invoice, rendering_context).render_at(125_000, 164_000));
    extend(&mut page_contents, remark(&invoice.note, rendering_context, 15_000, 140_000));
    extend(
        &mut page_contents,
        remark(&invoice.invoice_description, rendering_context, 15_000, 130_000),
    );
    let footer_rule = vec![
        Instruction::SetStrokeWidth { width: 800 },
        Instruction::DrawLine { from_x: 15_000, from_y: 25_000, to_x: 200_000, to_y: 25_000 },
    ];
    assert(views(footer_rule@) =~= footer_rule_drawn());
    extend(&mut page_contents, footer_rule);
    extend(&mut page_contents, billed_by(invoice, rendering_context).render_at(25_000, 20_000));
    page_contents
}

/// The title of the document of an invoice: the word for an invoice and
/// the invoice's number.
pub open spec fn title_text(labels: Translations, invoice: &Invoice) -> Seq<char> {
    labels.invoice.invoice@.push(' ') + invoice.invoice_number@
}

/// The title of the document of an invoice.
pub fn document_title(translations: &Translations, invoice: &Invoice) -> (title: String)
    ensures
        title@ == title_text(*translations, invoice),
{
    let mut title = String::from_str(translations.invoice.invoice);
    push_char(&mut title, ' ');
    title.append(invoice.invoice_number.as_str());
    title
}

/// Whether a context is what the invoice and the labels of its locale
/// give: the labels, the currency as it is shown, and the locale.
pub open spec fn context_of(
    invoice: &Invoice,
    labels: Translations,
    context: RenderingContextView,
) -> bool {
    &&& context.translations == labels
    &&& context.currency == currency_shown(invoice.currency@)
    &&& context.locale == invoice.locale@
}

/// Whether `image` and the images of the document are what loading the
/// logo of the invoice gave: where the invoice names a logo, the document
/// holds the image that was loaded from there, and nothing else, under the
/// handle `image`; where it names none, the document holds no image.
pub open spec fn logo_resolved<G: Fn(&String, ImageSource) -> Result<Vec<u8>, ImageLoadError>>(
    read_image: G,
    invoice: &Invoice,
    doc: PdfDocument,
    image: Option<XObjectId>,
) -> bool {
    match invoice.billed_by.logo {
        Some(path) => image matches Some(id) && exists|loaded: RawImage|
            {
                &&& image_loaded(read_image, &path, Ok::<RawImage, ImageLoadError>(loaded))
                &&& #[trigger] no_images().insert(id, loaded) == document_images(doc)
            },
        None => image is None && document_images(doc) == no_images(),
    }
}

/// Whether the fonts of the document are the two that the reader gave,
/// each the first of its candidates, under the handles of the context.
pub open spec fn fonts_resolved<F: Fn(&str) -> Option<Vec<u8>>>(
    read_font: F,
    doc: PdfDocument,
    context: RenderingContextView,
) -> bool {
    exists|regular_font: ParsedFont, bold_font: ParsedFont|
        {
            &&& loads_first(read_font, regular_candidates(), regular_font)
            &&& loads_first(read_font, bold_candidates(), bold_font)
            &&& #[trigger] no_fonts().insert(context.regular_font_id, regular_font).insert(
                context.bold_font_id,
                bold_font,
            ) == document_fonts(doc)
        }
}

/// Whether a document and the instructions of its page are what rendering
/// the invoice with the labels and the two readers gives: the document is
/// titled after the invoice and holds the two fonts and the logo, and the
/// instructions draw the page with them.
pub open spec fn rendered_with<
    F: Fn(&str) -> Option<Vec<u8>>,
    G: Fn(&String, ImageSource) -> Result<Vec<u8>, ImageLoadError>,
>(
    invoice: &Invoice,
    labels: Translations,
    read_font: F,
    read_image: G,
    doc: PdfDocument,
    ops: Seq<InstructionView>,
) -> bool {
    exists|context: RenderingContextView, image: Option<XObjectId>|
        {
            &&& context_of(invoice, labels, context)
            &&& fonts_resolved(read_font, doc, context)
            &&& logo_resolved(read_image, invoice, doc, image)
            &&& document_title_of(doc) == title_text(labels, invoice)
            &&& ops == #[trigger] page_drawn(invoice, context, image)
        }
}

/// Renders an invoice into a document and the instructions that draw its
/// page.
///
/// The labels are those of the invoice's locale; an invoice in a locale
/// without labels is refused before anything else is done. The document is
/// titled after the invoice. The fonts are then read by `read_font`,
/// candidate by candidate, and after them the logo, where the invoice names
/// one, by `read_image`; both are added to the document. Where the fonts
/// and the logo are there, the page is drawn: its instructions name no
/// font and no image but those that the document holds, and leave no block
/// of text open. Only an invoice
/// with a price whose scale is too near the ends of `i64` to compute with
/// is refused at this last step.
pub fn render<
    F: Fn(&str) -> Option<Vec<u8>>,
    G: Fn(&String, ImageSource) -> Result<Vec<u8>, ImageLoadError>,
>(invoice: &Invoice, read_font: &F, read_image: &G) -> (rendered: Result<
    (PdfDocument, Vec<Instruction>),
    RenderError,
>)
    requires
        forall|name: &str| read_font.requires((name,)),
        forall|path: &String, source: ImageSource| read_image.requires((path, source)),
    ensures
        match translations_of(invoice.locale@) {
            None => rendered matches Err(RenderError::UnsupportedLocale { locale }) && locale@
                == invoice.locale@,
            Some(labels) => match rendered {
                Ok((doc, ops)) => {
                    &&& prices_computable(invoice)
                    &&& rendered_with(invoice, labels, *read_font, *read_image, doc, views(ops@))
                    &&& names_only(
                        views(ops@),
                        document_fonts(doc).dom(),
                        document_images(doc).dom(),
                    )
                    &&& text_closed(views(ops@))
                },
                Err(RenderError::FontUnavailable { tried }) => fonts_missing(
                    *read_font,
                    texts(tried@),
                ),
                Err(RenderError::ImageLoad { reason }) => {
                    &&& fonts_found(*read_font)
                    &&& invoice.billed_by.logo matches Some(path) && image_loaded(
                        *read_image,
                        &path,
                        Err::<RawImage, ImageLoadError>(reason),
                    )
                },
                Err(RenderError::AmountOutOfRange) => {
                    &&& !prices_computable(invoice)
                    &&& fonts_found(*read_font)
                    &&& invoice.billed_by.logo matches Some(path) ==> exists|loaded: RawImage|
                        #[trigger] image_loaded(
                            *read_image,
                            &path,
                            Ok::<RawImage, ImageLoadError>(loaded),
                        )
                },
                Err(RenderError::UnsupportedLocale { .. }) => false,
            },
        },
{
    let translations = match get_translations(invoice.locale.as_str()) {
        Ok(translations) => translations,
        Err(e) => { return Err(e); },
    };
    let mut doc = new_document(document_title(&translations, invoice).as_str());
    let rendering_context = match init_rendering_context(
        &mut doc,
        invoice,
        translations,
        invoice.locale.as_str(),
        read_font,
    ) {
        Ok(rendering_context) => rendering_context,
        Err(e) => { return Err(e); },
    };
    let ghost with_fonts = doc;
    proof {
        let context = rendering_context@;
        let (regular_font, bold_font) = choose|regular_font: ParsedFont, bold_font: ParsedFont|
            {
                &&& loads_first(*read_font, regular_candidates(), regular_font)
                &&& loads_first(*read_font, bold_candidates(), bold_font)
                &&& #[trigger] no_fonts().insert(context.regular_font_id, regular_font).insert(
                    context.bold_font_id,
                    bold_font,
                ) == document_fonts(with_fonts)
            };
        assert(no_fonts().insert(context.regular_font_id, regular_font).insert(
            context.bold_font_id,
            bold_font,
        ) == document_fonts(with_fonts));
        assert(fonts_resolved(*read_font, with_fonts, context));
    }
    let ghost mut image: Option<XObjectId> = None;
    let logo_ops = match &invoice.billed_by.logo {
        Some(logo_url) => {
            let logo_image = match load_image(logo_url, read_image) {
                Ok(logo_image) => logo_image,
                Err(reason) => { return Err(RenderError::ImageLoad { reason }); },
            };
            let ops = logo(&mut doc, &logo_image);
            proof {
                let id = choose|id: XObjectId| #[trigger]
                    image_added(with_fonts, doc, id, logo_image) && views(ops@) == logo_drawn(
                        Some(id),
                    );
                image = Some(id);
                assert(no_images().insert(id, logo_image) == document_images(doc));
            }
            ops
        },
        None => {
            let ops: Vec<Instruction> = Vec::new();
            assert(views(ops@) =~= logo_drawn(None));
            ops
        },
    };
    if !check_amounts(invoice) {
        proof {
            assert(logo_resolved(*read_image, invoice, doc, image));
            if invoice.billed_by.logo is Some {
                let path = invoice.billed_by.logo->0;
                let loaded = choose|loaded: RawImage|
                    {
                        &&& image_loaded(*read_image, &path, Ok::<RawImage, ImageLoadError>(loaded))
                        &&& #[trigger] no_images().insert(image->0, loaded) == document_images(
                            doc,
                        )
                    };
                assert(image_loaded(*read_image, &path, Ok::<RawImage, ImageLoadError>(loaded)));
            }
        }
        return Err(RenderError::AmountOutOfRange);
    }
    let page_contents = assemble_page(invoice, &rendering_context, logo_ops);
    proof {
        let context = rendering_context@;
        assert(context_of(invoice, translations, context));
        assert(fonts_resolved(*read_font, doc, context));
        assert(logo_resolved(*read_image, invoice, doc, image));
        assert(views(page_contents@) == page_drawn(invoice, context, image));
        lemma_page_names_its_resources(invoice, context, image);
        lemma_page_closes_text(invoice, context, image);
        assert(document_fonts(doc).dom() =~= page_fonts(context));
        assert(document_images(doc).dom() =~= page_images(image));
    }
    Ok((doc, page_contents))
}

} // verus!
