//! The PDF document that an invoice is rendered into, as the `printpdf`
//! crate keeps it.
//!
//! A document knows its fonts and images by handles. The layout engine
//! never looks inside a handle or a document: it registers fonts and images
//! with the document, receives their handles, and passes these on in the
//! instructions that it emits.

use vstd::prelude::*;
use printpdf::{FontId, ParsedFont, PdfDocument, RawImage, XObjectId};

verus! {

/// `printpdf::FontId`, the name under which a document knows one of its
/// fonts.
#[verifier::external_type_specification]
#[verifier::external_body]
pub struct ExFontId(FontId);

/// `printpdf::XObjectId`, the name under which a document knows one of its
/// images.
#[verifier::external_type_specification]
#[verifier::external_body]
pub struct ExXObjectId(XObjectId);

/// `printpdf::ParsedFont`, a font as printpdf reads it from a font file.
#[verifier::external_type_specification]
#[verifier::external_body]
pub struct ExParsedFont(ParsedFont);

/// `printpdf::RawImage`, a decoded raster image.
#[verifier::external_type_specification]
#[verifier::external_body]
pub struct ExRawImage(RawImage);

/// `printpdf::PdfDocument`, a document with its resources and pages.
#[verifier::external_type_specification]
#[verifier::external_body]
pub struct ExPdfDocument(PdfDocument);

/// The title of a document.
pub uninterp spec fn document_title_of(doc: PdfDocument) -> Seq<char>;

/// The fonts that a document holds, each under its handle.
pub uninterp spec fn document_fonts(doc: PdfDocument) -> Map<FontId, ParsedFont>;

/// The images that a document holds, each under its handle.
pub uninterp spec fn document_images(doc: PdfDocument) -> Map<XObjectId, RawImage>;

/// What printpdf makes of the bytes of a font file: the font at the given
/// index of the file, where it can read one.
pub uninterp spec fn parsed_font(bytes: Seq<u8>, index: int) -> Option<ParsedFont>;

/// What printpdf makes of the bytes of an image file: the decoded image, or
/// the reason why it could not decode them.
pub uninterp spec fn decoded_image(bytes: Seq<u8>) -> Result<RawImage, Seq<char>>;

/// The fonts of a document without fonts.
pub open spec fn no_fonts() -> Map<FontId, ParsedFont> {
    Map::empty()
}

/// The images of a document without images.
pub open spec fn no_images() -> Map<XObjectId, RawImage> {
    Map::empty()
}

/// Whether `after` is `before` with the font put under the handle `id`.
pub open spec fn font_added(
    before: PdfDocument,
    after: PdfDocument,
    id: FontId,
    font: ParsedFont,
) -> bool {
    &&& document_fonts(after) == document_fonts(before).insert(id, font)
    &&& document_images(after) == document_images(before)
    &&& document_title_of(after) == document_title_of(before)
}

/// Whether `after` is `before` with the image put under the handle `id`.
pub open spec fn image_added(
    before: PdfDocument,
    after: PdfDocument,
    id: XObjectId,
    image: RawImage,
) -> bool {
    &&& document_images(after) == document_images(before).insert(id, image)
    &&& document_fonts(after) == document_fonts(before)
    &&& document_title_of(after) == document_title_of(before)
}

/// `FontId::clone`, which printpdf derives: the copy names the same font.
pub assume_specification[ <FontId as Clone>::clone ](id: &FontId) -> (copy: FontId)
    ensures
        copy == *id,
;

/// `XObjectId::clone`, which printpdf derives: the copy names the same
/// image.
pub assume_specification[ <XObjectId as Clone>::clone ](id: &XObjectId) -> (copy: XObjectId)
    ensures
        copy == *id,
;

/// `PdfDocument::new`: a document with the given title, without resources
/// or pages.
#[verifier::external_body]
pub(crate) fn new_document(title: &str) -> (doc: PdfDocument)
    ensures
        document_title_of(doc) == title@,
        document_fonts(doc) == no_fonts(),
        document_images(doc) == no_images(),
{
    PdfDocument::new(title)
}

/// `PdfDocument::add_font`: puts a copy of the font among the document's
/// fonts, under a handle that it makes up, and returns the handle.
#[verifier::external_body]
pub(crate) fn add_font(doc: &mut PdfDocument, font: &ParsedFont) -> (id: FontId)
    ensures
        font_added(*old(doc), *final(doc), id, *font),
{
    doc.add_font(font)
}

/// `PdfDocument::add_image`: puts a copy of the image among the document's
/// images, under a handle that it makes up, and returns the handle.
#[verifier::external_body]
pub(crate) fn add_image(doc: &mut PdfDocument, image: &RawImage) -> (id: XObjectId)
    ensures
        image_added(*old(doc), *final(doc), id, *image),
{
    doc.add_image(image)
}

/// `ParsedFont::from_bytes`: reads the font at the given index of a font
/// file.
#[verifier::external_body]
pub(crate) fn parse_font(bytes: &Vec<u8>, index: usize) -> (font: Option<ParsedFont>)
    ensures
        font == parsed_font(bytes@, index as int),
{
    ParsedFont::from_bytes(bytes, index, &mut Vec::new())
}

/// `RawImage::decode_from_bytes`: tells the format of an image from its
/// first bytes and decodes it.
#[verifier::external_body]
pub(crate) fn decode_from_bytes(bytes: &Vec<u8>) -> (image: Result<RawImage, String>)
    ensures
        match decoded_image(bytes@) {
            Ok(expected) => image == Ok::<RawImage, String>(expected),
            Err(reason) => image matches Err(given) && given@ == reason,
        },
{
    RawImage::decode_from_bytes(bytes, &mut Vec::new())
}

} // verus!
