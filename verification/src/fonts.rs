//! The fonts of an invoice: a regular and a bold one, each the first of a
//! list of candidates that can be read and parsed.

use vstd::prelude::*;
use printpdf::{FontId, ParsedFont, PdfDocument};
use crate::error::RenderError;
use crate::pdf::{
    add_font,
    document_fonts,
    document_images,
    document_title_of,
    font_added,
    parse_font,
    parsed_font,
};
use crate::text::texts;

verus! {

/// The names of the candidates for the regular font, in order of
/// preference.
pub open spec fn regular_candidates() -> Seq<&'static str> {
    seq![
        "Helvetica",
        "Arial",
        "DejaVu Sans",
        "Liberation Sans",
        "FreeSans",
        "Ubuntu",
        "Noto Sans",
    ]
}

/// The names of the candidates for the bold font, in order of preference:
/// the bold cut of each candidate for the regular font.
pub open spec fn bold_candidates() -> Seq<&'static str> {
    seq![
        "Helvetica-Bold",
        "Arial-Bold",
        "DejaVu Sans-Bold",
        "Liberation Sans-Bold",
        "FreeSans-Bold",
        "Ubuntu-Bold",
        "Noto Sans-Bold",
    ]
}

/// The texts of a list of names.
pub open spec fn names_text(names: Seq<&'static str>) -> Seq<Seq<char>> {
    names.map_values(|name: &'static str| name@)
}

/// The name of each candidate for the bold font is the name of the
/// candidate for the regular font at the same place, followed by `-Bold`.
pub proof fn lemma_bold_candidates()
    ensures
        bold_candidates().len() == regular_candidates().len(),
        forall|i: int|
            0 <= i < regular_candidates().len() ==> (#[trigger] bold_candidates()[i])@
                == regular_candidates()[i]@ + "-Bold"@,
{
    reveal_strlit("-Bold");
    reveal_strlit("Helvetica");
    reveal_strlit("Arial");
    reveal_strlit("DejaVu Sans");
    reveal_strlit("Liberation Sans");
    reveal_strlit("FreeSans");
    reveal_strlit("Ubuntu");
    reveal_strlit("Noto Sans");
    reveal_strlit("Helvetica-Bold");
    reveal_strlit("Arial-Bold");
    reveal_strlit("DejaVu Sans-Bold");
    reveal_strlit("Liberation Sans-Bold");
    reveal_strlit("FreeSans-Bold");
    reveal_strlit("Ubuntu-Bold");
    reveal_strlit("Noto Sans-Bold");
    assert forall|i: int| 0 <= i < regular_candidates().len() implies (
    #[trigger] bold_candidates()[i])@ == regular_candidates()[i]@ + "-Bold"@ by {
        assert(bold_candidates()[i]@ =~= regular_candidates()[i]@ + "-Bold"@);
    }
}

/// The font in what a reader gave for a name: the first font of the file
/// whose bytes it gave, where it gave any and they can be parsed.
pub open spec fn font_in(outcome: Option<Vec<u8>>) -> Option<ParsedFont> {
    match outcome {
        Some(bytes) => parsed_font(bytes@, 0),
        None => None,
    }
}

/// Whether `font` is the font in what the reader gave for the name.
pub open spec fn reads_font<F: Fn(&str) -> Option<Vec<u8>>>(
    read: F,
    name: &str,
    font: Option<ParsedFont>,
) -> bool {
    exists|outcome: Option<Vec<u8>>| #[trigger]
        read.ensures((name,), outcome) && font_in(outcome) == font
}

/// Whether the reader gave no font for any of the names.
pub open spec fn loads_none<F: Fn(&str) -> Option<Vec<u8>>>(
    read: F,
    names: Seq<&'static str>,
) -> bool {
    forall|j: int| 0 <= j < names.len() ==> reads_font(read, #[trigger] names[j], None)
}

/// Whether the reader gave `font` for one of the names and no font for any
/// of the names before that one.
pub open spec fn loads_first<F: Fn(&str) -> Option<Vec<u8>>>(
    read: F,
    names: Seq<&'static str>,
    font: ParsedFont,
) -> bool {
    exists|i: int|
        0 <= i < names.len() && reads_font(read, #[trigger] names[i], Some(font)) && loads_none(
            read,
            names.take(i),
        )
}

/// Whether the reader gave a regular and a bold font: for each, a font for
/// one of the candidates and none for the candidates before it.
pub open spec fn fonts_found<F: Fn(&str) -> Option<Vec<u8>>>(read: F) -> bool {
    &&& exists|font: ParsedFont| loads_first(read, regular_candidates(), font)
    &&& exists|font: ParsedFont| loads_first(read, bold_candidates(), font)
}

/// Whether the reader gave no font for any candidate of one of the two
/// fonts, the regular font coming first, and `tried` names those
/// candidates.
pub open spec fn fonts_missing<F: Fn(&str) -> Option<Vec<u8>>>(
    read: F,
    tried: Seq<Seq<char>>,
) -> bool {
    ||| loads_none(read, regular_candidates()) && tried == names_text(regular_candidates())
    ||| {
        &&& exists|font: ParsedFont| loads_first(read, regular_candidates(), font)
        &&& loads_none(read, bold_candidates())
        &&& tried == names_text(bold_candidates())
    }
}

/// Whether `after` is `before` with the font that the reader gave, the
/// first of the named ones, put under the handle `id`.
pub open spec fn font_loaded<F: Fn(&str) -> Option<Vec<u8>>>(
    read: F,
    names: Seq<&'static str>,
    before: PdfDocument,
    after: PdfDocument,
    id: FontId,
) -> bool {
    exists|font: ParsedFont|
        loads_first(read, names, font) && #[trigger] font_added(before, after, id, font)
}

/// Whether `after` is `before` with the regular and the bold font that the
/// reader gave, each the first of its candidates, put under the handles
/// `regular` and `bold`.
pub open spec fn fonts_loaded<F: Fn(&str) -> Option<Vec<u8>>>(
    read: F,
    before: PdfDocument,
    after: PdfDocument,
    regular: FontId,
    bold: FontId,
) -> bool {
    &&& exists|regular_font: ParsedFont, bold_font: ParsedFont|
        {
            &&& loads_first(read, regular_candidates(), regular_font)
            &&& loads_first(read, bold_candidates(), bold_font)
            &&& #[trigger] document_fonts(before).insert(regular, regular_font).insert(
                bold,
                bold_font,
            ) == document_fonts(after)
        }
    &&& document_images(after) == document_images(before)
    &&& document_title_of(after) == document_title_of(before)
}

/// The names of the candidates for the regular font.
pub fn font_names() -> (names: Vec<&'static str>)
    ensures
        names@ == regular_candidates(),
{
    let names = vec![
        "Helvetica",
        "Arial",
        "DejaVu Sans",
        "Liberation Sans",
        "FreeSans",
        "Ubuntu",
        "Noto Sans",
    ];
    assert(names@ =~= regular_candidates());
    names
}

/// The names of the candidates for the bold font.
pub fn bold_font_names() -> (names: Vec<&'static str>)
    ensures
        names@ == bold_candidates(),
{
    let names = vec![
        "Helvetica-Bold",
        "Arial-Bold",
        "DejaVu Sans-Bold",
        "Liberation Sans-Bold",
        "FreeSans-Bold",
        "Ubuntu-Bold",
        "Noto Sans-Bold",
    ];
    assert(names@ =~= bold_candidates());
    names
}

/// Owned copies of a list of names.
fn owned_names(names: &Vec<&'static str>) -> (owned: Vec<String>)
    ensures
        texts(owned@) == names_text(names@),
{
    let mut owned: Vec<String> = Vec::new();
    let mut i: usize = 0;
    while i < names.len()
        invariant
            i <= names.len(),
            owned.len() == i,
            forall|k: int| 0 <= k < i ==> (#[trigger] owned[k])@ == names[k]@,
        decreases names.len() - i,
    {
        owned.push(names[i].to_owned());
        i += 1;
    }
    assert(texts(owned@) =~= names_text(names@));
    owned
}

/// The regular and the bold font of a document.
pub struct FontManager {
    regular_font: FontId,
    bold_font: FontId,
}

impl FontManager {
    /// The handle of the regular font.
    pub closed spec fn regular(self) -> FontId {
        self.regular_font
    }

    /// The handle of the bold font.
    pub closed spec fn bold(self) -> FontId {
        self.bold_font
    }

    /// Finds the regular and the bold font and adds them to the document.
    ///
    /// For each of the two, the reader is asked for the font files of the
    /// candidates in order, and the first font that can be parsed is
    /// taken. Fails, naming the candidates, as soon as there is no font for
    /// any candidate of one of the two.
    pub fn initialize<F: Fn(&str) -> Option<Vec<u8>>>(doc: &mut PdfDocument, read: &F) -> (found:
        Result<FontManager, RenderError>)
        requires
            forall|name: &str| read.requires((name,)),
        ensures
            match found {
                Ok(fonts) => fonts_loaded(
                    *read,
                    *old(doc),
                    *final(doc),
                    fonts.regular(),
                    fonts.bold(),
                ),
                Err(RenderError::FontUnavailable { tried }) => {
                    &&& fonts_missing(*read, texts(tried@))
                    &&& document_images(*final(doc)) == document_images(*old(doc))
                    &&& document_title_of(*final(doc)) == document_title_of(*old(doc))
                },
                Err(_) => false,
            },
    {
        let font_names = font_names();
        let bold_font_names = bold_font_names();
        let regular_font = match Self::load_system_font(doc, &font_names, read) {
            Ok(id) => id,
            Err(e) => { return Err(e); },
        };
        let bold_font = match Self::load_system_font(doc, &bold_font_names, read) {
            Ok(id) => id,
            Err(e) => { return Err(e); },
        };
        Ok(FontManager { regular_font, bold_font })
    }

    /// Finds the first of the named fonts that can be read and parsed, and
    /// adds it to the document; the handle returned is that font's.
    ///
    /// The reader is asked for the font file of each name in order, until
    /// the bytes that it gives can be parsed as a font. Fails, naming the
    /// candidates and leaving the document as it was, where that is so for
    /// none of the names.
    pub fn load_system_font<F: Fn(&str) -> Option<Vec<u8>>>(
        doc: &mut PdfDocument,
        font_names: &Vec<&'static str>,
        read: &F,
    ) -> (found: Result<FontId, RenderError>)
        requires
            forall|name: &str| read.requires((name,)),
        ensures
            match found {
                Ok(id) => font_loaded(*read, font_names@, *old(doc), *final(doc), id),
                Err(RenderError::FontUnavailable { tried }) => {
                    &&& loads_none(*read, font_names@)
                    &&& texts(tried@) == names_text(font_names@)
                    &&& *final(doc) == *old(doc)
                },
                Err(_) => false,
            },
    {
        let mut i: usize = 0;
        while i < font_names.len()
            invariant
                i <= font_names.len(),
                forall|name: &str| read.requires((name,)),
                loads_none(*read, font_names@.take(i as int)),
                *doc == *old(doc),
            decreases font_names.len() - i,
        {
            let outcome = read(font_names[i]);
            let parsed = match &outcome {
                Some(font_bytes) => parse_font(font_bytes, 0),
                None => None,
            };
            assert(reads_font(*read, font_names@[i as int], parsed)) by {
                assert(read.ensures((font_names@[i as int],), outcome));
                assert(font_in(outcome) == parsed);
            }
            match parsed {
                Some(parsed_font) => {
                    assert(loads_first(*read, font_names@, parsed_font));
                    let id = add_font(doc, &parsed_font);
                    assert(font_added(*old(doc), *doc, id, parsed_font));
                    assert(font_loaded(*read, font_names@, *old(doc), *doc, id));
                    return Ok(id);
                },
                None => {
                    assert forall|j: int| 0 <= j < i + 1 implies reads_font(
                        *read,
                        #[trigger] font_names@.take(i + 1)[j],
                        None,
                    ) by {
                        if j < i {
                            assert(font_names@.take(i as int)[j] == font_names@.take(i + 1)[j]);
                        }
                    }
                },
            }
            i += 1;
        }
        assert(font_names@.take(i as int) =~= font_names@);
        Err(RenderError::FontUnavailable { tried: owned_names(font_names) })
    }

    /// The handle of the regular font.
    pub fn regular_font(&self) -> (id: FontId)
        ensures
            id == self.regular(),
    {
        self.regular_font.clone()
    }

    /// The handle of the bold font.
    pub fn bold_font(&self) -> (id: FontId)
        ensures
            id == self.bold(),
    {
        self.bold_font.clone()
    }
}

} // verus!
