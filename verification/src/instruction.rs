//! The drawing instructions that rendering produces.

use vstd::prelude::*;
use printpdf::{FontId, XObjectId};

verus! {

/// One drawing command of a page's content.
///
/// Instructions take effect in the order in which they stand: a `WriteText`
/// draws with the font and at the cursor that the instructions before it
/// have set.
#[derive(Clone, Debug, PartialEq, Eq)]
pub enum Instruction {
    /// Selects the font and its size (in points) for the text that follows.
    SetFont { size: i64, font: FontId },
    /// Opens a block of text.
    BeginText,
    /// Moves the text cursor to a position on the page (in millimetres).
    SetCursor { x: i64, y: i64 },
    /// Writes one line of text at the cursor.
    WriteText { text: String, font: FontId },
    /// Closes the block of text.
    EndText,
    /// Sets the thickness (in points) of the lines that follow.
    SetStrokeWidth { width: i64 },
    /// Strokes a straight line between two positions (in millimetres).
    DrawLine { from_x: i64, from_y: i64, to_x: i64, to_y: i64 },
    /// Paints an image, moved by `translate_x` and `translate_y` (in points)
    /// and scaled by `scale_x` and `scale_y`, at a resolution of `dpi` dots
    /// per inch.
    PlaceImage {
        image: XObjectId,
        translate_x: i64,
        translate_y: i64,
        scale_x: i64,
        scale_y: i64,
        dpi: i64,
    },
}

/// What an [`Instruction`] says, with its text as a sequence of characters.
pub enum InstructionView {
    SetFont { size: int, font: FontId },
    BeginText,
    SetCursor { x: int, y: int },
    WriteText { text: Seq<char>, font: FontId },
    EndText,
    SetStrokeWidth { width: int },
    DrawLine { from_x: int, from_y: int, to_x: int, to_y: int },
    PlaceImage {
        image: XObjectId,
        translate_x: int,
        translate_y: int,
        scale_x: int,
        scale_y: int,
        dpi: int,
    },
}

impl View for Instruction {
    type V = InstructionView;

    open spec fn view(&self) -> InstructionView {
        match *self {
            Instruction::SetFont { size, font } => InstructionView::SetFont {
                size: size as int,
                font,
            },
            Instruction::BeginText => InstructionView::BeginText,
            Instruction::SetCursor { x, y } => InstructionView::SetCursor {
                x: x as int,
                y: y as int,
            },
            Instruction::WriteText { text, font } => InstructionView::WriteText {
                text: text@,
                font,
            },
            Instruction::EndText => InstructionView::EndText,
            Instruction::SetStrokeWidth { width } => InstructionView::SetStrokeWidth {
                width: width as int,
            },
            Instruction::DrawLine { from_x, from_y, to_x, to_y } => InstructionView::DrawLine {
                from_x: from_x as int,
                from_y: from_y as int,
                to_x: to_x as int,
                to_y: to_y as int,
            },
            Instruction::PlaceImage {
                image,
                translate_x,
                translate_y,
                scale_x,
                scale_y,
                dpi,
            } => InstructionView::PlaceImage {
                image,
                translate_x: translate_x as int,
                translate_y: translate_y as int,
                scale_x: scale_x as int,
                scale_y: scale_y as int,
                dpi: dpi as int,
            },
        }
    }
}

impl InstructionView {
    /// Whether the font or image that the instruction names, if it names
    /// one, is among the given fonts and images.
    pub open spec fn within(self, fonts: Set<FontId>, images: Set<XObjectId>) -> bool {
        match self {
            InstructionView::SetFont { font, .. } => fonts.contains(font),
            InstructionView::WriteText { font, .. } => fonts.contains(font),
            InstructionView::PlaceImage { image, .. } => images.contains(image),
            _ => true,
        }
    }
}

/// Whether the instructions name no font and no image but the given ones.
pub open spec fn names_only(
    ops: Seq<InstructionView>,
    fonts: Set<FontId>,
    images: Set<XObjectId>,
) -> bool {
    forall|i: int| 0 <= i < ops.len() ==> (#[trigger] ops[i]).within(fonts, images)
}

/// Instructions that name only the given fonts and images, followed by
/// more such instructions, name only the given fonts and images.
pub proof fn lemma_names_only_concat(
    a: Seq<InstructionView>,
    b: Seq<InstructionView>,
    fonts: Set<FontId>,
    images: Set<XObjectId>,
)
    requires
        names_only(a, fonts, images),
        names_only(b, fonts, images),
    ensures
        names_only(a + b, fonts, images),
{
    assert forall|i: int| 0 <= i < (a + b).len() implies (#[trigger] (a + b)[i]).within(
        fonts,
        images,
    ) by {
        if i < a.len() {
            assert((a + b)[i] == a[i]);
        } else {
            assert((a + b)[i] == b[i - a.len()]);
        }
    }
}

/// Instructions that name only some of the given fonts and images name
/// only the given fonts and images.
pub proof fn lemma_names_only_more(
    ops: Seq<InstructionView>,
    fonts: Set<FontId>,
    images: Set<XObjectId>,
    more_fonts: Set<FontId>,
    more_images: Set<XObjectId>,
)
    requires
        names_only(ops, fonts, images),
        fonts.subset_of(more_fonts),
        images.subset_of(more_images),
    ensures
        names_only(ops, more_fonts, more_images),
{
    assert forall|i: int| 0 <= i < ops.len() implies (#[trigger] ops[i]).within(
        more_fonts,
        more_images,
    ) by {
        assert(ops[i].within(fonts, images));
    }
}

/// Whether a block of text is open after the first `n` of the
/// instructions. There is no answer where these are out of order: where a
/// block is opened inside a block or closed outside one, or where the
/// cursor is set or text is written outside a block.
pub open spec fn text_open_after(ops: Seq<InstructionView>, n: nat) -> Option<bool>
    decreases n,
{
    if n == 0 {
        Some(false)
    } else {
        match text_open_after(ops, (n - 1) as nat) {
            Some(open) => match ops[n - 1] {
                InstructionView::BeginText => if open {
                    None
                } else {
                    Some(true)
                },
                InstructionView::EndText => if open {
                    Some(false)
                } else {
                    None
                },
                InstructionView::SetCursor { .. } => if open {
                    Some(true)
                } else {
                    None
                },
                InstructionView::WriteText { .. } => if open {
                    Some(true)
                } else {
                    None
                },
                _ => Some(open),
            },
            None => None,
        }
    }
}

/// Whether the instructions are in order as far as blocks of text go and
/// leave none open: whatever follows them starts outside any block.
pub open spec fn text_closed(ops: Seq<InstructionView>) -> bool {
    text_open_after(ops, ops.len()) == Some(false)
}

proof fn lemma_text_open_after_start(a: Seq<InstructionView>, b: Seq<InstructionView>, n: nat)
    requires
        n <= a.len(),
    ensures
        text_open_after(a + b, n) == text_open_after(a, n),
    decreases n,
{
    if n > 0 {
        lemma_text_open_after_start(a, b, (n - 1) as nat);
        assert((a + b)[n - 1] == a[n - 1]);
    }
}

proof fn lemma_text_open_after_rest(a: Seq<InstructionView>, b: Seq<InstructionView>, n: nat)
    requires
        text_closed(a),
        n <= b.len(),
    ensures
        text_open_after(a + b, a.len() + n) == text_open_after(b, n),
    decreases n,
{
    if n == 0 {
        lemma_text_open_after_start(a, b, a.len());
    } else {
        lemma_text_open_after_rest(a, b, (n - 1) as nat);
        assert((a + b)[a.len() + n - 1] == b[n - 1]);
    }
}

/// Instructions that leave no block of text open, followed by more such
/// instructions, leave no block of text open.
pub proof fn lemma_text_closed_concat(a: Seq<InstructionView>, b: Seq<InstructionView>)
    requires
        text_closed(a),
        text_closed(b),
    ensures
        text_closed(a + b),
{
    lemma_text_open_after_rest(a, b, b.len());
}

/// The views of a list of instructions, in order.
pub open spec fn views(ops: Seq<Instruction>) -> Seq<InstructionView> {
    ops.map_values(|op: Instruction| op@)
}

/// Viewing a list of instructions one by one goes along with concatenation.
pub proof fn lemma_views_concat(a: Seq<Instruction>, b: Seq<Instruction>)
    ensures
        views(a + b) == views(a) + views(b),
{
    assert(views(a + b) =~= views(a) + views(b));
}

/// Appends `more` to `ops`.
pub fn extend(ops: &mut Vec<Instruction>, more: Vec<Instruction>)
    ensures
        final(ops)@ == old(ops)@ + more@,
        views(final(ops)@) == views(old(ops)@) + views(more@),
{
    let mut more = more;
    proof {
        lemma_views_concat(ops@, more@);
    }
    ops.append(&mut more);
}

} // verus!
