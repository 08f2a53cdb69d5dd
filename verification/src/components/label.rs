//! Text labels.

use vstd::prelude::*;
use printpdf::{FontId, XObjectId};
use crate::components::table::{cells_within, rows_within};
use crate::components::{Component, Drawable, DrawableView, row_view, rows_view};
use crate::instruction::{
    Instruction,
    InstructionView,
    lemma_names_only_concat,
    lemma_text_closed_concat,
    names_only,
    text_closed,
    text_open_after,
    views,
};
use crate::text::{count_breaks, lemma_line_count, lines_of, split_lines, texts};
use crate::units::{clamp, half, halve, lowered};

verus! {

/// One or more lines of text in one font and size.
pub struct Label {
    /// The text; each line break in it starts a new line.
    pub value: String,
    /// The size of the font, in points.
    pub font_size: i64,
    /// The font to write with.
    pub font_id: FontId,
}

/// What a [`Label`] holds, as mathematical values.
pub struct LabelView {
    pub value: Seq<char>,
    pub font_size: int,
    pub font_id: FontId,
}

impl View for Label {
    type V = LabelView;

    open spec fn view(&self) -> LabelView {
        LabelView { value: self.value@, font_size: self.font_size as int, font_id: self.font_id }
    }
}

impl LabelView {
    /// The lines of the label's text.
    pub open spec fn lines(self) -> Seq<Seq<char>> {
        lines_of(self.value)
    }

    /// The distance between the base lines of two neighbouring lines: half
    /// the font size.
    pub open spec fn line_height(self) -> int {
        half(self.font_size)
    }

    /// The five instructions that draw line `i` of a label anchored at
    /// `(x, y)`: each line stands one line height below the one before it.
    pub open spec fn line_drawn_at(self, i: int, x: int, y: int) -> Seq<InstructionView> {
        seq![
            InstructionView::SetFont { size: self.font_size, font: self.font_id },
            InstructionView::BeginText,
            InstructionView::SetCursor { x, y: clamp(y - i * self.line_height()) },
            InstructionView::WriteText { text: self.lines()[i], font: self.font_id },
            InstructionView::EndText,
        ]
    }

    /// The instructions that draw the first `n` lines of the label.
    pub open spec fn lines_drawn_at(self, n: nat, x: int, y: int) -> Seq<InstructionView>
        decreases n,
    {
        if n == 0 {
            Seq::empty()
        } else {
            self.lines_drawn_at((n - 1) as nat, x, y) + self.line_drawn_at(n - 1, x, y)
        }
    }

    /// The instructions that draw the label with its anchor at `(x, y)`.
    pub open spec fn drawn_at(self, x: int, y: int) -> Seq<InstructionView> {
        self.lines_drawn_at(self.lines().len(), x, y)
    }
}

/// The first `n` lines of a label are drawn as `n` groups of five
/// instructions, the group of line `i` being the five that draw that line.
pub proof fn lemma_lines_drawn_in_groups(label: LabelView, n: nat, x: int, y: int)
    ensures
        label.lines_drawn_at(n, x, y).len() == 5 * n,
        forall|i: int|
            0 <= i < n ==> #[trigger] label.lines_drawn_at(n, x, y).subrange(5 * i, 5 * i + 5)
                == label.line_drawn_at(i, x, y),
    decreases n,
{
    if n > 0 {
        let before = label.lines_drawn_at((n - 1) as nat, x, y);
        let last = label.line_drawn_at(n - 1, x, y);
        let all = label.lines_drawn_at(n, x, y);
        lemma_lines_drawn_in_groups(label, (n - 1) as nat, x, y);
        assert(all.subrange(5 * (n - 1), 5 * (n - 1) + 5) =~= last);
        assert forall|i: int| 0 <= i < n implies #[trigger] all.subrange(5 * i, 5 * i + 5)
            == label.line_drawn_at(i, x, y) by {
            if i < n - 1 {
                assert(all.subrange(5 * i, 5 * i + 5) =~= before.subrange(5 * i, 5 * i + 5));
            }
        }
    }
}

/// A label whose text has `n` line breaks is drawn as `n + 1` groups of
/// five instructions, one group for each line in order, and as many
/// instructions wherever its anchor lies.
pub proof fn lemma_label_line_groups(label: LabelView, x: int, y: int, other_x: int, other_y: int)
    ensures
        label.lines().len() == count_breaks(label.value) + 1,
        label.drawn_at(x, y).len() == 5 * (count_breaks(label.value) + 1),
        forall|i: int|
            0 <= i <= count_breaks(label.value) ==> #[trigger] label.drawn_at(x, y).subrange(
                5 * i,
                5 * i + 5,
            ) == label.line_drawn_at(i, x, y),
        label.drawn_at(other_x, other_y).len() == label.drawn_at(x, y).len(),
{
    lemma_line_count(label.value);
    lemma_lines_drawn_in_groups(label, label.lines().len(), x, y);
    lemma_lines_drawn_in_groups(label, label.lines().len(), other_x, other_y);
}

/// While line `i` of a label stays within the range of positions, its five
/// instructions set the cursor exactly `i` line heights below the anchor.
pub proof fn lemma_label_line_in_range(label: LabelView, i: int, x: int, y: int)
    requires
        0 <= i < label.lines().len(),
        i64::MIN <= y - i * label.line_height() <= i64::MAX,
    ensures
        label.drawn_at(x, y).subrange(5 * i, 5 * i + 5) == seq![
            InstructionView::SetFont { size: label.font_size, font: label.font_id },
            InstructionView::BeginText,
            InstructionView::SetCursor { x, y: y - i * label.line_height() },
            InstructionView::WriteText { text: label.lines()[i], font: label.font_id },
            InstructionView::EndText,
        ],
{
    lemma_lines_drawn_in_groups(label, label.lines().len(), x, y);
}

/// The instructions that draw the first `n` lines of a label name no font
/// but the label's own, and no image.
proof fn lemma_lines_name_their_font(label: LabelView, n: nat, x: int, y: int)
    ensures
        names_only(
            label.lines_drawn_at(n, x, y),
            Set::<FontId>::empty().insert(label.font_id),
            Set::<XObjectId>::empty(),
        ),
    decreases n,
{
    if n > 0 {
        lemma_lines_name_their_font(label, (n - 1) as nat, x, y);
        let fonts = Set::<FontId>::empty().insert(label.font_id);
        let images = Set::<XObjectId>::empty();
        assert(names_only(label.line_drawn_at(n - 1, x, y), fonts, images));
        lemma_names_only_concat(
            label.lines_drawn_at((n - 1) as nat, x, y),
            label.line_drawn_at(n - 1, x, y),
            fonts,
            images,
        );
    }
}

/// The instructions that draw a label name no font but the label's own,
/// and no image.
pub proof fn lemma_label_names_its_font(label: LabelView, x: int, y: int)
    ensures
        names_only(
            label.drawn_at(x, y),
            Set::<FontId>::empty().insert(label.font_id),
            Set::<XObjectId>::empty(),
        ),
{
    lemma_lines_name_their_font(label, label.lines().len(), x, y);
}

/// The instructions that draw the first `n` lines of a label leave no block
/// of text open.
proof fn lemma_lines_close_text(label: LabelView, n: nat, x: int, y: int)
    ensures
        text_closed(label.lines_drawn_at(n, x, y)),
    decreases n,
{
    if n > 0 {
        lemma_lines_close_text(label, (n - 1) as nat, x, y);
        let line = label.line_drawn_at(n - 1, x, y);
        assert(text_closed(line)) by {
            reveal_with_fuel(text_open_after, 6);
        }
        lemma_text_closed_concat(label.lines_drawn_at((n - 1) as nat, x, y), line);
    }
}

/// The instructions that draw a label open a block of text for each line
/// and close it again: they leave no block of text open.
pub proof fn lemma_label_closes_text(label: LabelView, x: int, y: int)
    ensures
        text_closed(label.drawn_at(x, y)),
{
    lemma_lines_close_text(label, label.lines().len(), x, y);
}

/// The texts that a list of string slices holds, in order.
pub open spec fn slices(v: Seq<&str>) -> Seq<Seq<char>> {
    v.map_values(|s: &str| s@)
}

/// The texts that a list of rows of string slices holds, in order.
pub open spec fn slice_rows(v: Seq<Vec<&str>>) -> Seq<Seq<Seq<char>>> {
    v.map_values(|row: Vec<&str>| slices(row@))
}

/// A row of labels in one font and size, one label for each text.
pub open spec fn label_row(values: Seq<Seq<char>>, font_size: int, font_id: FontId) -> Seq<
    DrawableView,
> {
    Seq::new(
        values.len(),
        |i: int| DrawableView::Label(LabelView { value: values[i], font_size, font_id }),
    )
}

/// Rows of labels in one font and size, one row for each list of texts.
pub open spec fn label_rows(values: Seq<Seq<Seq<char>>>, font_size: int, font_id: FontId) -> Seq<
    Seq<DrawableView>,
> {
    Seq::new(values.len(), |i: int| label_row(values[i], font_size, font_id))
}

/// The labels of rows of labels in one font are written in that font.
pub proof fn lemma_label_rows_within(
    values: Seq<Seq<Seq<char>>>,
    font_size: int,
    font_id: FontId,
    fonts: Set<FontId>,
)
    requires
        fonts.contains(font_id),
    ensures
        rows_within(label_rows(values, font_size, font_id), fonts),
        forall|i: int|
            0 <= i < values.len() ==> cells_within(
                #[trigger] label_row(values[i], font_size, font_id),
                fonts,
            ),
{
}

impl Label {
    /// A label with the given text, font size and font.
    pub fn new(value: &str, font_size: i64, font_id: &FontId) -> (label: Label)
        ensures
            label@ == (LabelView { value: value@, font_size: font_size as int, font_id: *font_id }),
    {
        Label { value: value.to_owned(), font_size, font_id: font_id.clone() }
    }

    /// A row of labels, one for each text of `row`, all in the given font
    /// size and font.
    pub fn new_row(row: Vec<&str>, font_size: i64, font_id: &FontId) -> (labels: Vec<Drawable>)
        ensures
            row_view(labels@) == label_row(slices(row@), font_size as int, *font_id),
    {
        let mut label_row: Vec<Drawable> = Vec::new();
        let mut i: usize = 0;
        while i < row.len()
            invariant
                i <= row.len(),
                label_row.len() == i,
                forall|k: int|
                    0 <= k < i ==> label_row[k]@ == DrawableView::Label(
                        LabelView {
                            value: #[trigger] row[k]@,
                            font_size: font_size as int,
                            font_id: *font_id,
                        },
                    ),
            decreases row.len() - i,
        {
            label_row.push(Drawable::Label(Label::new(row[i], font_size, font_id)));
            i += 1;
        }
        assert(row_view(label_row@) =~= self::label_row(
            slices(row@),
            font_size as int,
            *font_id,
        ));
        label_row
    }

    /// Rows of labels, one row for each list of texts of `rows`, all in the
    /// given font size and font.
    pub fn new_rows(rows: Vec<Vec<&str>>, font_size: i64, font_id: &FontId) -> (labels: Vec<
        Vec<Drawable>,
    >)
        ensures
            rows_view(labels@) == label_rows(slice_rows(rows@), font_size as int, *font_id),
    {
        let mut labels: Vec<Vec<Drawable>> = Vec::new();
        let mut rows = rows;
        let ghost all = rows@;
        let mut i: usize = 0;
        while i < rows.len()
            invariant
                i <= rows.len(),
                rows@.len() == all.len(),
                forall|k: int| i <= k < rows.len() ==> rows[k] == all[k],
                labels.len() == i,
                forall|k: int|
                    0 <= k < i ==> row_view(#[trigger] labels[k]@) == label_row(
                        slices(all[k]@),
                        font_size as int,
                        *font_id,
                    ),
            decreases rows.len() - i,
        {
            let mut row: Vec<&str> = Vec::new();
            std::mem::swap(&mut row, &mut rows[i]);
            labels.push(Label::new_row(row, font_size, font_id));
            i += 1;
        }
        assert(rows_view(labels@) =~= label_rows(slice_rows(all), font_size as int, *font_id));
        labels
    }
}

impl Component for Label {
    open spec fn drawn_at(&self, x: int, y: int) -> Seq<InstructionView> {
        self@.drawn_at(x, y)
    }

    fn render_at(&self, x: i64, y: i64) -> (ops: Vec<Instruction>) {
        let mut ops: Vec<Instruction> = Vec::new();
        let lines = split_lines(self.value.as_str());
        let line_height = halve(self.font_size);
        let mut index: usize = 0;
        while index < lines.len()
            invariant
                index <= lines.len(),
                texts(lines@) == self@.lines(),
                line_height == self@.line_height(),
                views(ops@) == self@.lines_drawn_at(index as nat, x as int, y as int),
            decreases lines.len() - index,
        {
            let ghost before = ops@;
            let current_y = lowered(y, 0, line_height, index);
            ops.push(Instruction::SetFont { size: self.font_size, font: self.font_id.clone() });
            ops.push(Instruction::BeginText);
            ops.push(Instruction::SetCursor { x, y: current_y });
            ops.push(
                Instruction::WriteText { text: lines[index].clone(), font: self.font_id.clone() },
            );
            ops.push(Instruction::EndText);
            proof {
                assert(texts(lines@)[index as int] == lines[index as int]@);
                assert(views(ops@) =~= views(before) + self@.line_drawn_at(
                    index as int,
                    x as int,
                    y as int,
                ));
            }
            index += 1;
        }
        ops
    }
}

} // verus!
