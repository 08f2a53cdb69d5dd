//! Tables of components.

use vstd::prelude::*;
use printpdf::{FontId, XObjectId};
use crate::components::label::{lemma_label_closes_text, lemma_label_names_its_font};
use crate::components::{Component, Drawable, DrawableView, row_view, rows_view};
use crate::instruction::{
    Instruction,
    InstructionView,
    extend,
    lemma_names_only_concat,
    lemma_names_only_more,
    lemma_text_closed_concat,
    names_only,
    text_closed,
    text_open_after,
    views,
};
use crate::units::{advanced, clamp, half, halve, lowered, narrow};

verus! {

/// The thickness of the rule under a table's header, in points.
pub const RULE_WIDTH: i64 = 400;

/// Components laid out in columns of fixed widths and rows of one height,
/// with an optional header row that a horizontal rule sets off.
pub struct Table {
    /// The width of each column, in millimetres.
    pub column_widths: Vec<i64>,
    /// The height of each row, in millimetres.
    pub row_height: i64,
    /// The cells of the header row, if the table has one.
    pub header: Option<Vec<Drawable>>,
    /// The cells of each body row.
    pub rows: Vec<Vec<Drawable>>,
}

/// What a [`Table`] holds, as mathematical values.
pub struct TableView {
    pub column_widths: Seq<int>,
    pub row_height: int,
    pub header: Option<Seq<DrawableView>>,
    pub rows: Seq<Seq<DrawableView>>,
}

/// The widths of a table's columns as mathematical integers.
pub open spec fn widths_view(widths: Seq<i64>) -> Seq<int> {
    widths.map_values(|w: i64| w as int)
}

/// The view of a table.
pub open spec fn table_view(t: Table) -> TableView
    decreases t,
{
    TableView {
        column_widths: widths_view(t.column_widths@),
        row_height: t.row_height as int,
        header: match t.header {
            Some(cells) => Some(row_view(cells@)),
            None => None,
        },
        rows: rows_view(t.rows@),
    }
}

impl View for Table {
    type V = TableView;

    open spec fn view(&self) -> TableView {
        table_view(*self)
    }
}

/// The sum of the first `k` widths.
pub open spec fn width_before(widths: Seq<int>, k: nat) -> int
    decreases k,
{
    if k == 0 {
        0
    } else {
        width_before(widths, (k - 1) as nat) + widths[k - 1]
    }
}

/// The number of cells of a row that are drawn: a cell needs a column, and
/// the cells beyond the last column are left out.
pub open spec fn cells_shown(widths: Seq<int>, row: Seq<DrawableView>) -> nat {
    if row.len() <= widths.len() {
        row.len()
    } else {
        widths.len()
    }
}

/// The instructions that draw the first `n` cells of a row that starts at
/// `(x, y)`: each cell is anchored where its column begins.
pub open spec fn cells_drawn_at(
    widths: Seq<int>,
    row: Seq<DrawableView>,
    n: nat,
    x: int,
    y: int,
) -> Seq<InstructionView>
    decreases row, n,
    when n <= row.len()
{
    if n == 0 {
        Seq::empty()
    } else {
        cells_drawn_at(widths, row, (n - 1) as nat, x, y) + row[n - 1].drawn_at(
            clamp(x + width_before(widths, (n - 1) as nat)),
            y,
        )
    }
}

/// The instructions that draw a row that starts at `(x, y)`.
pub open spec fn row_drawn_at(widths: Seq<int>, row: Seq<DrawableView>, x: int, y: int) -> Seq<
    InstructionView,
>
    decreases row, row.len() + 1,
{
    cells_drawn_at(widths, row, cells_shown(widths, row), x, y)
}

/// The instructions that draw the first `n` of the rows, where the first row
/// starts at `(x, top)` and each row starts one row height below the row
/// before it.
pub open spec fn rows_drawn_at(
    widths: Seq<int>,
    row_height: int,
    rows: Seq<Seq<DrawableView>>,
    n: nat,
    x: int,
    top: int,
) -> Seq<InstructionView>
    decreases rows, n,
    when n <= rows.len()
{
    if n == 0 {
        Seq::empty()
    } else {
        rows_drawn_at(widths, row_height, rows, (n - 1) as nat, x, top) + row_drawn_at(
            widths,
            rows[n - 1],
            x,
            clamp(top - (n - 1) * row_height),
        )
    }
}

/// Whether every label among the cells is written in one of the given
/// fonts.
pub open spec fn cells_within(cells: Seq<DrawableView>, fonts: Set<FontId>) -> bool
    decreases cells,
{
    forall|k: int| 0 <= k < cells.len() ==> (#[trigger] cells[k]).fonts_within(fonts)
}

/// Whether every label among the rows is written in one of the given
/// fonts.
pub open spec fn rows_within(rows: Seq<Seq<DrawableView>>, fonts: Set<FontId>) -> bool
    decreases rows,
{
    forall|r: int| 0 <= r < rows.len() ==> cells_within(#[trigger] rows[r], fonts)
}

impl TableView {
    /// Whether every label of the table is written in one of the given
    /// fonts.
    pub open spec fn fonts_within(self, fonts: Set<FontId>) -> bool
        decreases self,
    {
        &&& self.header matches Some(cells) ==> cells_within(cells, fonts)
        &&& rows_within(self.rows, fonts)
    }

    /// The width of the whole table: the sum of the widths of its columns.
    pub open spec fn total_width(self) -> int {
        width_before(self.column_widths, self.column_widths.len())
    }

    /// The room that the header row takes: its own height and half a row
    /// more for the rule under it.
    pub open spec fn header_height(self) -> int {
        self.row_height + half(self.row_height)
    }

    /// The two instructions that draw the rule under a header row that
    /// starts at `(x, y)`: over the whole width of the table, half a row
    /// below `y`.
    pub open spec fn rule_drawn_at(self, x: int, y: int) -> Seq<InstructionView> {
        seq![
            InstructionView::SetStrokeWidth { width: RULE_WIDTH as int },
            InstructionView::DrawLine {
                from_x: x,
                from_y: clamp(y - half(self.row_height)),
                to_x: clamp(x + self.total_width()),
                to_y: clamp(y - half(self.row_height)),
            },
        ]
    }

    /// The instructions that draw the header row and its rule, if the table
    /// has a header.
    pub open spec fn header_drawn_at(self, x: int, y: int) -> Seq<InstructionView>
        decreases self, 0nat,
    {
        match self.header {
            Some(cells) => row_drawn_at(self.column_widths, cells, x, y) + self.rule_drawn_at(x, y),
            None => Seq::empty(),
        }
    }

    /// Where the first body row starts, for a table anchored at height `y`.
    pub open spec fn body_top(self, y: int) -> int {
        if self.header is Some {
            y - self.header_height()
        } else {
            y
        }
    }

    /// Where body row `r` would start, for a table anchored at height `y`,
    /// if positions had no bounds.
    pub open spec fn row_start(self, r: nat, y: int) -> int {
        self.body_top(y) - r * self.row_height
    }

    /// Where body row `r` starts, for a table anchored at height `y`.
    pub open spec fn row_top(self, r: nat, y: int) -> int {
        clamp(self.row_start(r, y))
    }

    /// The instructions that draw the first `n` body rows of a table
    /// anchored at `(x, y)`.
    pub open spec fn body_drawn_at(self, n: nat, x: int, y: int) -> Seq<InstructionView>
        decreases self, 0nat,
    {
        rows_drawn_at(self.column_widths, self.row_height, self.rows, n, x, self.body_top(y))
    }

    /// The instructions that draw the table with its anchor at `(x, y)`:
    /// the header row and its rule, then the body rows from the top down.
    pub open spec fn drawn_at(self, x: int, y: int) -> Seq<InstructionView>
        decreases self, 1nat,
    {
        self.header_drawn_at(x, y) + self.body_drawn_at(self.rows.len(), x, y)
    }
}

/// A table without a header and without rows draws nothing.
pub proof fn lemma_empty_table_draws_nothing(table: TableView, x: int, y: int)
    requires
        table.header is None,
        table.rows.len() == 0,
    ensures
        table.drawn_at(x, y) == Seq::<InstructionView>::empty(),
{
    assert(table.drawn_at(x, y) =~= Seq::<InstructionView>::empty());
}

/// A table is drawn as its header row and the two instructions of the
/// rule, where it has a header, and then one block for each body row in
/// order. As long as the first and the last row start within the range of
/// positions, each row starts exactly one row height below the row before
/// it. The first row starts at the anchor where there is no header, and
/// else one and a half row heights below it: a whole row and the half of
/// it, which is exactly one and a half where the row height is even.
pub proof fn lemma_table_layout(table: TableView, x: int, y: int)
    requires
        table.rows.len() > 0 ==> i64::MIN <= table.row_start(0, y) <= i64::MAX,
        table.rows.len() > 0 ==> i64::MIN <= table.row_start((table.rows.len() - 1) as nat, y)
            <= i64::MAX,
    ensures
        table.header is Some ==> table.drawn_at(x, y) == row_drawn_at(
            table.column_widths,
            table.header->0,
            x,
            y,
        ) + table.rule_drawn_at(x, y) + table.body_drawn_at(table.rows.len(), x, y),
        table.header is None ==> table.drawn_at(x, y) == table.body_drawn_at(
            table.rows.len(),
            x,
            y,
        ),
        table.rule_drawn_at(x, y).len() == 2,
        forall|r: int|
            0 <= r < table.rows.len() ==> #[trigger] table.body_drawn_at((r + 1) as nat, x, y)
                == table.body_drawn_at(r as nat, x, y) + row_drawn_at(
                table.column_widths,
                table.rows[r],
                x,
                table.row_top(r as nat, y),
            ),
        forall|r: int|
            0 <= r < table.rows.len() ==> #[trigger] table.row_top(r as nat, y) == table.body_top(
                y,
            ) - r * table.row_height,
        table.header is None ==> table.body_top(y) == y,
        table.header is Some ==> table.body_top(y) == y - table.row_height - half(
            table.row_height,
        ),
        table.header is Some && table.row_height % 2 == 0 ==> 2 * (y - table.body_top(y)) == 3
            * table.row_height,
        forall|r: int|
            0 < r < table.rows.len() ==> #[trigger] table.row_top(r as nat, y) == table.row_top(
                (r - 1) as nat,
                y,
            ) - table.row_height,
{
    let height = table.row_height;
    let last = table.rows.len() - 1;
    assert(table.drawn_at(x, y) =~= table.header_drawn_at(x, y) + table.body_drawn_at(
        table.rows.len(),
        x,
        y,
    ));
    assert forall|r: int| 0 <= r <= last implies #[trigger] table.row_top(r as nat, y)
        == table.row_start(r as nat, y) by {
        assert((0 <= r * height <= last * height) || (last * height <= r * height <= 0))
            by (nonlinear_arith)
            requires
                0 <= r <= last,
        ;
    }
    assert forall|r: int| 0 < r < table.rows.len() implies #[trigger] table.row_top(r as nat, y)
        == table.row_top((r - 1) as nat, y) - table.row_height by {
        assert((r - 1) * height == r * height - height) by (nonlinear_arith);
    }
}

/// While the rule under a header stays within the range of positions, it
/// is one line of the fixed thickness, half a row below the anchor, from
/// the anchor to the right over the sum of the widths of all columns.
pub proof fn lemma_rule_in_range(table: TableView, x: int, y: int)
    requires
        i64::MIN <= y - half(table.row_height) <= i64::MAX,
        i64::MIN <= x + table.total_width() <= i64::MAX,
    ensures
        table.rule_drawn_at(x, y) == seq![
            InstructionView::SetStrokeWidth { width: 400 },
            InstructionView::DrawLine {
                from_x: x,
                from_y: y - half(table.row_height),
                to_x: x + table.total_width(),
                to_y: y - half(table.row_height),
            },
        ],
{
}

/// Each cell of a row that is drawn is anchored at the height of the row
/// and, as long as that stays within the range of positions, at the sum of
/// the widths of the columns before it to the right of the row's start.
pub proof fn lemma_cells_anchored(widths: Seq<int>, row: Seq<DrawableView>, x: int, y: int)
    requires
        forall|k: int|
            0 <= k < cells_shown(widths, row) ==> i64::MIN <= x + #[trigger] width_before(
                widths,
                k as nat,
            ) <= i64::MAX,
    ensures
        row_drawn_at(widths, row, x, y) == cells_drawn_at(
            widths,
            row,
            cells_shown(widths, row),
            x,
            y,
        ),
        cells_drawn_at(widths, row, 0, x, y) == Seq::<InstructionView>::empty(),
        forall|k: int|
            0 <= k < cells_shown(widths, row) ==> #[trigger] cells_drawn_at(
                widths,
                row,
                (k + 1) as nat,
                x,
                y,
            ) == cells_drawn_at(widths, row, k as nat, x, y) + row[k].drawn_at(
                x + width_before(widths, k as nat),
                y,
            ),
{
}

/// A row with no more cells than the table has columns is drawn whole:
/// each cell in order, anchored at the sum of the widths of the columns
/// before it, as long as that stays within the range of positions.
pub proof fn lemma_short_row_drawn_whole(
    widths: Seq<int>,
    row: Seq<DrawableView>,
    x: int,
    y: int,
)
    requires
        row.len() <= widths.len(),
        forall|k: int|
            0 <= k < row.len() ==> i64::MIN <= x + #[trigger] width_before(widths, k as nat)
                <= i64::MAX,
    ensures
        row_drawn_at(widths, row, x, y) == cells_drawn_at(widths, row, row.len(), x, y),
        forall|k: int|
            0 <= k < row.len() ==> #[trigger] cells_drawn_at(widths, row, (k + 1) as nat, x, y)
                == cells_drawn_at(widths, row, k as nat, x, y) + row[k].drawn_at(
                x + width_before(widths, k as nat),
                y,
            ),
{
}

/// The first `n` cells of a row are drawn alike whatever follows them.
proof fn lemma_cells_drawn_of_prefix(
    widths: Seq<int>,
    row: Seq<DrawableView>,
    kept: nat,
    n: nat,
    x: int,
    y: int,
)
    requires
        n <= kept <= row.len(),
    ensures
        cells_drawn_at(widths, row.take(kept as int), n, x, y) == cells_drawn_at(
            widths,
            row,
            n,
            x,
            y,
        ),
    decreases n,
{
    if n > 0 {
        lemma_cells_drawn_of_prefix(widths, row, kept, (n - 1) as nat, x, y);
    }
}

/// Of a row with more cells than the table has columns, the cells beyond
/// the last column are not drawn: the row is drawn as if it ended with the
/// cell of the last column.
pub proof fn lemma_long_row_cut_short(
    widths: Seq<int>,
    row: Seq<DrawableView>,
    x: int,
    y: int,
)
    requires
        row.len() > widths.len(),
    ensures
        row_drawn_at(widths, row, x, y) == row_drawn_at(
            widths,
            row.take(widths.len() as int),
            x,
            y,
        ),
{
    lemma_cells_drawn_of_prefix(widths, row, widths.len(), widths.len(), x, y);
}

/// The instructions that draw a component whose labels are written in the
/// given fonts name no other font, and no image.
pub proof fn lemma_drawable_names_its_fonts(
    drawable: DrawableView,
    fonts: Set<FontId>,
    x: int,
    y: int,
)
    requires
        drawable.fonts_within(fonts),
    ensures
        names_only(drawable.drawn_at(x, y), fonts, Set::<XObjectId>::empty()),
    decreases drawable,
{
    match drawable {
        DrawableView::Label(label) => {
            lemma_label_names_its_font(label, x, y);
            lemma_names_only_more(
                label.drawn_at(x, y),
                Set::<FontId>::empty().insert(label.font_id),
                Set::<XObjectId>::empty(),
                fonts,
                Set::<XObjectId>::empty(),
            );
        },
        DrawableView::Table(table) => {
            lemma_table_names_its_fonts(table, fonts, x, y);
        },
    }
}

proof fn lemma_cells_name_their_fonts(
    widths: Seq<int>,
    row: Seq<DrawableView>,
    n: nat,
    fonts: Set<FontId>,
    x: int,
    y: int,
)
    requires
        n <= row.len(),
        cells_within(row, fonts),
    ensures
        names_only(cells_drawn_at(widths, row, n, x, y), fonts, Set::<XObjectId>::empty()),
    decreases row, n,
{
    if n > 0 {
        let cell_x = clamp(x + width_before(widths, (n - 1) as nat));
        lemma_cells_name_their_fonts(widths, row, (n - 1) as nat, fonts, x, y);
        lemma_drawable_names_its_fonts(row[n - 1], fonts, cell_x, y);
        lemma_names_only_concat(
            cells_drawn_at(widths, row, (n - 1) as nat, x, y),
            row[n - 1].drawn_at(cell_x, y),
            fonts,
            Set::<XObjectId>::empty(),
        );
    }
}

proof fn lemma_rows_name_their_fonts(
    widths: Seq<int>,
    row_height: int,
    rows: Seq<Seq<DrawableView>>,
    n: nat,
    fonts: Set<FontId>,
    x: int,
    top: int,
)
    requires
        n <= rows.len(),
        rows_within(rows, fonts),
    ensures
        names_only(
            rows_drawn_at(widths, row_height, rows, n, x, top),
            fonts,
            Set::<XObjectId>::empty(),
        ),
    decreases rows, n,
{
    if n > 0 {
        let row_y = clamp(top - (n - 1) * row_height);
        lemma_rows_name_their_fonts(widths, row_height, rows, (n - 1) as nat, fonts, x, top);
        lemma_cells_name_their_fonts(
            widths,
            rows[n - 1],
            cells_shown(widths, rows[n - 1]),
            fonts,
            x,
            row_y,
        );
        lemma_names_only_concat(
            rows_drawn_at(widths, row_height, rows, (n - 1) as nat, x, top),
            row_drawn_at(widths, rows[n - 1], x, row_y),
            fonts,
            Set::<XObjectId>::empty(),
        );
    }
}

/// The instructions that draw a table whose labels are written in the
/// given fonts name no other font, and no image.
pub proof fn lemma_table_names_its_fonts(table: TableView, fonts: Set<FontId>, x: int, y: int)
    requires
        table.fonts_within(fonts),
    ensures
        names_only(table.drawn_at(x, y), fonts, Set::<XObjectId>::empty()),
    decreases table,
{
    let images = Set::<XObjectId>::empty();
    match table.header {
        Some(cells) => {
            lemma_cells_name_their_fonts(
                table.column_widths,
                cells,
                cells_shown(table.column_widths, cells),
                fonts,
                x,
                y,
            );
            assert(names_only(table.rule_drawn_at(x, y), fonts, images));
            lemma_names_only_concat(
                row_drawn_at(table.column_widths, cells, x, y),
                table.rule_drawn_at(x, y),
                fonts,
                images,
            );
        },
        None => {},
    }
    lemma_rows_name_their_fonts(
        table.column_widths,
        table.row_height,
        table.rows,
        table.rows.len(),
        fonts,
        x,
        table.body_top(y),
    );
    lemma_names_only_concat(
        table.header_drawn_at(x, y),
        table.body_drawn_at(table.rows.len(), x, y),
        fonts,
        images,
    );
}

/// The instructions that draw a component leave no block of text open.
pub proof fn lemma_drawable_closes_text(drawable: DrawableView, x: int, y: int)
    ensures
        text_closed(drawable.drawn_at(x, y)),
    decreases drawable,
{
    match drawable {
        DrawableView::Label(label) => {
            lemma_label_closes_text(label, x, y);
        },
        DrawableView::Table(table) => {
            lemma_table_closes_text(table, x, y);
        },
    }
}

proof fn lemma_cells_close_text(widths: Seq<int>, row: Seq<DrawableView>, n: nat, x: int, y: int)
    requires
        n <= row.len(),
    ensures
        text_closed(cells_drawn_at(widths, row, n, x, y)),
    decreases row, n,
{
    if n > 0 {
        let cell_x = clamp(x + width_before(widths, (n - 1) as nat));
        lemma_cells_close_text(widths, row, (n - 1) as nat, x, y);
        lemma_drawable_closes_text(row[n - 1], cell_x, y);
        lemma_text_closed_concat(
            cells_drawn_at(widths, row, (n - 1) as nat, x, y),
            row[n - 1].drawn_at(cell_x, y),
        );
    }
}

proof fn lemma_rows_close_text(
    widths: Seq<int>,
    row_height: int,
    rows: Seq<Seq<DrawableView>>,
    n: nat,
    x: int,
    top: int,
)
    requires
        n <= rows.len(),
    ensures
        text_closed(rows_drawn_at(widths, row_height, rows, n, x, top)),
    decreases rows, n,
{
    if n > 0 {
        let row_y = clamp(top - (n - 1) * row_height);
        lemma_rows_close_text(widths, row_height, rows, (n - 1) as nat, x, top);
        lemma_cells_close_text(widths, rows[n - 1], cells_shown(widths, rows[n - 1]), x, row_y);
        lemma_text_closed_concat(
            rows_drawn_at(widths, row_height, rows, (n - 1) as nat, x, top),
            row_drawn_at(widths, rows[n - 1], x, row_y),
        );
    }
}

/// The instructions that draw a table leave no block of text open.
pub proof fn lemma_table_closes_text(table: TableView, x: int, y: int)
    ensures
        text_closed(table.drawn_at(x, y)),
    decreases table,
{
    match table.header {
        Some(cells) => {
            lemma_cells_close_text(
                table.column_widths,
                cells,
                cells_shown(table.column_widths, cells),
                x,
                y,
            );
            assert(text_closed(table.rule_drawn_at(x, y))) by {
                reveal_with_fuel(text_open_after, 3);
            }
            lemma_text_closed_concat(
                row_drawn_at(table.column_widths, cells, x, y),
                table.rule_drawn_at(x, y),
            );
        },
        None => {},
    }
    lemma_rows_close_text(
        table.column_widths,
        table.row_height,
        table.rows,
        table.rows.len(),
        x,
        table.body_top(y),
    );
    lemma_text_closed_concat(
        table.header_drawn_at(x, y),
        table.body_drawn_at(table.rows.len(), x, y),
    );
}

/// The sum of the first `k` widths stays within `k` times the largest
/// width that an `i64` can hold.
proof fn lemma_width_before_bounds(widths: Seq<i64>, k: nat)
    requires
        k <= widths.len(),
    ensures
        -0x8000_0000_0000_0000 * k <= width_before(widths_view(widths), k)
            <= 0x8000_0000_0000_0000 * k,
    decreases k,
{
    if k > 0 {
        lemma_width_before_bounds(widths, (k - 1) as nat);
    }
}

impl Table {
    /// The sum of the widths of the first `k` columns.
    fn width_of_columns(&self, k: usize) -> (sum: i128)
        requires
            k <= self.column_widths.len(),
        ensures
            sum == width_before(self@.column_widths, k as nat),
            -0x7fff_ffff_ffff_ffff_8000_0000_0000_0000 <= sum
                <= 0x7fff_ffff_ffff_ffff_8000_0000_0000_0000,
    {
        let mut sum: i128 = 0;
        let mut i: usize = 0;
        while i < k
            invariant
                i <= k <= self.column_widths.len(),
                sum == width_before(self@.column_widths, i as nat),
            decreases k - i,
        {
            proof {
                lemma_width_before_bounds(self.column_widths@, i as nat);
                lemma_width_before_bounds(self.column_widths@, (i + 1) as nat);
            }
            sum = sum + (self.column_widths[i] as i128);
            i += 1;
        }
        proof {
            lemma_width_before_bounds(self.column_widths@, k as nat);
        }
        sum
    }

    /// Draws the cells of one row from `(x, y)` to the right, each cell
    /// where its column begins.
    pub fn render_row_at(&self, values: &Vec<Drawable>, x: i64, y: i64) -> (ops: Vec<Instruction>)
        ensures
            views(ops@) == row_drawn_at(
                self@.column_widths,
                row_view(values@),
                x as int,
                y as int,
            ),
        decreases values,
    {
        let mut ops: Vec<Instruction> = Vec::new();
        let shown = if values.len() <= self.column_widths.len() {
            values.len()
        } else {
            self.column_widths.len()
        };
        let mut offset: i128 = 0;
        let mut k: usize = 0;
        while k < shown
            invariant
                k <= shown,
                shown == cells_shown(self@.column_widths, row_view(values@)),
                offset == width_before(self@.column_widths, k as nat),
                views(ops@) == cells_drawn_at(
                    self@.column_widths,
                    row_view(values@),
                    k as nat,
                    x as int,
                    y as int,
                ),
            decreases shown - k,
        {
            proof {
                lemma_width_before_bounds(self.column_widths@, k as nat);
                lemma_width_before_bounds(self.column_widths@, (k + 1) as nat);
            }
            extend(&mut ops, values[k].render_at(advanced(x, offset), y));
            offset = offset + (self.column_widths[k] as i128);
            k += 1;
        }
        ops
    }

    /// Draws a rule from `(x, y)` to the right, over the whole width of
    /// the table.
    pub fn render_bottom_border_at(&self, x: i64, y: i64) -> (ops: Vec<Instruction>)
        ensures
            views(ops@) == seq![
                InstructionView::SetStrokeWidth { width: RULE_WIDTH as int },
                InstructionView::DrawLine {
                    from_x: x as int,
                    from_y: y as int,
                    to_x: clamp(x + self@.total_width()),
                    to_y: y as int,
                },
            ],
    {
        let mut ops: Vec<Instruction> = Vec::new();
        let total_width = self.width_of_columns(self.column_widths.len());
        ops.push(Instruction::SetStrokeWidth { width: RULE_WIDTH });
        ops.push(
            Instruction::DrawLine { from_x: x, from_y: y, to_x: advanced(x, total_width), to_y: y },
        );
        assert(views(ops@) =~= seq![
            InstructionView::SetStrokeWidth { width: RULE_WIDTH as int },
            InstructionView::DrawLine {
                from_x: x as int,
                from_y: y as int,
                to_x: clamp(x + self@.total_width()),
                to_y: y as int,
            },
        ]);
        ops
    }
}

impl Component for Table {
    open spec fn drawn_at(&self, x: int, y: int) -> Seq<InstructionView> {
        self@.drawn_at(x, y)
    }

    fn render_at(&self, x: i64, y: i64) -> (ops: Vec<Instruction>)
        decreases self,
    {
        let mut ops: Vec<Instruction> = Vec::new();
        let mut lead: i128 = 0;
        if let Some(header_values) = &self.header {
            let half_row = halve(self.row_height);
            extend(&mut ops, self.render_row_at(header_values, x, y));
            extend(
                &mut ops,
                self.render_bottom_border_at(x, narrow((y as i128) - (half_row as i128))),
            );
            lead = (self.row_height as i128) + (half_row as i128);
        }
        assert(views(ops@) == self@.header_drawn_at(x as int, y as int));
        let mut r: usize = 0;
        while r < self.rows.len()
            invariant
                r <= self.rows.len(),
                y - lead == self@.body_top(y as int),
                -0x2_0000_0000_0000_0000 <= lead <= 0x2_0000_0000_0000_0000,
                views(ops@) == self@.header_drawn_at(x as int, y as int) + rows_drawn_at(
                    self@.column_widths,
                    self@.row_height,
                    self@.rows,
                    r as nat,
                    x as int,
                    self@.body_top(y as int),
                ),
            decreases self.rows.len() - r,
        {
            let current_y = lowered(y, lead, self.row_height, r);
            extend(&mut ops, self.render_row_at(&self.rows[r], x, current_y));
            r += 1;
        }
        ops
    }
}

} // verus!
