//! Components that draw themselves at an anchor position.

use vstd::prelude::*;
use printpdf::FontId;
use crate::components::label::{Label, LabelView};
use crate::components::table::{Table, TableView, table_view};
use crate::instruction::{Instruction, InstructionView, views};

pub mod label;
pub mod table;

verus! {

/// Anything that can be drawn at an anchor position.
pub trait Component {
    /// The instructions that draw the component with its anchor at `(x, y)`.
    spec fn drawn_at(&self, x: int, y: int) -> Seq<InstructionView>;

    /// Draws the component with its anchor at `(x, y)`.
    fn render_at(&self, x: i64, y: i64) -> (ops: Vec<Instruction>)
        ensures
            views(ops@) == self.drawn_at(x as int, y as int),
    ;
}

/// A component of one of the kinds that this crate knows how to draw.
pub enum Drawable {
    Label(Label),
    Table(Table),
}

/// What a [`Drawable`] holds, as mathematical values.
pub enum DrawableView {
    Label(LabelView),
    Table(TableView),
}

impl DrawableView {
    /// The instructions that draw the component with its anchor at `(x, y)`.
    pub open spec fn drawn_at(self, x: int, y: int) -> Seq<InstructionView>
        decreases self,
    {
        match self {
            DrawableView::Label(label) => label.drawn_at(x, y),
            DrawableView::Table(table) => table.drawn_at(x, y),
        }
    }

    /// Whether every label of the component is written in one of the given
    /// fonts.
    pub open spec fn fonts_within(self, fonts: Set<FontId>) -> bool
        decreases self,
    {
        match self {
            DrawableView::Label(label) => fonts.contains(label.font_id),
            DrawableView::Table(table) => table.fonts_within(fonts),
        }
    }
}

/// The view of a component.
pub open spec fn drawable_view(d: Drawable) -> DrawableView
    decreases d,
{
    match d {
        Drawable::Label(label) => DrawableView::Label(label@),
        Drawable::Table(table) => DrawableView::Table(table_view(table)),
    }
}

/// The views of the components of a row, in order.
pub open spec fn row_view(row: Seq<Drawable>) -> Seq<DrawableView>
    decreases row,
{
    Seq::new(
        row.len(),
        |i: int|
            if 0 <= i < row.len() {
                drawable_view(row[i])
            } else {
                arbitrary()
            },
    )
}

/// The views of a list of rows, in order.
pub open spec fn rows_view(rows: Seq<Vec<Drawable>>) -> Seq<Seq<DrawableView>>
    decreases rows,
{
    Seq::new(
        rows.len(),
        |i: int|
            if 0 <= i < rows.len() {
                row_view(rows[i]@)
            } else {
                arbitrary()
            },
    )
}

impl View for Drawable {
    type V = DrawableView;

    open spec fn view(&self) -> DrawableView {
        drawable_view(*self)
    }
}

impl Component for Drawable {
    open spec fn drawn_at(&self, x: int, y: int) -> Seq<InstructionView> {
        self@.drawn_at(x, y)
    }

    fn render_at(&self, x: i64, y: i64) -> (ops: Vec<Instruction>)
        decreases self,
    {
        match self {
            Drawable::Label(label) => label.render_at(x, y),
            Drawable::Table(table) => table.render_at(x, y),
        }
    }
}

} // verus!
