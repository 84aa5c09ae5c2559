//! What one frame shows: plain descriptions of the paragraphs and of the
//! table, ready to be handed to a terminal backend.

use crate::layout::{Constraint, Rect};
use crate::style::Style;
use vstd::prelude::*;

verus! {

/// How text that is wider than its area is broken into lines.
#[derive(Clone, Copy, Debug, PartialEq, Eq)]
pub enum Wrap {
    /// Lines are cut at the edge of the area.
    Off,
    /// Lines are broken between words; with `trim`, a broken line starts at
    /// its first word.
    Words { trim: bool },
}

/// A block of text and the place where it is drawn.
#[derive(Debug, PartialEq, Eq)]
pub struct Paragraph {
    pub area: Rect,
    pub text: String,
    /// Whether each line is centred in the area.
    pub centered: bool,
    pub wrap: Wrap,
    pub style: Style,
}

/// The mathematical model of a [`Paragraph`].
pub struct ParagraphModel {
    pub area: Rect,
    pub text: Seq<char>,
    pub centered: bool,
    pub wrap: Wrap,
    pub style: Style,
}

impl View for Paragraph {
    type V = ParagraphModel;

    open spec fn view(&self) -> ParagraphModel {
        ParagraphModel {
            area: self.area,
            text: self.text@,
            centered: self.centered,
            wrap: self.wrap,
            style: self.style,
        }
    }
}

/// One cell of the table.
#[derive(Debug, PartialEq, Eq)]
pub struct Cell {
    pub text: String,
    /// Whether each line of the text is centred in the cell.
    pub centered: bool,
}

/// The mathematical model of a [`Cell`].
pub struct CellModel {
    pub text: Seq<char>,
    pub centered: bool,
}

impl View for Cell {
    type V = CellModel;

    open spec fn view(&self) -> CellModel {
        CellModel { text: self.text@, centered: self.centered }
    }
}

/// One row of the table.
#[derive(Debug, PartialEq, Eq)]
pub struct Row {
    pub cells: Vec<Cell>,
    /// The style of the row before any highlight.
    pub style: Style,
    /// The number of terminal lines that the row takes.
    pub height: u16,
}

/// The mathematical model of a [`Row`].
pub struct RowModel {
    pub cells: Seq<CellModel>,
    pub style: Style,
    pub height: u16,
}

impl View for Row {
    type V = RowModel;

    open spec fn view(&self) -> RowModel {
        RowModel {
            cells: Seq::new(self.cells@.len(), |j: int| self.cells@[j]@),
            style: self.style,
            height: self.height,
        }
    }
}

/// When room is kept at the start of each row for a selection mark.
#[derive(Clone, Copy, Debug, PartialEq, Eq)]
pub enum HighlightSpacing {
    Always,
    WhenSelected,
    Never,
}

/// The highlight layers that lie on one cell.
#[derive(Clone, Copy, Debug, PartialEq, Eq)]
pub struct Layers {
    /// The cell is in the selected row.
    pub row: bool,
    /// The cell is in the selected column.
    pub column: bool,
    /// The cell is the selected cell.
    pub cell: bool,
}

/// The table, the place where it is drawn, and the selection that is
/// highlighted on it.
#[derive(Debug, PartialEq, Eq)]
pub struct Table {
    pub area: Rect,
    pub rows: Vec<Row>,
    /// The width that is asked for each column.
    pub widths: Vec<Constraint>,
    /// The style of the whole table, below every row.
    pub style: Style,
    /// The layer that is laid on the selected row.
    pub row_highlight_style: Style,
    /// The layer that is laid on the selected column.
    pub column_highlight_style: Style,
    /// The layer that is laid on the selected cell.
    pub cell_highlight_style: Style,
    pub highlight_spacing: HighlightSpacing,
    pub selected_row: usize,
    pub selected_column: usize,
}

/// The mathematical model of a [`Table`].
pub struct TableModel {
    pub area: Rect,
    pub rows: Seq<RowModel>,
    pub widths: Seq<Constraint>,
    pub style: Style,
    pub row_highlight_style: Style,
    pub column_highlight_style: Style,
    pub cell_highlight_style: Style,
    pub highlight_spacing: HighlightSpacing,
    pub selected_row: int,
    pub selected_column: int,
}

impl View for Table {
    type V = TableModel;

    open spec fn view(&self) -> TableModel {
        TableModel {
            area: self.area,
            rows: Seq::new(self.rows@.len(), |i: int| self.rows@[i]@),
            widths: self.widths@,
            style: self.style,
            row_highlight_style: self.row_highlight_style,
            column_highlight_style: self.column_highlight_style,
            cell_highlight_style: self.cell_highlight_style,
            highlight_spacing: self.highlight_spacing,
            selected_row: self.selected_row as int,
            selected_column: self.selected_column as int,
        }
    }
}

impl TableModel {
    /// The table has a cell in row `row` and column `column`.
    pub open spec fn has_cell(self, row: int, column: int) -> bool {
        0 <= row < self.rows.len() && 0 <= column < self.rows[row].cells.len()
    }

    /// The highlight layers on the cell in row `row` and column `column`.
    pub open spec fn layers(self, row: int, column: int) -> Layers {
        Layers {
            row: row == self.selected_row,
            column: column == self.selected_column,
            cell: row == self.selected_row && column == self.selected_column,
        }
    }

    /// The style of the cells of row `row` before any highlight: the row's
    /// style on top of the table's.
    pub open spec fn base_style(self, row: int) -> Style {
        self.style.patched(self.rows[row].style)
    }

    /// The style in which the cell in row `row` and column `column` is
    /// drawn: its base style, then the row layer, then the column layer,
    /// then the cell layer, each where it lies on the cell.
    pub open spec fn cell_style(self, row: int, column: int) -> Style {
        let layers = self.layers(row, column);
        self.base_style(row).patched_if(layers.row, self.row_highlight_style).patched_if(
            layers.column,
            self.column_highlight_style,
        ).patched_if(layers.cell, self.cell_highlight_style)
    }
}

impl Table {
    /// The highlight layers on the cell in row `row` and column `column`;
    /// `None` where the table has no such cell.
    pub fn layers(&self, row: usize, column: usize) -> (layers: Option<Layers>)
        ensures
            layers == (if self@.has_cell(row as int, column as int) {
                Some(self@.layers(row as int, column as int))
            } else {
                None
            }),
    {
        if row < self.rows.len() && column < self.rows[row].cells.len() {
            let in_row = row == self.selected_row;
            let in_column = column == self.selected_column;
            Some(Layers { row: in_row, column: in_column, cell: in_row && in_column })
        } else {
            None
        }
    }

    /// The style in which the cell in row `row` and column `column` is
    /// drawn; `None` where the table has no such cell.
    pub fn cell_style(&self, row: usize, column: usize) -> (style: Option<Style>)
        ensures
            style == (if self@.has_cell(row as int, column as int) {
                Some(self@.cell_style(row as int, column as int))
            } else {
                None
            }),
    {
        match self.layers(row, column) {
            None => None,
            Some(layers) => {
                let mut style = self.style.patch(self.rows[row].style);
                if layers.row {
                    style = style.patch(self.row_highlight_style);
                }
                if layers.column {
                    style = style.patch(self.column_highlight_style);
                }
                if layers.cell {
                    style = style.patch(self.cell_highlight_style);
                }
                Some(style)
            },
        }
    }
}

/// What one frame shows.
#[derive(Debug, PartialEq, Eq)]
pub enum Screen {
    /// The frame is too small for the table: only a warning is drawn.
    TooSmall(Paragraph),
    /// The title above the table.
    Board { title: Paragraph, table: Table },
}

/// The mathematical model of a [`Screen`].
pub enum ScreenModel {
    TooSmall(ParagraphModel),
    Board { title: ParagraphModel, table: TableModel },
}

impl View for Screen {
    type V = ScreenModel;

    open spec fn view(&self) -> ScreenModel {
        match self {
            Screen::TooSmall(warning) => ScreenModel::TooSmall(warning@),
            Screen::Board { title, table } => ScreenModel::Board { title: title@, table: table@ },
        }
    }
}

} // verus!
