//! The application: the grid, the cursor on it and the table's colours; how
//! an input event changes it, and what it shows in a frame.

use crate::input::{command_for, event_command, Command, Event};
use crate::layout::{calculate_layout, warning_layout, Constraint, Rect, TITLE_HEIGHT};
use crate::screen::{
    Cell, CellModel, HighlightSpacing, Layers, Paragraph, ParagraphModel, Row, RowModel, Screen,
    ScreenModel, Table, TableModel, Wrap,
};
use crate::selection::{Position, Selection};
use crate::style::{Color, Style, TableColors};
use vstd::prelude::*;
use vstd::string::StringExecFns;

verus! {

/// The number of terminal lines of each row of the table.
pub const ROW_HEIGHT: u16 = 3;

/// The text of the title.
pub open spec fn title_text() -> Seq<char> {
    "You VS Bot"@
}

/// The text of the warning about a frame that is too small.
pub open spec fn warning_text() -> Seq<char> {
    "Terminal size too small. Minimum size is 30\u{d7}10."@
}

/// The title, drawn in `area`: centred, unstyled.
pub open spec fn title_model(area: Rect) -> ParagraphModel {
    ParagraphModel {
        area,
        text: title_text(),
        centered: true,
        wrap: Wrap::Off,
        style: Style { fg: None, bg: None, reversed: false },
    }
}

/// The warning, drawn in `area`: centred, broken between words, in red.
pub open spec fn warning_model(area: Rect) -> ParagraphModel {
    ParagraphModel {
        area,
        text: warning_text(),
        centered: true,
        wrap: Wrap::Words { trim: true },
        style: Style { fg: Some(Color::Red), bg: None, reversed: false },
    }
}

/// The height that is asked for a table of `rows` rows: [`ROW_HEIGHT`] lines
/// for each, as far as a terminal coordinate can count.
pub open spec fn table_height(rows: int) -> int {
    if rows * ROW_HEIGHT <= u16::MAX {
        rows * ROW_HEIGHT
    } else {
        u16::MAX as int
    }
}

/// The values of the grid at startup: the digits `1` to `9`, row by row.
pub open spec fn initial_grid() -> Seq<Seq<Seq<char>>> {
    seq![seq!["1"@, "2"@, "3"@], seq!["4"@, "5"@, "6"@], seq!["7"@, "8"@, "9"@]]
}

/// The mathematical model of the application.
pub struct AppModel {
    /// The value of each cell, row by row.
    pub grid: Seq<Seq<Seq<char>>>,
    pub cursor: Position,
    pub colors: TableColors,
}

impl AppModel {
    /// The cursor lies on its grid, and the grid of values has the size of
    /// the cursor's grid.
    pub open spec fn wf(self) -> bool {
        &&& self.cursor.wf()
        &&& self.grid.len() == self.cursor.rows
        &&& forall|i: int| 0 <= i < self.grid.len() ==> (#[trigger] self.grid[i]).len() == self.cursor.columns
    }

    /// The application after `command`: a movement command moves the
    /// cursor, every other command changes nothing.
    pub open spec fn apply(self, command: Command) -> AppModel {
        match command {
            Command::NextRow => AppModel { cursor: self.cursor.advance_row(), ..self },
            Command::PreviousRow => AppModel { cursor: self.cursor.retreat_row(), ..self },
            Command::NextColumn => AppModel { cursor: self.cursor.advance_column(), ..self },
            Command::PreviousColumn => AppModel { cursor: self.cursor.retreat_column(), ..self },
            Command::Quit | Command::Nothing => self,
        }
    }

    /// The value of the selected cell.
    pub open spec fn selected_value(self) -> Seq<char> {
        self.grid[self.cursor.row][self.cursor.column]
    }

    /// The cell that shows the value in row `row` and column `column`: the
    /// value on the second line, centred.
    pub open spec fn table_cell(self, row: int, column: int) -> CellModel {
        CellModel { text: seq!['\n'] + self.grid[row][column], centered: true }
    }

    /// Row `row` of the table: its cells, in the row's band.
    pub open spec fn table_row(self, row: int) -> RowModel {
        RowModel {
            cells: Seq::new(self.grid[row].len(), |column: int| self.table_cell(row, column)),
            style: self.colors.row_style(row),
            height: ROW_HEIGHT,
        }
    }

    /// The share of the table's width that each column gets, in hundredths,
    /// rounded down.
    pub open spec fn column_share(self) -> u16 {
        (100int / self.cursor.columns) as u16
    }

    /// `screen` is what the application shows in the frame `area`. In a
    /// frame that is too small this is the warning alone, inside the frame,
    /// at its [`Rect::warning_place`]. In every other frame it is the title
    /// and the table, inside the frame, at their [`Rect::board_places`]
    /// where the frame is high enough for both. The places are stated for
    /// a frame that ends on the screen, as every frame of a terminal does.
    pub open spec fn shows(self, area: Rect, screen: ScreenModel) -> bool {
        match screen {
            ScreenModel::TooSmall(warning) => {
                &&& area.is_too_small()
                &&& warning == warning_model(warning.area)
                &&& area.encloses(warning.area)
                &&& area.ends_on_screen() ==> area.warning_place(warning.area)
            },
            ScreenModel::Board { title, table } => {
                &&& !area.is_too_small()
                &&& title == title_model(title.area)
                &&& table == self.table(table.area)
                &&& area.encloses(title.area)
                &&& area.encloses(table.area)
                &&& area.ends_on_screen() && TITLE_HEIGHT + table_height(self.cursor.rows)
                    <= area.height ==> area.board_places(
                    table_height(self.cursor.rows),
                    title.area,
                    table.area,
                )
            },
        }
    }

    /// The table, drawn in `area`.
    pub open spec fn table(self, area: Rect) -> TableModel {
        TableModel {
            area,
            rows: Seq::new(self.grid.len(), |row: int| self.table_row(row)),
            widths: Seq::new(
                self.cursor.columns as nat,
                |column: int| Constraint::Percentage(self.column_share()),
            ),
            style: self.colors.table_style(),
            row_highlight_style: self.colors.row_highlight(),
            column_highlight_style: self.colors.column_highlight(),
            cell_highlight_style: self.colors.cell_highlight(),
            highlight_spacing: HighlightSpacing::Always,
            selected_row: self.cursor.row,
            selected_column: self.cursor.column,
        }
    }
}

/// Whether the application goes on after an event.
#[derive(Clone, Copy, Debug, PartialEq, Eq)]
pub enum Flow {
    Continue,
    Quit,
}

/// The application's state.
#[derive(Debug)]
pub struct App {
    selection: Selection,
    items: Vec<Vec<String>>,
    colors: TableColors,
}

impl View for App {
    type V = AppModel;

    closed spec fn view(&self) -> AppModel {
        AppModel {
            grid: Seq::new(
                self.items@.len(),
                |i: int| Seq::new(self.items@[i]@.len(), |j: int| self.items@[i]@[j]@),
            ),
            cursor: self.selection@,
            colors: self.colors,
        }
    }
}

/// The title, to be drawn in `area`.
pub fn render_title(area: Rect) -> (title: Paragraph)
    ensures
        title@ == title_model(area),
{
    Paragraph {
        area,
        text: "You VS Bot".to_owned(),
        centered: true,
        wrap: Wrap::Off,
        style: Style::plain(),
    }
}

/// The warning about a frame that is too small, to be drawn in `area`.
pub fn render_warning(area: Rect) -> (warning: Paragraph)
    ensures
        warning@ == warning_model(area),
{
    Paragraph {
        area,
        text: "Terminal size too small. Minimum size is 30\u{d7}10.".to_owned(),
        centered: true,
        wrap: Wrap::Words { trim: true },
        style: Style { fg: Some(Color::Red), bg: None, reversed: false },
    }
}

impl App {
    #[verifier::type_invariant]
    spec fn well_formed(self) -> bool {
        self@.wf()
    }

    /// The application at startup: the grid of the digits `1` to `9` in
    /// three rows, the cursor on its first cell, and the given colours.
    pub fn new(colors: TableColors) -> (app: App)
        ensures
            app@ == (AppModel {
                grid: initial_grid(),
                cursor: Position { rows: 3, columns: 3, row: 0, column: 0 },
                colors,
            }),
            app@.wf(),
    {
        let items = vec![
            vec!["1".to_owned(), "2".to_owned(), "3".to_owned()],
            vec!["4".to_owned(), "5".to_owned(), "6".to_owned()],
            vec!["7".to_owned(), "8".to_owned(), "9".to_owned()],
        ];
        let selection = Selection::new(3, 3).unwrap();
        let app = App { selection, items, colors };
        assert(app@.grid =~~= initial_grid());
        app
    }

    /// The cursor.
    pub fn selection(&self) -> (selection: Selection)
        ensures
            selection@ == self@.cursor,
            self@.wf(),
    {
        proof {
            use_type_invariant(self);
        }
        self.selection
    }

    /// The colours of the table.
    pub fn colors(&self) -> (colors: TableColors)
        ensures
            colors == self@.colors,
    {
        self.colors
    }

    /// The value of the selected cell.
    pub fn selected_value(&self) -> (value: &String)
        ensures
            value@ == self@.selected_value(),
    {
        proof {
            use_type_invariant(self);
        }
        let row = self.selection.row();
        let column = self.selection.column();
        assert(self@.grid[row as int].len() == self@.cursor.columns);
        &self.items[row][column]
    }

    /// Moves the cursor one row down; from the last row to the first.
    pub fn next_row(&mut self)
        ensures
            final(self)@ == old(self)@.apply(Command::NextRow),
            final(self)@.wf(),
    {
        proof {
            use_type_invariant(&*self);
        }
        self.selection.advance_row();
    }

    /// Moves the cursor one row up; from the first row to the last.
    pub fn previous_row(&mut self)
        ensures
            final(self)@ == old(self)@.apply(Command::PreviousRow),
            final(self)@.wf(),
    {
        proof {
            use_type_invariant(&*self);
        }
        self.selection.retreat_row();
    }

    /// Moves the cursor one column right; from the last column to the first.
    pub fn next_column(&mut self)
        ensures
            final(self)@ == old(self)@.apply(Command::NextColumn),
            final(self)@.wf(),
    {
        proof {
            use_type_invariant(&*self);
        }
        self.selection.advance_column();
    }

    /// Moves the cursor one column left; from the first column to the last.
    pub fn previous_column(&mut self)
        ensures
            final(self)@ == old(self)@.apply(Command::PreviousColumn),
            final(self)@.wf(),
    {
        proof {
            use_type_invariant(&*self);
        }
        self.selection.retreat_column();
    }

    /// The cell of the table that shows `value`: a blank line above the
    /// value puts it on the middle line of the row.
    fn render_cell(value: &String) -> (cell: Cell)
        ensures
            cell@ == (CellModel { text: seq!['\n'] + value@, centered: true }),
    {
        let mut text = "\n".to_owned();
        text.append(value.as_str());
        proof {
            reveal_strlit("\n");
            assert("\n"@ =~= seq!['\n']);
        }
        Cell { text, centered: true }
    }

    /// Row `row` of the table.
    fn render_row(&self, row: usize) -> (rendered: Row)
        requires
            0 <= row < self@.grid.len(),
        ensures
            rendered@ == self@.table_row(row as int),
    {
        let values = &self.items[row];
        let mut cells: Vec<Cell> = Vec::new();
        let mut column: usize = 0;
        while column < values.len()
            invariant
                column <= values@.len(),
                cells@.len() == column,
                values@ == self.items@[row as int]@,
                0 <= row < self.items@.len(),
                forall|j: int|
                    0 <= j < column ==> (#[trigger] cells@[j])@ == self@.table_cell(row as int, j),
            decreases values@.len() - column,
        {
            cells.push(App::render_cell(&values[column]));
            column += 1;
        }
        let band = if row % 2 == 0 {
            self.colors.normal_row_color
        } else {
            self.colors.alt_row_color
        };
        let rendered = Row {
            cells,
            style: Style { fg: Some(self.colors.row_fg), bg: Some(band), reversed: false },
            height: ROW_HEIGHT,
        };
        assert(rendered@.cells =~= self@.table_row(row as int).cells);
        rendered
    }

    /// The table, to be drawn in `area`: one row of [`ROW_HEIGHT`] lines for
    /// each row of the grid, in bands of alternating background; columns of
    /// equal width; and the highlight layers for the selected row, column
    /// and cell.
    pub fn render_table(&self, area: Rect) -> (table: Table)
        ensures
            table@ == self@.table(area),
    {
        proof {
            use_type_invariant(self);
        }
        let mut rows: Vec<Row> = Vec::new();
        let mut row: usize = 0;
        while row < self.items.len()
            invariant
                row <= self.items@.len(),
                rows@.len() == row,
                forall|i: int| 0 <= i < row ==> (#[trigger] rows@[i])@ == self@.table_row(i),
            decreases self.items@.len() - row,
        {
            rows.push(self.render_row(row));
            row += 1;
        }
        let columns = self.selection.columns();
        let share: u16 = (100 / columns) as u16;
        let mut widths: Vec<Constraint> = Vec::new();
        let mut column: usize = 0;
        while column < columns
            invariant
                column <= columns,
                widths@.len() == column,
                forall|j: int| 0 <= j < column ==> #[trigger] widths@[j] == Constraint::Percentage(share),
            decreases columns - column,
        {
            widths.push(Constraint::Percentage(share));
            column += 1;
        }
        let table = Table {
            area,
            rows,
            widths,
            style: Style { fg: None, bg: Some(self.colors.buffer_bg), reversed: false },
            row_highlight_style: Style {
                fg: Some(self.colors.selected_row_style_fg),
                bg: None,
                reversed: true,
            },
            column_highlight_style: Style {
                fg: Some(self.colors.selected_column_style_fg),
                bg: None,
                reversed: false,
            },
            cell_highlight_style: Style {
                fg: Some(self.colors.selected_cell_style_fg),
                bg: None,
                reversed: true,
            },
            highlight_spacing: HighlightSpacing::Always,
            selected_row: self.selection.row(),
            selected_column: self.selection.column(),
        };
        assert(table@.rows =~= self@.table(area).rows);
        assert(table@.widths =~= self@.table(area).widths);
        table
    }

    /// The height that is asked for the table: [`ROW_HEIGHT`] lines for each
    /// row of the grid.
    pub fn table_height(&self) -> (height: u16)
        ensures
            height == table_height(self@.cursor.rows),
    {
        proof {
            use_type_invariant(self);
        }
        let rows = self.selection.rows();
        if rows <= (u16::MAX / ROW_HEIGHT) as usize {
            (rows as u16) * ROW_HEIGHT
        } else {
            u16::MAX
        }
    }

    /// What the application shows in a frame of size and place `area`. In a
    /// frame that is too small it shows the warning and nothing else; in
    /// every other frame the title and the table, and no warning. What is
    /// shown, and where, is as [`AppModel::shows`] says.
    pub fn draw(&self, area: Rect) -> (screen: Screen)
        ensures
            screen@ is TooSmall <==> area.is_too_small(),
            screen@ is Board <==> !area.is_too_small(),
            self@.shows(area, screen@),
    {
        if area.too_small() {
            Screen::TooSmall(render_warning(warning_layout(area)))
        } else {
            let (title_area, table_area) = calculate_layout(area, self.table_height());
            Screen::Board { title: render_title(title_area), table: self.render_table(table_area) }
        }
    }

    /// Takes one input event: carries out the command that it stands for,
    /// and says whether the application goes on. It stops on the quit
    /// command and on nothing else.
    pub fn handle_event(&mut self, event: &Event) -> (flow: Flow)
        ensures
            final(self)@ == old(self)@.apply(event_command(*event)),
            final(self)@.wf(),
            flow == (if event_command(*event) == Command::Quit {
                Flow::Quit
            } else {
                Flow::Continue
            }),
    {
        proof {
            use_type_invariant(&*self);
        }
        match command_for(event) {
            Command::Quit => Flow::Quit,
            Command::NextRow => {
                self.next_row();
                Flow::Continue
            },
            Command::PreviousRow => {
                self.previous_row();
                Flow::Continue
            },
            Command::NextColumn => {
                self.next_column();
                Flow::Continue
            },
            Command::PreviousColumn => {
                self.previous_column();
                Flow::Continue
            },
            Command::Nothing => Flow::Continue,
        }
    }
}

/// The highlight overlay. For every cell of the table, with the cursor at
/// row `r` and column `c`: the cell at `(r, c)` carries the row, the column
/// and the cell layer; every other cell of row `r` carries the row layer
/// alone; every other cell of column `c` carries the column layer alone; and
/// every remaining cell carries no layer and is drawn in the plain style of
/// its band. The style of a cell is its band's style with the layers that it
/// carries laid on top, in the order row, column, cell.
pub proof fn lemma_highlight_overlay(app: AppModel, area: Rect, row: int, column: int)
    requires
        app.wf(),
        0 <= row < app.cursor.rows,
        0 <= column < app.cursor.columns,
    ensures
        ({
            let table = app.table(area);
            let layers = table.layers(row, column);
            let band = Style {
                fg: Some(app.colors.row_fg),
                bg: Some(app.colors.band(row)),
                reversed: false,
            };
            &&& table.has_cell(row, column)
            &&& table.base_style(row) == band
            &&& row == app.cursor.row && column == app.cursor.column ==> layers == (Layers {
                row: true,
                column: true,
                cell: true,
            })
            &&& row == app.cursor.row && column != app.cursor.column ==> layers == (Layers {
                row: true,
                column: false,
                cell: false,
            })
            &&& row != app.cursor.row && column == app.cursor.column ==> layers == (Layers {
                row: false,
                column: true,
                cell: false,
            })
            &&& row != app.cursor.row && column != app.cursor.column ==> layers == (Layers {
                row: false,
                column: false,
                cell: false,
            }) && table.cell_style(row, column) == band
            &&& table.cell_style(row, column) == band.patched_if(
                layers.row,
                app.colors.row_highlight(),
            ).patched_if(layers.column, app.colors.column_highlight()).patched_if(
                layers.cell,
                app.colors.cell_highlight(),
            )
        }),
{
}

} // verus!
