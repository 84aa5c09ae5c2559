//! Colours and text styles, and the palette of the table.

use vstd::prelude::*;

verus! {

/// A terminal colour.
#[derive(Clone, Copy, Debug, PartialEq, Eq)]
pub enum Color {
    /// The terminal's default colour.
    Reset,
    Black,
    Red,
    Green,
    Yellow,
    Blue,
    Magenta,
    Cyan,
    Gray,
    DarkGray,
    LightRed,
    LightGreen,
    LightYellow,
    LightBlue,
    LightMagenta,
    LightCyan,
    White,
    /// A colour given by its red, green and blue parts.
    Rgb(u8, u8, u8),
    /// A colour of the terminal's table of 256 colours.
    Indexed(u8),
}

/// How a run of cells is drawn. A part that is `None` is left as it was.
#[derive(Clone, Copy, Debug, PartialEq, Eq)]
pub struct Style {
    /// The colour of the text.
    pub fg: Option<Color>,
    /// The colour behind the text.
    pub bg: Option<Color>,
    /// Whether the two colours are shown swapped.
    pub reversed: bool,
}

impl Style {
    /// The style that `self` becomes when `over` is laid on top of it: each
    /// colour that `over` sets wins, and the result is reversed when either
    /// style is.
    pub open spec fn patched(self, over: Style) -> Style {
        Style {
            fg: if over.fg is Some { over.fg } else { self.fg },
            bg: if over.bg is Some { over.bg } else { self.bg },
            reversed: self.reversed || over.reversed,
        }
    }

    /// `self` with `over` laid on top where `applies` holds, else `self`.
    pub open spec fn patched_if(self, applies: bool, over: Style) -> Style {
        if applies {
            self.patched(over)
        } else {
            self
        }
    }

    /// The style that changes nothing.
    pub fn plain() -> (style: Style)
        ensures
            style == (Style { fg: None, bg: None, reversed: false }),
    {
        Style { fg: None, bg: None, reversed: false }
    }

    /// Lays `over` on top of `self`.
    pub fn patch(self, over: Style) -> (style: Style)
        ensures
            style == self.patched(over),
    {
        Style {
            fg: match over.fg {
                Some(color) => Some(color),
                None => self.fg,
            },
            bg: match over.bg {
                Some(color) => Some(color),
                None => self.bg,
            },
            reversed: self.reversed || over.reversed,
        }
    }
}

/// The shades of one colour family, from the lightest (`c50`) to the darkest
/// (`c950`).
#[derive(Clone, Copy, Debug, PartialEq, Eq)]
pub struct Palette {
    pub c50: Color,
    pub c100: Color,
    pub c200: Color,
    pub c300: Color,
    pub c400: Color,
    pub c500: Color,
    pub c600: Color,
    pub c700: Color,
    pub c800: Color,
    pub c900: Color,
    pub c950: Color,
}

/// The colours of the table.
#[derive(Clone, Copy, Debug, PartialEq, Eq)]
pub struct TableColors {
    /// Behind the whole table.
    pub buffer_bg: Color,
    /// The text of every row.
    pub row_fg: Color,
    /// The tint of the selected row.
    pub selected_row_style_fg: Color,
    /// The tint of the selected column.
    pub selected_column_style_fg: Color,
    /// The tint of the selected cell.
    pub selected_cell_style_fg: Color,
    /// Behind the rows with an even index.
    pub normal_row_color: Color,
    /// Behind the rows with an odd index.
    pub alt_row_color: Color,
}

impl TableColors {
    /// The colours that `accent` and `neutral` give: the highlights come
    /// from the accent family, text and backgrounds from the neutral one.
    pub open spec fn from_palettes(accent: Palette, neutral: Palette) -> TableColors {
        TableColors {
            buffer_bg: neutral.c950,
            row_fg: neutral.c200,
            selected_row_style_fg: accent.c400,
            selected_column_style_fg: accent.c400,
            selected_cell_style_fg: accent.c600,
            normal_row_color: neutral.c950,
            alt_row_color: neutral.c900,
        }
    }

    /// The background band of row `row`: rows alternate between the normal
    /// and the alternate colour, starting with the normal one.
    pub open spec fn band(self, row: int) -> Color {
        if row % 2 == 0 {
            self.normal_row_color
        } else {
            self.alt_row_color
        }
    }

    /// The style of the whole table, below every row.
    pub open spec fn table_style(self) -> Style {
        Style { fg: None, bg: Some(self.buffer_bg), reversed: false }
    }

    /// The style of row `row` before any highlight.
    pub open spec fn row_style(self, row: int) -> Style {
        Style { fg: Some(self.row_fg), bg: Some(self.band(row)), reversed: false }
    }

    /// The layer that marks the selected row: reversed, in the row tint.
    pub open spec fn row_highlight(self) -> Style {
        Style { fg: Some(self.selected_row_style_fg), bg: None, reversed: true }
    }

    /// The layer that marks the selected column: the column tint.
    pub open spec fn column_highlight(self) -> Style {
        Style { fg: Some(self.selected_column_style_fg), bg: None, reversed: false }
    }

    /// The layer that marks the selected cell: reversed, in the cell tint.
    pub open spec fn cell_highlight(self) -> Style {
        Style { fg: Some(self.selected_cell_style_fg), bg: None, reversed: true }
    }

    /// Picks the table's colours from an accent family and a neutral one.
    pub fn new(accent: &Palette, neutral: &Palette) -> (colors: TableColors)
        ensures
            colors == TableColors::from_palettes(*accent, *neutral),
    {
        TableColors {
            buffer_bg: neutral.c950,
            row_fg: neutral.c200,
            selected_row_style_fg: accent.c400,
            selected_column_style_fg: accent.c400,
            selected_cell_style_fg: accent.c600,
            normal_row_color: neutral.c950,
            alt_row_color: neutral.c900,
        }
    }
}

} // verus!
