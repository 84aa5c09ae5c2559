//! A cursor on a grid of cells, shown as a table in the terminal.
//!
//! The cursor moves with the arrow keys, or with `w`, `a`, `s` and `d`, and
//! wraps around at the edges of the grid. Each frame shows the grid as a
//! table on which the row, the column and the cell of the cursor are
//! highlighted, or a warning where the terminal is too small for the table.
//!
//! The library holds the rules: how the cursor moves ([`selection`]), which
//! key stands for which command ([`input`]), how a frame is divided
//! ([`layout`]), which styles lie on a cell ([`style`], [`screen`]), and what
//! the application does with an event and shows in a frame ([`app`]). It
//! reads no key and writes to no terminal: it takes events and the size of
//! the frame as plain values and gives back a description of the frame.

pub mod app;
pub mod input;
pub mod layout;
pub mod screen;
pub mod selection;
pub mod style;

pub use app::App;
