//! Rectangles of terminal cells, and how a frame is divided into them.
//!
//! The division itself is done by ratatui's constraint solver, always with
//! its flex set to centre the parts. The solver searches for the best fit by
//! walking hash maps whose order differs from run to run, so where several
//! answers fit equally well its answer is not fixed. For the constraints
//! that this library hands over the best fit is a single one, and this
//! module states it: a lone fixed or maximal size, the whole of a range, and
//! two maximal sizes that fit one after the other. Of every other division
//! it promises only that each part lies inside the rectangle that was
//! divided.

use ratatui::layout::{Flex, Layout};
use vstd::prelude::*;

verus! {

/// The narrowest frame in which the table is drawn.
pub const MIN_WIDTH: u16 = 30;

/// The lowest frame in which the table is drawn.
pub const MIN_HEIGHT: u16 = 10;

/// The height that is asked for the title.
pub const TITLE_HEIGHT: u16 = 1;

/// The width that is asked for the title and for the table.
pub const BOARD_WIDTH: u16 = 30;

/// The height that is asked for the warning about a frame that is too small.
pub const WARNING_HEIGHT: u16 = 2;

/// The size of a part for which `asked` cells are asked in a range of `room`
/// cells: what is asked, or the whole range where that is less.
pub open spec fn fitted(asked: int, room: int) -> int {
    if asked <= room {
        asked
    } else {
        room
    }
}

/// Where a part of `size` cells starts that is centred in the `room` cells
/// from `start` on: the free cells are halved, and an odd one goes before
/// the part.
pub open spec fn centered_start(start: int, room: int, size: int) -> int {
    start + (room - size + 1) / 2
}

/// A rectangle of terminal cells: its top left corner and its size.
#[derive(Clone, Copy, Debug, PartialEq, Eq)]
pub struct Rect {
    pub x: u16,
    pub y: u16,
    pub width: u16,
    pub height: u16,
}

impl Rect {
    /// `inner` lies inside `self`.
    pub open spec fn encloses(self, inner: Rect) -> bool {
        &&& self.x <= inner.x
        &&& inner.x + inner.width <= self.x + self.width
        &&& self.y <= inner.y
        &&& inner.y + inner.height <= self.y + self.height
    }

    /// A frame of this size is too narrow or too low for the table.
    pub open spec fn is_too_small(self) -> bool {
        self.width < MIN_WIDTH || self.height < MIN_HEIGHT
    }

    /// Whether a frame of this size is too narrow or too low for the table.
    pub fn too_small(&self) -> (small: bool)
        ensures
            small == self.is_too_small(),
    {
        self.width < MIN_WIDTH || self.height < MIN_HEIGHT
    }

    /// The rectangle ends on or before the last column and the last row that
    /// a terminal coordinate can name. Every frame of a terminal does.
    pub open spec fn ends_on_screen(self) -> bool {
        self.x + self.width <= u16::MAX && self.y + self.height <= u16::MAX
    }

    /// `place` is where the warning goes in the frame `self`: across the
    /// whole width, on [`WARNING_HEIGHT`] lines or on as many as the frame
    /// has, centred between top and bottom.
    pub open spec fn warning_place(self, place: Rect) -> bool {
        &&& place.x == self.x
        &&& place.width == self.width
        &&& place.height == fitted(WARNING_HEIGHT as int, self.height as int)
        &&& place.y == centered_start(self.y as int, self.height as int, place.height as int)
    }

    /// `title` and `table` are where the title and a table of `table_height`
    /// lines go in the frame `self`: the title on [`TITLE_HEIGHT`] lines
    /// directly above the table, the two centred between top and bottom as
    /// one block; each [`BOARD_WIDTH`] columns wide, or as wide as the frame
    /// where that is less, and centred between left and right.
    pub open spec fn board_places(self, table_height: int, title: Rect, table: Rect) -> bool {
        &&& title.width == fitted(BOARD_WIDTH as int, self.width as int)
        &&& title.height == TITLE_HEIGHT
        &&& table.width == title.width
        &&& table.height == table_height
        &&& title.x == centered_start(self.x as int, self.width as int, title.width as int)
        &&& table.x == title.x
        &&& title.y == centered_start(
            self.y as int,
            self.height as int,
            TITLE_HEIGHT + table_height,
        )
        &&& table.y == title.y + TITLE_HEIGHT
    }

    /// `part` is cut from `self` along its width: it has the rows of `self`
    /// and lies between its left and right edge.
    pub open spec fn cut_along_width(self, part: Rect) -> bool {
        &&& part.y == self.y
        &&& part.height == self.height
        &&& self.x <= part.x
        &&& part.x + part.width <= self.x + self.width
    }

    /// `part` is cut from `self` along its height: it has the columns of
    /// `self` and lies between its top and bottom edge.
    pub open spec fn cut_along_height(self, part: Rect) -> bool {
        &&& part.x == self.x
        &&& part.width == self.width
        &&& self.y <= part.y
        &&& part.y + part.height <= self.y + self.height
    }
}

/// What is asked of the size of a part when a rectangle is divided.
#[derive(Clone, Copy, Debug, PartialEq, Eq)]
pub enum Constraint {
    /// This many cells.
    Length(u16),
    /// At most this many cells.
    Max(u16),
    /// This many hundredths of the divided rectangle.
    Percentage(u16),
}

impl Constraint {
    /// What the solver gives for this constraint alone, centred in the `room`
    /// cells from `start` on, as the start and the size of the one part.
    /// For a fixed or a maximal size the part has that size, or the whole
    /// range where that is less, and is centred. For a percentage of one
    /// hundred the part is the whole range; of any other percentage
    /// nothing is said.
    pub open spec fn centers_alone(
        self,
        start: int,
        room: int,
        part_start: int,
        part_size: int,
    ) -> bool {
        match self {
            Constraint::Length(cells) | Constraint::Max(cells) => {
                &&& part_size == fitted(cells as int, room)
                &&& part_start == centered_start(start, room, part_size)
            },
            Constraint::Percentage(share) => share == 100 ==> {
                &&& part_start == start
                &&& part_size == room
            },
        }
    }

    /// What the solver gives for `self` followed by `next`, centred in the
    /// `room` cells from `start` on, as the starts and sizes of the two
    /// parts. For two maximal sizes that fit the range together, each part
    /// has its size, the second starts where the first ends, and the two are
    /// centred as one block. Of any other pair nothing is said.
    pub open spec fn centers_before(
        self,
        next: Constraint,
        start: int,
        room: int,
        first: (int, int),
        second: (int, int),
    ) -> bool {
        match (self, next) {
            (Constraint::Max(a), Constraint::Max(b)) => a + b <= room ==> {
                &&& first.1 == a
                &&& second.1 == b
                &&& first.0 == centered_start(start, room, a + b)
                &&& second.0 == first.0 + a
            },
            _ => true,
        }
    }
}

/// Calls ratatui's `Layout::horizontal` with the given constraints, sets its
/// flex to `Flex::Center` and lets `Layout::split` divide `area` along its
/// width.
///
/// The contract claims, of every division: there is one part for each
/// constraint, and each part has the rows of `area` and lies between its
/// left and right edge. These are the solver's required constraints.
///
/// It claims, of one constraint alone in an area that ends on the screen,
/// what [`Constraint::centers_alone`] says. There the solver has one answer:
/// the constraint on the part's size is stronger than the pull that widens
/// the two margins, the two margins are held equal, and the required bounds
/// cap the part at the width of `area`. The solver works in hundredths of a
/// cell and rounds both edges of the part half up, which puts the odd cell
/// of the margins before the part.
#[verifier::external_body]
fn split_width_centered(area: Rect, constraints: &Vec<Constraint>) -> (parts: Vec<Rect>)
    ensures
        parts@.len() == constraints@.len(),
        forall|i: int| 0 <= i < parts@.len() ==> area.cut_along_width(#[trigger] parts@[i]),
        constraints@.len() == 1 && area.x + area.width <= u16::MAX
            ==> constraints@[0].centers_alone(
            area.x as int,
            area.width as int,
            parts@[0].x as int,
            parts@[0].width as int,
        ),
{
    let constraints = constraints.iter().map(|c| match *c {
        Constraint::Length(n) => ratatui::layout::Constraint::Length(n),
        Constraint::Max(n) => ratatui::layout::Constraint::Max(n),
        Constraint::Percentage(n) => ratatui::layout::Constraint::Percentage(n),
    });
    let area = ratatui::layout::Rect { x: area.x, y: area.y, width: area.width, height: area.height };
    let parts = Layout::horizontal(constraints).flex(Flex::Center).split(area);
    parts.iter().map(|r| Rect { x: r.x, y: r.y, width: r.width, height: r.height }).collect()
}

/// Calls ratatui's `Layout::vertical` with the given constraints, sets its
/// flex to `Flex::Center` and lets `Layout::split` divide `area` along its
/// height.
///
/// The contract claims, of every division: there is one part for each
/// constraint, and each part has the columns of `area` and lies between its
/// top and bottom edge. These are the solver's required constraints.
///
/// It claims, of one constraint alone in an area that ends on the screen,
/// what [`Constraint::centers_alone`] says, for the same reasons as along
/// the width. And it claims, of two constraints in such an area, what
/// [`Constraint::centers_before`] says: where two maximal sizes fit the
/// height together, the solver meets both, leaves no gap between the two
/// parts, and holds the margins above and below equal, again with the odd
/// line above.
#[verifier::external_body]
fn split_height_centered(area: Rect, constraints: &Vec<Constraint>) -> (parts: Vec<Rect>)
    ensures
        parts@.len() == constraints@.len(),
        forall|i: int| 0 <= i < parts@.len() ==> area.cut_along_height(#[trigger] parts@[i]),
        constraints@.len() == 1 && area.y + area.height <= u16::MAX
            ==> constraints@[0].centers_alone(
            area.y as int,
            area.height as int,
            parts@[0].y as int,
            parts@[0].height as int,
        ),
        constraints@.len() == 2 && area.y + area.height <= u16::MAX
            ==> constraints@[0].centers_before(
            constraints@[1],
            area.y as int,
            area.height as int,
            (parts@[0].y as int, parts@[0].height as int),
            (parts@[1].y as int, parts@[1].height as int),
        ),
{
    let constraints = constraints.iter().map(|c| match *c {
        Constraint::Length(n) => ratatui::layout::Constraint::Length(n),
        Constraint::Max(n) => ratatui::layout::Constraint::Max(n),
        Constraint::Percentage(n) => ratatui::layout::Constraint::Percentage(n),
    });
    let area = ratatui::layout::Rect { x: area.x, y: area.y, width: area.width, height: area.height };
    let parts = Layout::vertical(constraints).flex(Flex::Center).split(area);
    parts.iter().map(|r| Rect { x: r.x, y: r.y, width: r.width, height: r.height }).collect()
}

/// The rectangle that the solver centres in `area` for the two constraints:
/// `horizontal` on its width, then `vertical` on its height. It lies inside
/// `area`, and along each axis on which `area` ends on the screen it is what
/// [`Constraint::centers_alone`] says of that axis' constraint.
pub fn center(area: Rect, horizontal: Constraint, vertical: Constraint) -> (inner: Rect)
    ensures
        area.encloses(inner),
        area.x + area.width <= u16::MAX ==> horizontal.centers_alone(
            area.x as int,
            area.width as int,
            inner.x as int,
            inner.width as int,
        ),
        area.y + area.height <= u16::MAX ==> vertical.centers_alone(
            area.y as int,
            area.height as int,
            inner.y as int,
            inner.height as int,
        ),
{
    let across = split_width_centered(area, &vec![horizontal]);
    let band = across[0];
    let down = split_height_centered(band, &vec![vertical]);
    down[0]
}

/// The place of the warning that replaces the table in a frame that is too
/// small: the full width of `area` and [`WARNING_HEIGHT`] lines, centred.
/// The place lies inside `area`, and in an area that ends on the screen it
/// is the one that [`Rect::warning_place`] describes.
pub fn warning_layout(area: Rect) -> (place: Rect)
    ensures
        area.encloses(place),
        area.ends_on_screen() ==> area.warning_place(place),
{
    center(area, Constraint::Percentage(100), Constraint::Length(WARNING_HEIGHT))
}

/// The places of the title and of the table, in this order: a band of at
/// most [`TITLE_HEIGHT`] lines above a band of at most `table_height` lines,
/// the two centred in `area` as one block; then, in each band, [`BOARD_WIDTH`]
/// columns of the band's height, centred. Both places lie inside `area`.
/// Where `area` ends on the screen and is high enough for the title and the
/// table, they are the places that [`Rect::board_places`] describes.
pub fn calculate_layout(area: Rect, table_height: u16) -> (places: (Rect, Rect))
    ensures
        area.encloses(places.0),
        area.encloses(places.1),
        area.ends_on_screen() && TITLE_HEIGHT + table_height <= area.height
            ==> area.board_places(table_height as int, places.0, places.1),
{
    let bands = split_height_centered(
        area,
        &vec![Constraint::Max(TITLE_HEIGHT), Constraint::Max(table_height)],
    );
    let title = center(bands[0], Constraint::Length(BOARD_WIDTH), Constraint::Length(TITLE_HEIGHT));
    let table = center(bands[1], Constraint::Length(BOARD_WIDTH), Constraint::Length(table_height));
    (title, table)
}

} // verus!
