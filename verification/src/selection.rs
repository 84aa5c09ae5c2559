//! The selection state machine: a cursor on a grid whose two axes wrap
//! around independently, so that leaving one edge re-enters at the opposite
//! one.

use vstd::arithmetic::div_mod::{
    lemma_add_mod_noop_right, lemma_mod_add_multiples_vanish, lemma_mod_self_0,
    lemma_mod_sub_multiples_vanish, lemma_small_mod,
};
use vstd::prelude::*;

verus! {

/// The position after `x` on a ring of `size` positions.
pub open spec fn advance(x: int, size: int) -> int {
    (x + 1) % size
}

/// The position before `x` on a ring of `size` positions.
pub open spec fn retreat(x: int, size: int) -> int {
    (x - 1 + size) % size
}

/// On a valid position, advancing is "add one, back to zero after the last".
pub proof fn lemma_advance_cases(x: int, size: int)
    requires
        0 <= x < size,
    ensures
        advance(x, size) == (if x == size - 1 { 0 } else { x + 1 }),
        0 <= advance(x, size) < size,
{
    if x == size - 1 {
        lemma_mod_self_0(size);
    } else {
        lemma_small_mod((x + 1) as nat, size as nat);
    }
}

/// On a valid position, retreating is "subtract one, to the last from zero".
pub proof fn lemma_retreat_cases(x: int, size: int)
    requires
        0 <= x < size,
    ensures
        retreat(x, size) == (if x == 0 { size - 1 } else { x - 1 }),
        0 <= retreat(x, size) < size,
{
    if x == 0 {
        lemma_small_mod((size - 1) as nat, size as nat);
    } else {
        lemma_mod_add_multiples_vanish(x - 1, size);
        lemma_small_mod((x - 1) as nat, size as nat);
    }
}

/// The mathematical state of the machine: a cell of a `rows` x `columns`
/// grid.
pub struct Position {
    pub rows: int,
    pub columns: int,
    pub row: int,
    pub column: int,
}

impl Position {
    /// The cursor lies on the grid. A grid with an empty axis has no valid
    /// position.
    pub open spec fn wf(self) -> bool {
        0 <= self.row < self.rows && 0 <= self.column < self.columns
    }

    /// One row down, from the last row to the first.
    pub open spec fn advance_row(self) -> Position {
        Position { row: advance(self.row, self.rows), ..self }
    }

    /// One row up, from the first row to the last.
    pub open spec fn retreat_row(self) -> Position {
        Position { row: retreat(self.row, self.rows), ..self }
    }

    /// One column right, from the last column to the first.
    pub open spec fn advance_column(self) -> Position {
        Position { column: advance(self.column, self.columns), ..self }
    }

    /// One column left, from the first column to the last.
    pub open spec fn retreat_column(self) -> Position {
        Position { column: retreat(self.column, self.columns), ..self }
    }

    /// [`Position::advance_row`] composed `n` times.
    pub open spec fn advance_row_times(self, n: nat) -> Position
        decreases n,
    {
        if n == 0 {
            self
        } else {
            self.advance_row_times((n - 1) as nat).advance_row()
        }
    }

    /// [`Position::retreat_row`] composed `n` times.
    pub open spec fn retreat_row_times(self, n: nat) -> Position
        decreases n,
    {
        if n == 0 {
            self
        } else {
            self.retreat_row_times((n - 1) as nat).retreat_row()
        }
    }

    /// [`Position::advance_column`] composed `n` times.
    pub open spec fn advance_column_times(self, n: nat) -> Position
        decreases n,
    {
        if n == 0 {
            self
        } else {
            self.advance_column_times((n - 1) as nat).advance_column()
        }
    }

    /// [`Position::retreat_column`] composed `n` times.
    pub open spec fn retreat_column_times(self, n: nat) -> Position
        decreases n,
    {
        if n == 0 {
            self
        } else {
            self.retreat_column_times((n - 1) as nat).retreat_column()
        }
    }
}

/// The cursor of a grid. It always lies on the grid, and only the four
/// moves change it.
#[derive(Clone, Copy, Debug, PartialEq, Eq)]
pub struct Selection {
    rows: usize,
    columns: usize,
    row: usize,
    column: usize,
}

impl View for Selection {
    type V = Position;

    closed spec fn view(&self) -> Position {
        Position {
            rows: self.rows as int,
            columns: self.columns as int,
            row: self.row as int,
            column: self.column as int,
        }
    }
}

impl Selection {
    #[verifier::type_invariant]
    spec fn on_grid(self) -> bool {
        self.row < self.rows && self.column < self.columns
    }

    /// The cursor on the first cell of a grid of `rows` rows and `columns`
    /// columns; `None` for a grid without cells.
    pub fn new(rows: usize, columns: usize) -> (selection: Option<Selection>)
        ensures
            selection is Some <==> rows > 0 && columns > 0,
            selection matches Some(s) ==> s@.wf() && s@ == (Position {
                rows: rows as int,
                columns: columns as int,
                row: 0,
                column: 0,
            }),
    {
        if rows == 0 || columns == 0 {
            None
        } else {
            Some(Selection { rows, columns, row: 0, column: 0 })
        }
    }

    /// The number of rows of the grid.
    pub fn rows(&self) -> (rows: usize)
        ensures
            rows == self@.rows,
            self@.wf(),
    {
        proof {
            use_type_invariant(self);
        }
        self.rows
    }

    /// The number of columns of the grid.
    pub fn columns(&self) -> (columns: usize)
        ensures
            columns == self@.columns,
            self@.wf(),
    {
        proof {
            use_type_invariant(self);
        }
        self.columns
    }

    /// The selected row.
    pub fn row(&self) -> (row: usize)
        ensures
            row == self@.row,
            self@.wf(),
    {
        proof {
            use_type_invariant(self);
        }
        self.row
    }

    /// The selected column.
    pub fn column(&self) -> (column: usize)
        ensures
            column == self@.column,
            self@.wf(),
    {
        proof {
            use_type_invariant(self);
        }
        self.column
    }

    /// Moves one row down; from the last row to the first.
    pub fn advance_row(&mut self)
        ensures
            final(self)@ == old(self)@.advance_row(),
            final(self)@.wf(),
        no_unwind
    {
        proof {
            use_type_invariant(&*self);
            lemma_advance_cases(self.row as int, self.rows as int);
        }
        if self.row == self.rows - 1 {
            self.row = 0;
        } else {
            self.row += 1;
        }
    }

    /// Moves one row up; from the first row to the last.
    pub fn retreat_row(&mut self)
        ensures
            final(self)@ == old(self)@.retreat_row(),
            final(self)@.wf(),
        no_unwind
    {
        proof {
            use_type_invariant(&*self);
            lemma_retreat_cases(self.row as int, self.rows as int);
        }
        if self.row == 0 {
            self.row = self.rows - 1;
        } else {
            self.row -= 1;
        }
    }

    /// Moves one column right; from the last column to the first.
    pub fn advance_column(&mut self)
        ensures
            final(self)@ == old(self)@.advance_column(),
            final(self)@.wf(),
        no_unwind
    {
        proof {
            use_type_invariant(&*self);
            lemma_advance_cases(self.column as int, self.columns as int);
        }
        if self.column == self.columns - 1 {
            self.column = 0;
        } else {
            self.column += 1;
        }
    }

    /// Moves one column left; from the first column to the last.
    pub fn retreat_column(&mut self)
        ensures
            final(self)@ == old(self)@.retreat_column(),
            final(self)@.wf(),
        no_unwind
    {
        proof {
            use_type_invariant(&*self);
            lemma_retreat_cases(self.column as int, self.columns as int);
        }
        if self.column == 0 {
            self.column = self.columns - 1;
        } else {
            self.column -= 1;
        }
    }
}

/// Every move of a valid position gives a valid position on the same grid.
pub proof fn lemma_moves_stay_on_grid(p: Position)
    requires
        p.wf(),
    ensures
        p.advance_row().wf(),
        p.retreat_row().wf(),
        p.advance_column().wf(),
        p.retreat_column().wf(),
        p.advance_row().rows == p.rows && p.advance_row().columns == p.columns,
        p.retreat_row().rows == p.rows && p.retreat_row().columns == p.columns,
        p.advance_column().rows == p.rows && p.advance_column().columns == p.columns,
        p.retreat_column().rows == p.rows && p.retreat_column().columns == p.columns,
{
    lemma_advance_cases(p.row, p.rows);
    lemma_retreat_cases(p.row, p.rows);
    lemma_advance_cases(p.column, p.columns);
    lemma_retreat_cases(p.column, p.columns);
}

/// The two axes are independent: a row move leaves the column alone, and a
/// column move leaves the row alone.
pub proof fn lemma_axes_are_independent(p: Position)
    ensures
        p.advance_row().column == p.column,
        p.retreat_row().column == p.column,
        p.advance_column().row == p.row,
        p.retreat_column().row == p.row,
{
}

/// Advancing and retreating along one axis undo each other, in either order.
pub proof fn lemma_opposite_moves_cancel(p: Position)
    requires
        p.wf(),
    ensures
        p.advance_row().retreat_row() == p,
        p.retreat_row().advance_row() == p,
        p.advance_column().retreat_column() == p,
        p.retreat_column().advance_column() == p,
{
    lemma_ring_inverse(p.row, p.rows);
    lemma_ring_inverse(p.column, p.columns);
}

/// Moving as many times along an axis as the axis is long, in one direction,
/// comes back to the starting position.
pub proof fn lemma_full_turn_returns(p: Position)
    requires
        p.wf(),
    ensures
        p.advance_row_times(p.rows as nat) == p,
        p.retreat_row_times(p.rows as nat) == p,
        p.advance_column_times(p.columns as nat) == p,
        p.retreat_column_times(p.columns as nat) == p,
{
    lemma_row_moves_add_up(p, p.rows as nat);
    lemma_column_moves_add_up(p, p.columns as nat);
    lemma_mod_add_multiples_vanish(p.row, p.rows);
    lemma_mod_sub_multiples_vanish(p.row, p.rows);
    lemma_small_mod(p.row as nat, p.rows as nat);
    lemma_mod_add_multiples_vanish(p.column, p.columns);
    lemma_mod_sub_multiples_vanish(p.column, p.columns);
    lemma_small_mod(p.column as nat, p.columns as nat);
}

proof fn lemma_ring_inverse(x: int, size: int)
    requires
        0 <= x < size,
    ensures
        retreat(advance(x, size), size) == x,
        advance(retreat(x, size), size) == x,
{
    lemma_advance_cases(x, size);
    lemma_retreat_cases(x, size);
    lemma_advance_cases(retreat(x, size), size);
    lemma_retreat_cases(advance(x, size), size);
}

proof fn lemma_row_moves_add_up(p: Position, n: nat)
    requires
        p.wf(),
    ensures
        p.advance_row_times(n) == (Position { row: (p.row + n) % p.rows, ..p }),
        p.retreat_row_times(n) == (Position { row: (p.row - n) % p.rows, ..p }),
    decreases n,
{
    if n == 0 {
        lemma_small_mod(p.row as nat, p.rows as nat);
    } else {
        lemma_row_moves_add_up(p, (n - 1) as nat);
        lemma_add_mod_noop_right(1, p.row + n - 1, p.rows);
        lemma_add_mod_noop_right(p.rows - 1, p.row - n + 1, p.rows);
        lemma_mod_add_multiples_vanish(p.row - n, p.rows);
    }
}

proof fn lemma_column_moves_add_up(p: Position, n: nat)
    requires
        p.wf(),
    ensures
        p.advance_column_times(n) == (Position { column: (p.column + n) % p.columns, ..p }),
        p.retreat_column_times(n) == (Position { column: (p.column - n) % p.columns, ..p }),
    decreases n,
{
    if n == 0 {
        lemma_small_mod(p.column as nat, p.columns as nat);
    } else {
        lemma_column_moves_add_up(p, (n - 1) as nat);
        lemma_add_mod_noop_right(1, p.column + n - 1, p.columns);
        lemma_add_mod_noop_right(p.columns - 1, p.column - n + 1, p.columns);
        lemma_mod_add_multiples_vanish(p.column - n, p.columns);
    }
}

} // verus!
