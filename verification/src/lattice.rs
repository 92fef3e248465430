//! The mathematical model: a grid of two-state cells whose edges wrap.

use vstd::prelude::*;

verus! {

/// What one cell becomes in the next generation, given its state and the
/// number of its live neighbours.
///
/// A dead cell comes alive exactly on `birth_threshold` live neighbours. A
/// live cell stays alive exactly when the count lies in
/// `survival_min ..= survival_max`.
pub open spec fn rule_outcome(
    alive: bool,
    live_neighbors: int,
    birth_threshold: int,
    survival_min: int,
    survival_max: int,
) -> bool {
    if alive {
        survival_min <= live_neighbors <= survival_max
    } else {
        live_neighbors == birth_threshold
    }
}

/// How a live cell is drawn: a filled square.
pub const ALIVE_SYMBOL: char = '\u{25FC}';

/// How a dead cell is drawn: a hollow square.
pub const DEAD_SYMBOL: char = '\u{25FB}';

/// The character that stands for a cell in the text form of a lattice.
pub open spec fn cell_symbol(alive: bool) -> char {
    if alive {
        ALIVE_SYMBOL
    } else {
        DEAD_SYMBOL
    }
}

/// A grid of cells, row after row, as a mathematical value.
pub struct Lattice {
    pub width: nat,
    pub height: nat,
    pub cells: Seq<bool>,
}

impl Lattice {
    /// Both dimensions are positive and there is one cell per coordinate.
    pub open spec fn wf(self) -> bool {
        &&& self.width > 0
        &&& self.height > 0
        &&& self.cells.len() == self.width * self.height
    }

    /// `(row, column)` names a cell without wrapping.
    pub open spec fn in_range(self, row: int, column: int) -> bool {
        0 <= row < self.height && 0 <= column < self.width
    }

    /// Position of `(row, column)` in the row-major buffer.
    pub open spec fn index_of(self, row: int, column: int) -> int {
        row * self.width + column
    }

    /// State of the cell at `(row, column)`, addressed directly.
    pub open spec fn cell(self, row: int, column: int) -> bool {
        self.cells[self.index_of(row, column)]
    }

    /// State of the cell that `(row, column)` names on the torus: each
    /// coordinate is taken modulo its dimension.
    pub open spec fn wrapped_cell(self, row: int, column: int) -> bool {
        self.cell(row % (self.height as int), column % (self.width as int))
    }

    /// 1 if the cell that `(row, column)` names on the torus is alive, else 0.
    pub open spec fn live(self, row: int, column: int) -> int {
        if self.wrapped_cell(row, column) {
            1
        } else {
            0
        }
    }

    /// Number of live cells among the eight positions around `(row, column)`.
    ///
    /// Each position is sampled once, also where wrapping makes two of them
    /// the same cell (a lattice with a single row or column).
    pub open spec fn live_neighbor_count(self, row: int, column: int) -> int {
        self.live(row - 1, column - 1) + self.live(row - 1, column) + self.live(row - 1, column + 1)
            + self.live(row, column - 1) + self.live(row, column + 1)
            + self.live(row + 1, column - 1) + self.live(row + 1, column)
            + self.live(row + 1, column + 1)
    }

    /// State of the cell at `(row, column)` one generation later.
    pub open spec fn next_cell(
        self,
        row: int,
        column: int,
        birth_threshold: int,
        survival_min: int,
        survival_max: int,
    ) -> bool {
        rule_outcome(
            self.cell(row, column),
            self.live_neighbor_count(row, column),
            birth_threshold,
            survival_min,
            survival_max,
        )
    }

    /// The lattice one generation later: every cell is judged against this
    /// lattice, none against a cell already replaced.
    pub open spec fn step(
        self,
        birth_threshold: int,
        survival_min: int,
        survival_max: int,
    ) -> Lattice {
        Lattice {
            width: self.width,
            height: self.height,
            cells: Seq::new(
                self.cells.len(),
                |i: int|
                    self.next_cell(
                        i / (self.width as int),
                        i % (self.width as int),
                        birth_threshold,
                        survival_min,
                        survival_max,
                    ),
            ),
        }
    }

    /// The lattice with the cell at `(row, column)` flipped.
    pub open spec fn toggled(self, row: int, column: int) -> Lattice {
        Lattice {
            width: self.width,
            height: self.height,
            cells: self.cells.update(self.index_of(row, column), !self.cell(row, column)),
        }
    }

    /// The first `columns` symbols of the text of row `row`.
    pub open spec fn rendered_row(self, row: int, columns: int) -> Seq<char> {
        Seq::new(columns as nat, |column: int| cell_symbol(self.cell(row, column)))
    }

    /// The text of the first `rows` rows: each row's symbols, then a newline.
    pub open spec fn rendered_rows(self, rows: int) -> Seq<char>
        decreases rows,
    {
        if rows <= 0 {
            Seq::empty()
        } else {
            self.rendered_rows(rows - 1) + self.rendered_row(rows - 1, self.width as int).push(
                '\n',
            )
        }
    }

    /// The text form of the whole lattice.
    pub open spec fn rendering(self) -> Seq<char> {
        self.rendered_rows(self.height as int)
    }
}

} // verus!
