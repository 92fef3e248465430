//! The executable lattice.

use vstd::prelude::*;
use crate::grid_math::{
    lemma_area_fits,
    lemma_index_in_bounds,
    lemma_index_splits,
    lemma_wrap_back,
};
use crate::lattice::{cell_symbol, Lattice};
use crate::random::draw_ratio;

verus! {

/// Why a lattice could not be built or a cell could not be named.
#[derive(Clone, Copy, Debug, PartialEq, Eq, Structural)]
pub enum LatticeError {
    /// The buffer handed over does not hold `width * height` cells.
    DimensionMismatch,
    /// A row or column lies outside the lattice.
    OutOfRange,
    /// A dimension is zero.
    InvalidDimensions,
}

/// The chance that a freshly seeded cell is alive, as numerator and
/// denominator: one in two.
pub const LIVE_CHANCE: (u32, u32) = (1, 2);

/// A toroidal lattice of cells, `true` for alive.
pub struct Universe {
    width: u32,
    height: u32,
    cells: Vec<bool>,
}

impl View for Universe {
    type V = Lattice;

    closed spec fn view(&self) -> Lattice {
        Lattice { width: self.width as nat, height: self.height as nat, cells: self.cells@ }
    }
}

impl Universe {
    #[verifier::type_invariant]
    spec fn inv(self) -> bool {
        self@.wf()
    }

    /// Builds a lattice of the given size and seeds it by chance: each cell
    /// is alive with probability one half, independently of the others.
    ///
    /// A zero dimension is refused. The cell count may not exceed
    /// `isize::MAX`, the most that one buffer can hold.
    pub fn new(width: u32, height: u32) -> (built: Result<Universe, LatticeError>)
        requires
            width * height <= isize::MAX,
        ensures
            width == 0 || height == 0 ==> built == Err::<Universe, LatticeError>(
                LatticeError::InvalidDimensions,
            ),
            width > 0 && height > 0 ==> built is Ok && built->Ok_0@.wf() && built->Ok_0@.width
                == width && built->Ok_0@.height == height && built->Ok_0@.cells.len() == width
                * height,
    {
        if width == 0 || height == 0 {
            return Err(LatticeError::InvalidDimensions);
        }
        let area: usize = (width as usize) * (height as usize);
        let mut rng = rand::thread_rng();
        let mut cells: Vec<bool> = Vec::with_capacity(area);
        while cells.len() < area
            invariant
                cells@.len() <= area,
            decreases area - cells@.len(),
        {
            cells.push(draw_ratio(&mut rng, LIVE_CHANCE.0, LIVE_CHANCE.1));
        }
        Universe::from_cells(width, height, cells)
    }

    /// Builds a lattice from a row-major buffer of cell states.
    ///
    /// A zero dimension is refused first, then a buffer of the wrong length.
    pub fn from_cells(width: u32, height: u32, cells: Vec<bool>) -> (built: Result<
        Universe,
        LatticeError,
    >)
        ensures
            width == 0 || height == 0 ==> built == Err::<Universe, LatticeError>(
                LatticeError::InvalidDimensions,
            ),
            width > 0 && height > 0 && cells@.len() != width * height ==> built == Err::<
                Universe,
                LatticeError,
            >(LatticeError::DimensionMismatch),
            width > 0 && height > 0 && cells@.len() == width * height ==> built is Ok
                && built->Ok_0@ == (Lattice {
                width: width as nat,
                height: height as nat,
                cells: cells@,
            }) && built->Ok_0@.wf(),
    {
        if width == 0 || height == 0 {
            return Err(LatticeError::InvalidDimensions);
        }
        proof {
            lemma_area_fits(width, height);
        }
        let area: u64 = (width as u64) * (height as u64);
        if cells.len() as u64 != area {
            return Err(LatticeError::DimensionMismatch);
        }
        Ok(Universe { width, height, cells })
    }

    /// Number of columns.
    pub fn width(&self) -> (w: u32)
        ensures
            w == self@.width,
            w > 0,
    {
        proof {
            use_type_invariant(self);
        }
        self.width
    }

    /// Number of rows.
    pub fn height(&self) -> (h: u32)
        ensures
            h == self@.height,
            h > 0,
    {
        proof {
            use_type_invariant(self);
        }
        self.height
    }

    /// The cells, row after row, `width * height` of them.
    ///
    /// The borrow ends before the lattice can change again.
    pub fn cells(&self) -> (buffer: &[bool])
        ensures
            buffer@ == self@.cells,
            buffer@.len() == self@.width * self@.height,
            self@.wf(),
    {
        proof {
            use_type_invariant(self);
        }
        self.cells.as_slice()
    }

    /// Position of an in-range `(row, column)` in the buffer.
    fn offset(&self, row: u32, column: u32) -> (index: usize)
        requires
            self@.in_range(row as int, column as int),
        ensures
            index == self@.index_of(row as int, column as int),
            index < self@.cells.len(),
    {
        proof {
            use_type_invariant(self);
            lemma_index_in_bounds(row as int, column as int, self.width as int, self.height as int);
            assert(0 <= row * self.width) by (nonlinear_arith);
            assert(self.cells@.len() == self.cells.len() <= usize::MAX);
        }
        (row as usize) * (self.width as usize) + (column as usize)
    }

    /// Position of `(row, column)` in the buffer: `row * width + column`.
    ///
    /// Direct addressing does not wrap: a coordinate outside the lattice is
    /// refused.
    pub fn get_index(&self, row: u32, column: u32) -> (found: Result<usize, LatticeError>)
        ensures
            self@.wf(),
            self@.in_range(row as int, column as int) ==> found == Ok::<usize, LatticeError>(
                (row * self@.width + column) as usize,
            ) && 0 <= row * self@.width + column < self@.cells.len(),
            !self@.in_range(row as int, column as int) ==> found == Err::<usize, LatticeError>(
                LatticeError::OutOfRange,
            ),
    {
        proof {
            use_type_invariant(self);
        }
        if row >= self.height || column >= self.width {
            return Err(LatticeError::OutOfRange);
        }
        Ok(self.offset(row, column))
    }

    /// 1 if the cell at an in-range `(row, column)` is alive, else 0.
    fn live_at(&self, row: u32, column: u32) -> (live: u8)
        requires
            self@.in_range(row as int, column as int),
        ensures
            live == (if self@.cell(row as int, column as int) { 1int } else { 0int }),
    {
        let index: usize = self.offset(row, column);
        if self.cells[index] {
            1
        } else {
            0
        }
    }

    /// Number of live cells among the eight neighbours of `(row, column)`
    /// on the torus.
    ///
    /// Every coordinate wraps, so any `row` and `column` are accepted.
    pub fn live_neighbor_count(&self, row: u32, column: u32) -> (count: u8)
        ensures
            count == self@.live_neighbor_count(row as int, column as int),
            count <= 8,
    {
        proof {
            use_type_invariant(self);
            lemma_wrap_back(row as int, self.height as int);
            lemma_wrap_back(column as int, self.width as int);
        }
        let height: u64 = self.height as u64;
        let width: u64 = self.width as u64;
        let north: u32 = ((row as u64 + height - 1) % height) as u32;
        let level: u32 = row % self.height;
        let south: u32 = ((row as u64 + 1) % height) as u32;
        let west: u32 = ((column as u64 + width - 1) % width) as u32;
        let middle: u32 = column % self.width;
        let east: u32 = ((column as u64 + 1) % width) as u32;
        self.live_at(north, west) + self.live_at(north, middle) + self.live_at(north, east)
            + self.live_at(level, west) + self.live_at(level, east) + self.live_at(south, west)
            + self.live_at(south, middle) + self.live_at(south, east)
    }

    /// Advances the lattice by one generation.
    ///
    /// A dead cell with exactly `birth_threshold` live neighbours comes alive.
    /// A live cell with a count inside
    /// `survival_threshold_min ..= survival_threshold_max` stays alive. Every
    /// other cell is dead afterwards. The new generation is computed into a
    /// second buffer from the cells as they were on entry, and replaces them
    /// at the end.
    pub fn tick(
        &mut self,
        birth_threshold: u8,
        survival_threshold_min: u8,
        survival_threshold_max: u8,
    )
        ensures
            final(self)@ == old(self)@.step(
                birth_threshold as int,
                survival_threshold_min as int,
                survival_threshold_max as int,
            ),
            final(self)@.wf(),
    {
        proof {
            use_type_invariant(&*self);
        }
        let ghost before = self@;
        let mut next = vec![false; self.cells.len()];
        for row in 0..self.height
            invariant
                self@ == before,
                before.wf(),
                next@.len() == before.cells.len(),
                forall|i: int|
                    0 <= i < row * before.width ==> next@[i] == before.next_cell(
                        i / (before.width as int),
                        i % (before.width as int),
                        birth_threshold as int,
                        survival_threshold_min as int,
                        survival_threshold_max as int,
                    ),
        {
            for column in 0..self.width
                invariant
                    self@ == before,
                    before.wf(),
                    row < before.height,
                    next@.len() == before.cells.len(),
                    forall|i: int|
                        0 <= i < row * before.width + column ==> next@[i] == before.next_cell(
                            i / (before.width as int),
                            i % (before.width as int),
                            birth_threshold as int,
                            survival_threshold_min as int,
                            survival_threshold_max as int,
                        ),
            {
                let index: usize = self.offset(row, column);
                let cell = self.cells[index];
                let live_neighbors: u8 = self.live_neighbor_count(row, column);
                proof {
                    lemma_index_splits(row as int, column as int, before.width as int);
                }
                next[index] = if cell {
                    survival_threshold_min <= live_neighbors && live_neighbors
                        <= survival_threshold_max
                } else {
                    live_neighbors == birth_threshold
                };
            }
            assert((row + 1) * before.width == row * before.width + before.width)
                by (nonlinear_arith);
        }
        assert(self.height * before.width == before.cells.len()) by (nonlinear_arith)
            requires
                before.cells.len() == before.width * before.height,
                self.height == before.height,
        ;
        std::mem::swap(&mut self.cells, &mut next);
        assert(self@.cells =~= before.step(
            birth_threshold as int,
            survival_threshold_min as int,
            survival_threshold_max as int,
        ).cells);
    }

    /// Flips the cell at `(row, column)`: dead becomes alive, alive dead.
    ///
    /// Direct addressing does not wrap: a coordinate outside the lattice is
    /// refused and nothing changes.
    pub fn toggle_cell(&mut self, row: u32, column: u32) -> (done: Result<(), LatticeError>)
        ensures
            final(self)@.wf(),
            old(self)@.in_range(row as int, column as int) ==> done == Ok::<(), LatticeError>(())
                && final(self)@ == old(self)@.toggled(row as int, column as int),
            !old(self)@.in_range(row as int, column as int) ==> done == Err::<(), LatticeError>(
                LatticeError::OutOfRange,
            ) && final(self)@ == old(self)@,
    {
        proof {
            use_type_invariant(&*self);
        }
        if row >= self.height || column >= self.width {
            return Err(LatticeError::OutOfRange);
        }
        let index: usize = self.offset(row, column);
        self.cells[index] = !self.cells[index];
        Ok(())
    }

    /// The lattice as text: one line per row, a filled square for a live
    /// cell and a hollow one for a dead cell, each line ended by a newline.
    pub fn render(&self) -> (text: String)
        ensures
            text@ == self@.rendering(),
    {
        proof {
            use_type_invariant(self);
        }
        let mut text = String::new();
        for row in 0..self.height
            invariant
                self@.wf(),
                text@ == self@.rendered_rows(row as int),
        {
            for column in 0..self.width
                invariant
                    self@.wf(),
                    row < self@.height,
                    text@ == self@.rendered_rows(row as int) + self@.rendered_row(
                        row as int,
                        column as int,
                    ),
            {
                let index: usize = self.offset(row, column);
                let ghost drawn = text@;
                if self.cells[index] {
                    text.append("\u{25FC}");
                } else {
                    text.append("\u{25FB}");
                }
                proof {
                    reveal_strlit("\u{25FC}");
                    reveal_strlit("\u{25FB}");
                    let symbol = cell_symbol(self@.cell(row as int, column as int));
                    assert(text@ =~= drawn.push(symbol));
                    assert(self@.rendered_row(row as int, column + 1) =~= self@.rendered_row(
                        row as int,
                        column as int,
                    ).push(symbol));
                    assert(text@ =~= self@.rendered_rows(row as int) + self@.rendered_row(
                        row as int,
                        column + 1,
                    ));
                }
            }
            let ghost drawn = text@;
            text.append("\n");
            proof {
                reveal_strlit("\n");
                assert(text@ =~= drawn.push('\n'));
                assert(text@ =~= self@.rendered_rows(row + 1));
            }
        }
        text
    }
}

} // verus!
