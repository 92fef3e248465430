//! What holds of every lattice, proved from the definitions in
//! [`crate::lattice`].

use vstd::prelude::*;
use vstd::arithmetic::div_mod::lemma_mod_add_multiples_vanish;
use crate::grid_math::{lemma_index_coordinates, lemma_index_in_bounds, lemma_index_splits};
use crate::lattice::{cell_symbol, rule_outcome, Lattice};

verus! {

/// One change to a lattice: a generation under some rule, or the flip of
/// one cell.
pub enum Edit {
    Advance { birth_threshold: int, survival_min: int, survival_max: int },
    Toggle { row: int, column: int },
}

/// The lattice after one edit. A flip outside the lattice changes nothing.
pub open spec fn apply_edit(lattice: Lattice, edit: Edit) -> Lattice {
    match edit {
        Edit::Advance { birth_threshold, survival_min, survival_max } => lattice.step(
            birth_threshold,
            survival_min,
            survival_max,
        ),
        Edit::Toggle { row, column } => if lattice.in_range(row, column) {
            lattice.toggled(row, column)
        } else {
            lattice
        },
    }
}

/// The lattice after a run of edits, first to last.
pub open spec fn apply_edits(lattice: Lattice, edits: Seq<Edit>) -> Lattice
    decreases edits.len(),
{
    if edits.len() == 0 {
        lattice
    } else {
        apply_edit(apply_edits(lattice, edits.drop_last()), edits.last())
    }
}

/// A generation keeps the dimensions and the number of cells.
pub proof fn step_keeps_shape(
    lattice: Lattice,
    birth_threshold: int,
    survival_min: int,
    survival_max: int,
)
    requires
        lattice.wf(),
    ensures
        lattice.step(birth_threshold, survival_min, survival_max).wf(),
        lattice.step(birth_threshold, survival_min, survival_max).width == lattice.width,
        lattice.step(birth_threshold, survival_min, survival_max).height == lattice.height,
        lattice.step(birth_threshold, survival_min, survival_max).cells.len()
            == lattice.width * lattice.height,
{
}

/// A flip keeps the dimensions and the number of cells.
pub proof fn toggle_keeps_shape(lattice: Lattice, row: int, column: int)
    requires
        lattice.wf(),
        lattice.in_range(row, column),
    ensures
        lattice.toggled(row, column).wf(),
        lattice.toggled(row, column).width == lattice.width,
        lattice.toggled(row, column).height == lattice.height,
        lattice.toggled(row, column).cells.len() == lattice.width * lattice.height,
{
    lemma_index_in_bounds(row, column, lattice.width as int, lattice.height as int);
}

/// The size invariant: whatever generations and flips a lattice goes
/// through, in whatever order, it keeps its dimensions and holds exactly
/// `width * height` cells.
pub proof fn edits_keep_shape(lattice: Lattice, edits: Seq<Edit>)
    requires
        lattice.wf(),
    ensures
        apply_edits(lattice, edits).wf(),
        apply_edits(lattice, edits).width == lattice.width,
        apply_edits(lattice, edits).height == lattice.height,
        apply_edits(lattice, edits).cells.len() == lattice.width * lattice.height,
    decreases edits.len(),
{
    if edits.len() > 0 {
        edits_keep_shape(lattice, edits.drop_last());
        let earlier = apply_edits(lattice, edits.drop_last());
        match edits.last() {
            Edit::Advance { birth_threshold, survival_min, survival_max } => {
                step_keeps_shape(earlier, birth_threshold, survival_min, survival_max);
            },
            Edit::Toggle { row, column } => {
                if earlier.in_range(row, column) {
                    toggle_keeps_shape(earlier, row, column);
                }
            },
        }
    }
}

/// Double buffering: after a generation every cell holds what the rule
/// gives for its own state and its live neighbours in the lattice as it was
/// before. No cell's outcome depends on another cell's outcome.
pub proof fn step_reads_the_old_generation(
    lattice: Lattice,
    row: int,
    column: int,
    birth_threshold: int,
    survival_min: int,
    survival_max: int,
)
    requires
        lattice.wf(),
        lattice.in_range(row, column),
    ensures
        lattice.step(birth_threshold, survival_min, survival_max).cell(row, column)
            == rule_outcome(
            lattice.cell(row, column),
            lattice.live_neighbor_count(row, column),
            birth_threshold,
            survival_min,
            survival_max,
        ),
{
    lemma_index_in_bounds(row, column, lattice.width as int, lattice.height as int);
    lemma_index_splits(row, column, lattice.width as int);
}

/// Birth is exact: a dead cell is alive after a generation if and only if
/// it has exactly `birth_threshold` live neighbours. One neighbour fewer or
/// one more leaves it dead.
pub proof fn birth_is_exact(
    lattice: Lattice,
    row: int,
    column: int,
    birth_threshold: int,
    survival_min: int,
    survival_max: int,
)
    requires
        lattice.wf(),
        lattice.in_range(row, column),
        !lattice.cell(row, column),
    ensures
        lattice.step(birth_threshold, survival_min, survival_max).cell(row, column) <==> (
        lattice.live_neighbor_count(row, column) == birth_threshold),
        lattice.live_neighbor_count(row, column) == birth_threshold - 1 ==> !lattice.step(
            birth_threshold,
            survival_min,
            survival_max,
        ).cell(row, column),
        lattice.live_neighbor_count(row, column) == birth_threshold + 1 ==> !lattice.step(
            birth_threshold,
            survival_min,
            survival_max,
        ).cell(row, column),
{
    step_reads_the_old_generation(
        lattice,
        row,
        column,
        birth_threshold,
        survival_min,
        survival_max,
    );
}

/// Survival is inclusive: a live cell is alive after a generation if and
/// only if its live neighbours number at least `survival_min` and at most
/// `survival_max`. Where the two bounds are in order, a count equal to
/// either keeps the cell alive. A count one below the lower bound or one
/// above the upper bound kills it.
pub proof fn survival_is_inclusive(
    lattice: Lattice,
    row: int,
    column: int,
    birth_threshold: int,
    survival_min: int,
    survival_max: int,
)
    requires
        lattice.wf(),
        lattice.in_range(row, column),
        lattice.cell(row, column),
    ensures
        lattice.step(birth_threshold, survival_min, survival_max).cell(row, column) <==> (
        survival_min <= lattice.live_neighbor_count(row, column) <= survival_max),
        survival_min <= survival_max && (lattice.live_neighbor_count(row, column) == survival_min
            || lattice.live_neighbor_count(row, column) == survival_max) ==> lattice.step(
            birth_threshold,
            survival_min,
            survival_max,
        ).cell(row, column),
        lattice.live_neighbor_count(row, column) == survival_min - 1 || lattice.live_neighbor_count(
            row,
            column,
        ) == survival_max + 1 ==> !lattice.step(birth_threshold, survival_min, survival_max).cell(
            row,
            column,
        ),
{
    step_reads_the_old_generation(
        lattice,
        row,
        column,
        birth_threshold,
        survival_min,
        survival_max,
    );
}

/// Nothing is born from nothing: a lattice without a live cell stays
/// without one under every rule whose birth threshold is not zero.
pub proof fn dead_lattice_stays_dead(
    lattice: Lattice,
    birth_threshold: int,
    survival_min: int,
    survival_max: int,
)
    requires
        lattice.wf(),
        birth_threshold != 0,
        forall|i: int| 0 <= i < lattice.cells.len() ==> !lattice.cells[i],
    ensures
        lattice.step(birth_threshold, survival_min, survival_max) == lattice,
        forall|i: int|
            0 <= i < lattice.cells.len() ==> !lattice.step(
                birth_threshold,
                survival_min,
                survival_max,
            ).cells[i],
{
    let next = lattice.step(birth_threshold, survival_min, survival_max);
    assert forall|i: int| 0 <= i < lattice.cells.len() implies !next.cells[i] by {
        let width = lattice.width as int;
        let height = lattice.height as int;
        lemma_index_coordinates(i, width, height);
        let row = i / width;
        let column = i % width;
        assert(lattice.cell(row, column) == lattice.cells[i]);
        dead_cells_have_no_live_neighbors(lattice, row, column);
    }
    assert(next.cells =~= lattice.cells);
}

/// In a lattice without a live cell no position has a live neighbour.
proof fn dead_cells_have_no_live_neighbors(lattice: Lattice, row: int, column: int)
    requires
        lattice.wf(),
        forall|i: int| 0 <= i < lattice.cells.len() ==> !lattice.cells[i],
    ensures
        lattice.live_neighbor_count(row, column) == 0,
{
    assert forall|r: int, c: int| lattice.live(r, c) == 0 by {
        wrapped_coordinates_are_in_range(lattice, r, c);
        let wrapped_row = r % (lattice.height as int);
        let wrapped_column = c % (lattice.width as int);
        lemma_index_in_bounds(
            wrapped_row,
            wrapped_column,
            lattice.width as int,
            lattice.height as int,
        );
    }
}

/// Wrapping brings every coordinate pair into the lattice.
pub proof fn wrapped_coordinates_are_in_range(lattice: Lattice, row: int, column: int)
    requires
        lattice.wf(),
    ensures
        lattice.in_range(row % (lattice.height as int), column % (lattice.width as int)),
{
    vstd::arithmetic::div_mod::lemma_mod_bound(row, lattice.height as int);
    vstd::arithmetic::div_mod::lemma_mod_bound(column, lattice.width as int);
}

/// Flipping the same cell twice gives back the lattice as it was.
pub proof fn toggle_twice_restores(lattice: Lattice, row: int, column: int)
    requires
        lattice.wf(),
        lattice.in_range(row, column),
    ensures
        lattice.toggled(row, column).toggled(row, column) == lattice,
{
    lemma_index_in_bounds(row, column, lattice.width as int, lattice.height as int);
    assert(lattice.toggled(row, column).toggled(row, column).cells =~= lattice.cells);
}

/// A flip changes the cell it names and no other.
pub proof fn toggle_changes_one_cell(
    lattice: Lattice,
    row: int,
    column: int,
    other_row: int,
    other_column: int,
)
    requires
        lattice.wf(),
        lattice.in_range(row, column),
        lattice.in_range(other_row, other_column),
    ensures
        lattice.toggled(row, column).cell(row, column) == !lattice.cell(row, column),
        (other_row, other_column) != (row, column) ==> lattice.toggled(row, column).cell(
            other_row,
            other_column,
        ) == lattice.cell(other_row, other_column),
{
    let width = lattice.width as int;
    lemma_index_in_bounds(row, column, width, lattice.height as int);
    lemma_index_in_bounds(other_row, other_column, width, lattice.height as int);
    lemma_index_splits(row, column, width);
    lemma_index_splits(other_row, other_column, width);
}

/// The lattice is a torus: a full turn along either axis comes back to the
/// same neighbourhood.
pub proof fn neighborhood_wraps(lattice: Lattice, row: int, column: int)
    requires
        lattice.wf(),
    ensures
        lattice.live_neighbor_count(row + lattice.height, column) == lattice.live_neighbor_count(
            row,
            column,
        ),
        lattice.live_neighbor_count(row, column + lattice.width) == lattice.live_neighbor_count(
            row,
            column,
        ),
        0 <= lattice.live_neighbor_count(row, column) <= 8,
{
    let height = lattice.height as int;
    let width = lattice.width as int;
    lemma_mod_add_multiples_vanish(row - 1, height);
    lemma_mod_add_multiples_vanish(row, height);
    lemma_mod_add_multiples_vanish(row + 1, height);
    lemma_mod_add_multiples_vanish(column - 1, width);
    lemma_mod_add_multiples_vanish(column, width);
    lemma_mod_add_multiples_vanish(column + 1, width);
    assert(row + height - 1 == height + (row - 1));
    assert(row + height == height + row);
    assert(row + height + 1 == height + (row + 1));
    assert(column + width - 1 == width + (column - 1));
    assert(column + width == width + column);
    assert(column + width + 1 == width + (column + 1));
}

/// The text of the first `rows` rows has `width + 1` characters per row,
/// and the character of each cell and of each line end stands at its place.
proof fn rendered_rows_layout(lattice: Lattice, rows: int, row: int, column: int)
    requires
        lattice.wf(),
        0 <= row < rows <= lattice.height,
        0 <= column <= lattice.width,
    ensures
        lattice.rendered_rows(rows).len() == rows * (lattice.width + 1),
        0 <= row * (lattice.width + 1) + column < rows * (lattice.width + 1),
        lattice.rendered_rows(rows)[row * (lattice.width + 1) + column] == (if column
            == lattice.width {
            '\n'
        } else {
            cell_symbol(lattice.cell(row, column))
        }),
    decreases rows,
{
    let stride = lattice.width + 1;
    rendered_rows_length(lattice, rows);
    rendered_rows_length(lattice, rows - 1);
    assert(0 <= row * stride + column < rows * stride) by (nonlinear_arith)
        requires
            0 <= row < rows,
            0 <= column < stride,
    ;
    assert((rows - 1) * stride + stride == rows * stride) by (nonlinear_arith);
    if row < rows - 1 {
        rendered_rows_layout(lattice, rows - 1, row, column);
    } else {
        assert(row * stride + column - (rows - 1) * stride == column);
    }
}

/// The text of the first `rows` rows has `width + 1` characters per row.
proof fn rendered_rows_length(lattice: Lattice, rows: int)
    requires
        0 <= rows,
    ensures
        lattice.rendered_rows(rows).len() == rows * (lattice.width + 1),
    decreases rows,
{
    let stride = lattice.width + 1;
    if rows > 0 {
        rendered_rows_length(lattice, rows - 1);
        assert((rows - 1) * stride + stride == rows * stride) by (nonlinear_arith);
        assert(lattice.rendered_row(rows - 1, lattice.width as int).push('\n').len() == stride);
    } else {
        assert(rows * stride == 0) by (nonlinear_arith)
            requires
                rows == 0,
        ;
    }
}

/// The text form laid out: `height` lines of `width + 1` characters, the
/// symbol of the cell at `(row, column)` at position
/// `row * (width + 1) + column`, and a newline at the end of every line.
pub proof fn rendering_layout(lattice: Lattice, row: int, column: int)
    requires
        lattice.wf(),
        0 <= row < lattice.height,
        0 <= column <= lattice.width,
    ensures
        lattice.rendering().len() == lattice.height * (lattice.width + 1),
        0 <= row * (lattice.width + 1) + column < lattice.rendering().len(),
        column < lattice.width ==> lattice.rendering()[row * (lattice.width + 1) + column]
            == cell_symbol(lattice.cell(row, column)),
        column == lattice.width ==> lattice.rendering()[row * (lattice.width + 1) + column]
            == '\n',
{
    rendered_rows_layout(lattice, lattice.height as int, row, column);
}

} // verus!
