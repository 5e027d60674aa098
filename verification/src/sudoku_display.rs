//! The grid renderer: where each cell of a board is placed.
//!
//! A board is drawn from one square cell template and one placement of that
//! template per cell. Placements come row by row, and within a row column by
//! column.

use vstd::prelude::*;
use vstd::arithmetic::div_mod::{lemma_fundamental_div_mod, lemma_fundamental_div_mod_converse};
use crate::sudoku::{Dimensions, DimensionsError, Sudoku};

verus! {

/// Edge length of one cell, in display units.
pub const CELL_SIZE: u32 = 64;

/// One placed instance of the cell template.
///
/// Coordinates are 64 bits wide: the product of any `i32` index and any `u32`
/// cell size fits, so laying out a board never overflows.
#[derive(Clone, Copy, Debug, PartialEq, Eq, Structural)]
pub struct Placement {
    pub row_index: i32,
    pub column_index: i32,
    pub x: i64,
    pub y: i64,
}

/// The placement of the cell in row `row` and column `column`: `cell_size`
/// units to the right for every column before it, and as many down for every
/// row above it.
pub open spec fn placement_at(row: int, column: int, cell_size: int) -> Placement {
    Placement {
        row_index: row as i32,
        column_index: column as i32,
        x: (column * cell_size) as i64,
        y: (row * cell_size) as i64,
    }
}

/// Where the cell in row `row` and column `column` stands when the cells of
/// a board are listed row by row.
pub open spec fn row_major_position(dimensions: Dimensions, row: int, column: int) -> int {
    row * dimensions.columns + column
}

/// All placements of a board, in row-major order: entry `k` is the cell in row
/// `k / columns` and column `k % columns`. Dimensions that are not positive
/// have no placements.
pub open spec fn grid_placements(dimensions: Dimensions, cell_size: int) -> Seq<Placement> {
    if dimensions.is_positive() {
        Seq::new(
            dimensions.cell_count() as nat,
            |k: int|
                placement_at(
                    k / (dimensions.columns as int),
                    k % (dimensions.columns as int),
                    cell_size,
                ),
        )
    } else {
        Seq::empty()
    }
}

/// The one square that every cell of a grid is an instance of. It is defined
/// once, at the origin; a placement only says where an instance goes.
#[derive(Clone, Copy, Debug, PartialEq, Eq, Structural)]
pub struct CellTemplate {
    pub x: i64,
    pub y: i64,
    pub width: u32,
    pub height: u32,
}

/// Mathematical content of a [`Grid`].
pub struct SpecGrid {
    pub dimensions: Dimensions,
    pub cell: CellTemplate,
    pub placements: Seq<Placement>,
}

/// What the grid renderer shows for one board: the dimensions it was drawn
/// for, the cell template, and one placement of the template per cell.
#[derive(Debug, PartialEq, Eq)]
pub struct Grid {
    pub dimensions: Dimensions,
    pub cell: CellTemplate,
    pub placements: Vec<Placement>,
}

impl View for Grid {
    type V = SpecGrid;

    open spec fn view(&self) -> SpecGrid {
        SpecGrid { dimensions: self.dimensions, cell: self.cell, placements: self.placements@ }
    }
}

/// The square of edge `cell_size` at the origin.
pub open spec fn cell_template(cell_size: u32) -> CellTemplate {
    CellTemplate { x: 0, y: 0, width: cell_size, height: cell_size }
}

/// The grid of a board of the given dimensions, drawn with cells of edge
/// `cell_size`.
pub open spec fn grid_of(dimensions: Dimensions, cell_size: u32) -> SpecGrid {
    SpecGrid {
        dimensions,
        cell: cell_template(cell_size),
        placements: grid_placements(dimensions, cell_size as int),
    }
}

/// Position `row * columns + column` of a row-major sequence belongs to the
/// cell in row `row` and column `column`.
proof fn lemma_row_major_index(row: int, column: int, columns: int)
    requires
        0 <= row,
        0 <= column < columns,
    ensures
        (row * columns + column) / columns == row,
        (row * columns + column) % columns == column,
        0 <= row * columns + column,
{
    lemma_fundamental_div_mod_converse(row * columns + column, columns, row, column);
    assert(0 <= row * columns) by (nonlinear_arith)
        requires
            0 <= row,
            0 < columns,
    ;
}

/// The coordinate of any `i32` index at any `u32` cell size fits in an `i64`.
proof fn lemma_coordinate_fits(index: int, cell_size: int)
    requires
        0 <= index <= i32::MAX,
        0 <= cell_size <= u32::MAX,
    ensures
        0 <= index * cell_size <= i64::MAX,
{
    assert(0 <= index * cell_size <= 0x7fff_ffff * 0xffff_ffff) by (nonlinear_arith)
        requires
            0 <= index <= 0x7fff_ffff,
            0 <= cell_size <= 0xffff_ffff,
    ;
}

/// Lays out a board of the given dimensions with cells of edge `cell_size`.
///
/// Dimensions with a count that is not positive are refused; for all others
/// the result holds one placement per cell, in row-major order.
pub fn cell_placements(dimensions: &Dimensions, cell_size: u32) -> (result: Result<
    Vec<Placement>,
    DimensionsError,
>)
    ensures
        match result {
            Ok(placements) => dimensions.is_positive() && placements@ == grid_placements(
                *dimensions,
                cell_size as int,
            ),
            Err(error) => dimensions.rejection() == Some(error),
        },
{
    match dimensions.validate() {
        Err(error) => {
            return Err(error);
        },
        Ok(()) => {},
    }
    let rows: i32 = dimensions.rows;
    let columns: i32 = dimensions.columns;
    let mut placements: Vec<Placement> = Vec::new();
    let mut row: i32 = 0;
    while row < rows
        invariant
            0 <= row <= rows,
            0 < columns,
            placements@.len() == row * columns,
            forall|k: int|
                0 <= k < placements@.len() ==> #[trigger] placements@[k] == placement_at(
                    k / (columns as int),
                    k % (columns as int),
                    cell_size as int,
                ),
        decreases rows - row,
    {
        proof {
            lemma_coordinate_fits(row as int, cell_size as int);
        }
        let y: i64 = (row as i64) * (cell_size as i64);
        let mut column: i32 = 0;
        while column < columns
            invariant
                0 <= row < rows,
                0 <= column <= columns,
                y == row * cell_size,
                placements@.len() == row * columns + column,
                forall|k: int|
                    0 <= k < placements@.len() ==> #[trigger] placements@[k] == placement_at(
                        k / (columns as int),
                        k % (columns as int),
                        cell_size as int,
                    ),
            decreases columns - column,
        {
            proof {
                lemma_coordinate_fits(column as int, cell_size as int);
            }
            let x: i64 = (column as i64) * (cell_size as i64);
            proof {
                lemma_row_major_index(row as int, column as int, columns as int);
            }
            placements.push(Placement { row_index: row, column_index: column, x, y });
            column = column + 1;
        }
        proof {
            assert(row * columns + columns == (row + 1) * columns) by (nonlinear_arith);
        }
        row = row + 1;
    }
    Ok(placements)
}

/// Renders the board of a puzzle: its grid at the standard cell size.
///
/// Only the puzzle's dimensions matter. A puzzle whose dimensions are not
/// positive is refused, and the error says which count is at fault.
#[allow(non_snake_case)]
pub fn SudokuDisplay(sudoku: Sudoku) -> (result: Result<Grid, DimensionsError>)
    ensures
        match result {
            Ok(grid) => sudoku.dimensions.is_positive() && grid@ == grid_of(
                sudoku.dimensions,
                CELL_SIZE,
            ),
            Err(error) => sudoku.dimensions.rejection() == Some(error),
        },
{
    let dimensions = sudoku.dimensions;
    match cell_placements(&dimensions, CELL_SIZE) {
        Ok(placements) => Ok(
            Grid {
                dimensions,
                cell: CellTemplate { x: 0, y: 0, width: CELL_SIZE, height: CELL_SIZE },
                placements,
            },
        ),
        Err(error) => Err(error),
    }
}

/// Position `k` of a row-major sequence over `rows` by `columns` cells belongs
/// to a cell inside the board, and that cell determines `k`.
proof fn lemma_cell_of_index(k: int, rows: int, columns: int)
    requires
        0 < rows,
        0 < columns,
        0 <= k < rows * columns,
    ensures
        0 <= k / columns < rows,
        0 <= k % columns < columns,
        k == (k / columns) * columns + k % columns,
{
    lemma_fundamental_div_mod(k, columns);
    let q = k / columns;
    let r = k % columns;
    assert(columns * q == q * columns) by (nonlinear_arith);
    assert(0 <= q < rows) by (nonlinear_arith)
        requires
            0 < columns,
            0 <= r < columns,
            0 <= q * columns + r < rows * columns,
    ;
}

/// A row-major position inside the board is smaller than the cell count.
proof fn lemma_index_of_cell(row: int, column: int, rows: int, columns: int)
    requires
        0 <= row < rows,
        0 <= column < columns,
    ensures
        0 <= row * columns + column < rows * columns,
{
    assert(0 <= row * columns + column < rows * columns) by (nonlinear_arith)
        requires
            0 <= row < rows,
            0 <= column < columns,
    ;
}

/// A board with positive dimensions gets exactly `rows * columns` placements,
/// and every cell of the board is placed exactly once: each placement carries
/// the indices of a cell of the board, the cell in row `row` and column
/// `column` is the placement at its row-major position, and that position is
/// the only one with these indices.
pub proof fn lemma_every_cell_placed_once(dimensions: Dimensions, cell_size: u32)
    requires
        dimensions.is_positive(),
    ensures
        grid_placements(dimensions, cell_size as int).len() == dimensions.rows * dimensions.columns,
        forall|k: int|
            #![trigger grid_placements(dimensions, cell_size as int)[k]]
            0 <= k < dimensions.rows * dimensions.columns ==> {
                let placement = grid_placements(dimensions, cell_size as int)[k];
                &&& 0 <= placement.row_index < dimensions.rows
                &&& 0 <= placement.column_index < dimensions.columns
                &&& k == row_major_position(
                    dimensions,
                    placement.row_index as int,
                    placement.column_index as int,
                )
            },
        forall|row: int, column: int|
            0 <= row < dimensions.rows && 0 <= column < dimensions.columns ==> {
                let k = #[trigger] row_major_position(dimensions, row, column);
                &&& 0 <= k < dimensions.rows * dimensions.columns
                &&& grid_placements(dimensions, cell_size as int)[k].row_index == row
                &&& grid_placements(dimensions, cell_size as int)[k].column_index == column
            },
{
    let rows = dimensions.rows as int;
    let columns = dimensions.columns as int;
    let size = cell_size as int;
    let placements = grid_placements(dimensions, size);
    assert(0 < rows * columns) by (nonlinear_arith)
        requires
            0 < rows,
            0 < columns,
    ;
    assert forall|k: int| 0 <= k < rows * columns implies {
        let placement = #[trigger] placements[k];
        &&& 0 <= placement.row_index < rows
        &&& 0 <= placement.column_index < columns
        &&& k == row_major_position(
            dimensions,
            placement.row_index as int,
            placement.column_index as int,
        )
    } by {
        lemma_cell_of_index(k, rows, columns);
    }
    assert forall|row: int, column: int| 0 <= row < rows && 0 <= column < columns implies {
        let k = #[trigger] row_major_position(dimensions, row, column);
        &&& 0 <= k < rows * columns
        &&& placements[k].row_index == row
        &&& placements[k].column_index == column
    } by {
        lemma_index_of_cell(row, column, rows, columns);
        lemma_row_major_index(row, column, columns);
    }
}

/// Every placement of a board with positive dimensions lies `cell_size` units
/// to the right for each column before it and `cell_size` units down for each
/// row above it.
pub proof fn lemma_placement_coordinates(dimensions: Dimensions, cell_size: u32)
    requires
        dimensions.is_positive(),
    ensures
        forall|k: int|
            #![trigger grid_placements(dimensions, cell_size as int)[k]]
            0 <= k < dimensions.rows * dimensions.columns ==> {
                let placement = grid_placements(dimensions, cell_size as int)[k];
                &&& placement.x == placement.column_index * cell_size
                &&& placement.y == placement.row_index * cell_size
            },
{
    let rows = dimensions.rows as int;
    let columns = dimensions.columns as int;
    let size = cell_size as int;
    let placements = grid_placements(dimensions, size);
    assert forall|k: int| 0 <= k < rows * columns implies {
        let placement = #[trigger] placements[k];
        &&& placement.x == placement.column_index * size
        &&& placement.y == placement.row_index * size
    } by {
        lemma_cell_of_index(k, rows, columns);
        lemma_coordinate_fits(k / columns, size);
        lemma_coordinate_fits(k % columns, size);
    }
}

} // verus!
