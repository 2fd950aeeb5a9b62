//! The playing field as a mathematical object: which cells a piece covers,
//! when it fits, what the field looks like once a piece is written into it,
//! and how full rows are removed.

use crate::pieces::Tetromino;
use vstd::prelude::*;

verus! {

/// Number of rows of the playing field.
pub const HEIGHT: usize = 20;

/// Number of columns of the playing field.
pub const WIDTH: usize = 10;

/// The playing field: rows from top to bottom, each row from left to right.
/// A cell holds 0 when it is empty and the index of a piece otherwise.
pub type Grid = [[u8; WIDTH]; HEIGHT];

/// The rows of a grid as sequences of cells.
pub open spec fn grid_view(grid: Grid) -> Seq<Seq<u8>> {
    Seq::new(HEIGHT as nat, |r: int| grid[r]@)
}

/// A board has 20 rows of 10 cells, and a cell holds 0 or a piece index.
pub open spec fn is_board(board: Seq<Seq<u8>>) -> bool {
    &&& board.len() == HEIGHT
    &&& forall|r: int| 0 <= r < HEIGHT ==> (#[trigger] board[r]).len() == WIDTH
    &&& forall|r: int, c: int| 0 <= r < HEIGHT && 0 <= c < WIDTH ==> #[trigger] board[r][c] <= 7
}

/// Column of the `k`-th cell of `shape` when its pivot stands in column `x`.
pub open spec fn cell_col(x: int, shape: Tetromino, k: int) -> int {
    x + shape[k].0
}

/// Row of the `k`-th cell of `shape` when its pivot stands in row `y`. Shape
/// offsets grow upwards and board rows grow downwards.
pub open spec fn cell_row(y: int, shape: Tetromino, k: int) -> int {
    y - shape[k].1
}

/// A cell is free when it lies between the walls and above the floor, and
/// is either above the visible field or empty.
pub open spec fn cell_free(board: Seq<Seq<u8>>, col: int, row: int) -> bool {
    &&& 0 <= col < WIDTH
    &&& row < HEIGHT
    &&& (row < 0 || board[row][col] == 0)
}

/// Whether the `k`-th cell of `shape`, with the pivot at (`x`, `y`), is free.
pub open spec fn cell_fits(board: Seq<Seq<u8>>, x: int, y: int, shape: Tetromino, k: int) -> bool {
    cell_free(board, cell_col(x, shape, k), cell_row(y, shape, k))
}

/// Whether `shape` with its pivot at (`x`, `y`) has all four cells free.
pub open spec fn fits(board: Seq<Seq<u8>>, x: int, y: int, shape: Tetromino) -> bool {
    &&& cell_fits(board, x, y, shape, 0)
    &&& cell_fits(board, x, y, shape, 1)
    &&& cell_fits(board, x, y, shape, 2)
    &&& cell_fits(board, x, y, shape, 3)
}

/// Whether the `k`-th cell of `shape` lies between the walls and above the
/// floor.
pub open spec fn cell_in_bounds(x: int, y: int, shape: Tetromino, k: int) -> bool {
    0 <= cell_col(x, shape, k) < WIDTH && cell_row(y, shape, k) < HEIGHT
}

/// Whether all four cells of `shape` lie between the walls and above the
/// floor; they may overlap occupied cells and may stand above the field.
pub open spec fn in_bounds(x: int, y: int, shape: Tetromino) -> bool {
    &&& cell_in_bounds(x, y, shape, 0)
    &&& cell_in_bounds(x, y, shape, 1)
    &&& cell_in_bounds(x, y, shape, 2)
    &&& cell_in_bounds(x, y, shape, 3)
}

/// Whether all four cells of `shape` lie between the walls when its pivot
/// stands in column `x`.
pub open spec fn between_walls(x: int, shape: Tetromino) -> bool {
    &&& 0 <= cell_col(x, shape, 0) < WIDTH
    &&& 0 <= cell_col(x, shape, 1) < WIDTH
    &&& 0 <= cell_col(x, shape, 2) < WIDTH
    &&& 0 <= cell_col(x, shape, 3) < WIDTH
}

/// Whether the `k`-th cell of `shape` is the cell (`col`, `row`).
pub open spec fn cell_is(x: int, y: int, shape: Tetromino, k: int, col: int, row: int) -> bool {
    cell_col(x, shape, k) == col && cell_row(y, shape, k) == row
}

/// Whether one of the first `n` cells of `shape` is the cell (`col`, `row`).
pub open spec fn covers_first(
    n: int,
    x: int,
    y: int,
    shape: Tetromino,
    col: int,
    row: int,
) -> bool {
    ||| n > 0 && cell_is(x, y, shape, 0, col, row)
    ||| n > 1 && cell_is(x, y, shape, 1, col, row)
    ||| n > 2 && cell_is(x, y, shape, 2, col, row)
    ||| n > 3 && cell_is(x, y, shape, 3, col, row)
}

/// Whether `shape` with its pivot at (`x`, `y`) covers the cell (`col`,
/// `row`).
pub open spec fn covers(x: int, y: int, shape: Tetromino, col: int, row: int) -> bool {
    covers_first(4, x, y, shape, col, row)
}

/// Whether one of the first `n` cells of `shape` with its pivot in row `y`
/// stands above the visible field.
pub open spec fn above_field_first(n: int, y: int, shape: Tetromino) -> bool {
    ||| n > 0 && cell_row(y, shape, 0) < 0
    ||| n > 1 && cell_row(y, shape, 1) < 0
    ||| n > 2 && cell_row(y, shape, 2) < 0
    ||| n > 3 && cell_row(y, shape, 3) < 0
}

/// Whether some cell of `shape` with its pivot in row `y` stands above the
/// visible field.
pub open spec fn above_field(y: int, shape: Tetromino) -> bool {
    above_field_first(4, y, shape)
}

/// Whether some cell of `shape` with its pivot in row `y` lies on the
/// visible field.
pub open spec fn touches_field(y: int, shape: Tetromino) -> bool {
    ||| cell_row(y, shape, 0) >= 0
    ||| cell_row(y, shape, 1) >= 0
    ||| cell_row(y, shape, 2) >= 0
    ||| cell_row(y, shape, 3) >= 0
}

/// The board after `value` is written into those of the first `n` cells of
/// `shape` that lie on it. Cells above the field are not written.
pub open spec fn stamped_first(
    n: int,
    board: Seq<Seq<u8>>,
    x: int,
    y: int,
    shape: Tetromino,
    value: u8,
) -> Seq<Seq<u8>> {
    Seq::new(
        HEIGHT as nat,
        |r: int|
            Seq::new(
                WIDTH as nat,
                |c: int|
                    if covers_first(n, x, y, shape, c, r) {
                        value
                    } else {
                        board[r][c]
                    },
            ),
    )
}

/// The board after `value` is written into the cells of `shape` that lie on
/// it.
pub open spec fn stamped(board: Seq<Seq<u8>>, x: int, y: int, shape: Tetromino, value: u8) -> Seq<
    Seq<u8>,
> {
    stamped_first(4, board, x, y, shape, value)
}

/// A row is full when none of its cells is empty.
pub open spec fn row_full(row: Seq<u8>) -> bool {
    forall|c: int| 0 <= c < row.len() ==> row[c] != 0
}

/// The test that a row survives a line clear.
pub open spec fn is_kept() -> spec_fn(Seq<u8>) -> bool {
    |row: Seq<u8>| !row_full(row)
}

/// A row of ten empty cells.
pub open spec fn empty_row() -> Seq<u8> {
    Seq::new(WIDTH as nat, |c: int| 0u8)
}

/// The rows that are not full, in their order.
pub open spec fn kept_rows(board: Seq<Seq<u8>>) -> Seq<Seq<u8>> {
    board.filter(is_kept())
}

/// Number of full rows.
pub open spec fn full_rows(board: Seq<Seq<u8>>) -> int {
    board.len() - kept_rows(board).len()
}

/// The board after its full rows are removed: the rows that are not full
/// sink to the bottom in their order, under as many empty rows as were
/// removed.
pub open spec fn cleared(board: Seq<Seq<u8>>) -> Seq<Seq<u8>> {
    Seq::new(full_rows(board) as nat, |r: int| empty_row()) + kept_rows(board)
}

/// A board in which every cell is empty.
pub open spec fn empty_board() -> Seq<Seq<u8>> {
    Seq::new(HEIGHT as nat, |r: int| empty_row())
}

/// The rows that survive are rows of the board, so a cleared board is a
/// board again, and it has between 0 and 20 full rows fewer.
pub proof fn lemma_cleared_is_board(board: Seq<Seq<u8>>)
    requires
        is_board(board),
    ensures
        is_board(cleared(board)),
        0 <= full_rows(board) <= 20,
{
    let kept = kept_rows(board);
    let out = cleared(board);
    assert forall|r: int| 0 <= r < 20 implies (#[trigger] out[r]).len() == 10 && forall|c: int|
        0 <= c < 10 ==> #[trigger] out[r][c] <= 7 by {
        if r >= full_rows(board) {
            let row = kept[r - full_rows(board)];
            board.lemma_filter_contains_rev(is_kept(), row);
            assert(board.contains(row));
        }
    }
}

/// Whether no row of `rows` is full.
pub open spec fn no_row_full(rows: Seq<Seq<u8>>) -> bool {
    forall|r: int| 0 <= r < rows.len() ==> !#[trigger] row_full(rows[r])
}

/// Where no row is full, clearing changes nothing.
pub proof fn lemma_nothing_to_clear(board: Seq<Seq<u8>>)
    requires
        no_row_full(board),
    ensures
        kept_rows(board) == board,
        full_rows(board) == 0,
        cleared(board) == board,
    decreases board.len(),
{
    reveal(Seq::filter);
    if board.len() > 0 {
        let front = board.drop_last();
        assert(no_row_full(front)) by {
            assert forall|r: int| 0 <= r < front.len() implies !#[trigger] row_full(front[r]) by {
                assert(front[r] == board[r]);
            }
        }
        lemma_nothing_to_clear(front);
    }
}

/// When exactly one row is full, clearing moves every row above it down by
/// one, leaves the rows below it where they are, and puts an empty row on
/// top.
pub proof fn lemma_clear_single_row(board: Seq<Seq<u8>>, full: int)
    requires
        board.len() == 20,
        0 <= full < 20,
        row_full(board[full]),
        forall|r: int| 0 <= r < 20 && r != full ==> !#[trigger] row_full(board[r]),
    ensures
        full_rows(board) == 1,
        cleared(board).len() == 20,
        cleared(board)[0] == empty_row(),
        forall|r: int| 0 < r <= full ==> cleared(board)[r] == board[r - 1],
        forall|r: int| full < r < 20 ==> cleared(board)[r] == board[r],
{
    let above = board.take(full);
    let below = board.skip(full + 1);
    assert(no_row_full(above)) by {
        assert forall|r: int| 0 <= r < above.len() implies !#[trigger] row_full(above[r]) by {
            assert(above[r] == board[r]);
        }
    }
    assert(no_row_full(below)) by {
        assert forall|r: int| 0 <= r < below.len() implies !#[trigger] row_full(below[r]) by {
            assert(below[r] == board[r + full + 1]);
        }
    }
    lemma_nothing_to_clear(above);
    lemma_nothing_to_clear(below);
    below.lemma_filter_prepend(board[full], is_kept());
    assert(above + (seq![board[full]] + below) == board);
    assert(kept_rows(board) == above + below);
}

/// A shape that fits is written onto empty cells only: every cell that was
/// occupied keeps its value.
pub proof fn lemma_stamp_keeps_occupied_cells(
    board: Seq<Seq<u8>>,
    x: int,
    y: int,
    shape: Tetromino,
    value: u8,
    r: int,
    c: int,
)
    requires
        fits(board, x, y, shape),
        0 <= r < 20,
        0 <= c < 10,
        board[r][c] != 0,
    ensures
        stamped(board, x, y, shape, value)[r][c] == board[r][c],
{
    assert forall|k: int| 0 <= k < 4 implies !cell_is(x, y, shape, k, c, r) by {
        assert(cell_fits(board, x, y, shape, k));
    }
    assert(!covers(x, y, shape, c, r));
}

/// Once a shape is written into the board with a value other than 0, it no
/// longer fits where it stands, provided one of its cells lies on the field.
pub proof fn lemma_stamp_blocks(board: Seq<Seq<u8>>, x: int, y: int, shape: Tetromino, value: u8)
    requires
        in_bounds(x, y, shape),
        touches_field(y, shape),
        value != 0,
    ensures
        !fits(stamped(board, x, y, shape, value), x, y, shape),
{
    let after = stamped(board, x, y, shape, value);
    let k = if cell_row(y, shape, 0) >= 0 {
        0int
    } else if cell_row(y, shape, 1) >= 0 {
        1int
    } else if cell_row(y, shape, 2) >= 0 {
        2int
    } else {
        3int
    };
    assert(cell_in_bounds(x, y, shape, k));
    assert(covers(x, y, shape, cell_col(x, shape, k), cell_row(y, shape, k)));
    assert(!cell_fits(after, x, y, shape, k));
}

/// After a clear no row is full.
pub proof fn lemma_cleared_has_no_full_row(board: Seq<Seq<u8>>)
    ensures
        no_row_full(cleared(board)),
{
    let out = cleared(board);
    assert forall|r: int| 0 <= r < out.len() implies !#[trigger] row_full(out[r]) by {
        if r >= full_rows(board) {
        } else {
            assert(empty_row()[0] == 0);
        }
    }
}

/// On an empty board a shape fits wherever it stands between the walls and
/// above the floor.
pub proof fn lemma_fits_on_empty_board(x: int, y: int, shape: Tetromino)
    ensures
        fits(empty_board(), x, y, shape) == in_bounds(x, y, shape),
{
}

/// One shape written into an empty board fills no row: it has four cells
/// and a row has ten.
pub proof fn lemma_one_shape_fills_no_row(x: int, y: int, shape: Tetromino, value: u8)
    ensures
        no_row_full(stamped(empty_board(), x, y, shape, value)),
{
    let after = stamped(empty_board(), x, y, shape, value);
    assert forall|r: int| 0 <= r < after.len() implies !#[trigger] row_full(after[r]) by {
        let c = if !covers(x, y, shape, 0, r) {
            0int
        } else if !covers(x, y, shape, 1, r) {
            1int
        } else if !covers(x, y, shape, 2, r) {
            2int
        } else if !covers(x, y, shape, 3, r) {
            3int
        } else {
            4int
        };
        assert(!covers(x, y, shape, c, r));
        assert(after[r][c] == 0);
    }
}

} // verus!
