//! What follows from the rules: the laws of the game, proved over the model
//! of the engine, and the bounds that keep the engine within its number
//! ranges.

use crate::bag::BagView;
use crate::board::{
    between_walls, cell_row, empty_board, fits, full_rows, in_bounds, lemma_cleared_is_board,
    lemma_fits_on_empty_board, lemma_nothing_to_clear, lemma_one_shape_fills_no_row,
    lemma_stamp_blocks, lemma_stamp_keeps_occupied_cells, no_row_full, stamped, touches_field,
};
use crate::pieces::{
    catalog, is_catalog_piece, kick, lemma_shape_offsets_small, o_kick, reference_offset, Piece,
    Tetromino,
};
use crate::rules::{landing_row, line_points, slide_end, GameView, SPAWN_COLUMN, SPAWN_ROW};
use vstd::prelude::*;

verus! {

/// The O piece covers the same cells before and after a turn: its one kick
/// offset makes up for the change of its shape. So the turn, which is made
/// without a fit test, keeps the piece in bounds and keeps it clear of the
/// locked cells if it was clear of them.
pub proof fn lemma_o_turn_keeps_cells(board: Seq<Seq<u8>>, from: int, to: int, x: int, y: int)
    requires
        0 <= from < 4,
        0 <= to < 4,
    ensures
        in_bounds(x + o_kick(from, to).0, y - o_kick(from, to).1, catalog(3).rotations[to])
            == in_bounds(x, y, catalog(3).rotations[from]),
        fits(board, x + o_kick(from, to).0, y - o_kick(from, to).1, catalog(3).rotations[to])
            == fits(board, x, y, catalog(3).rotations[from]),
{
}

/// Only the fourth piece of the catalog is called O.
pub proof fn lemma_o_piece(p: Piece)
    requires
        is_catalog_piece(p),
    ensures
        p.name == 'O' <==> p == catalog(3),
{
}

/// A catalog shape that stands between the walls and above the floor has
/// its pivot within two cells of the field.
pub proof fn lemma_in_bounds_position(p: Piece, rotation: int, x: int, y: int)
    requires
        is_catalog_piece(p),
        0 <= rotation < 4,
        in_bounds(x, y, p.rotations[rotation]),
    ensures
        -2 <= x <= 11,
        y <= 21,
{
    let kind = choose|kind: int| 0 <= kind < 7 && p == #[trigger] catalog(kind);
    lemma_shape_offsets_small(kind, rotation, 0);
}

/// Every catalog piece stands between the walls and above the floor where
/// it is summoned.
pub proof fn lemma_spawn_in_bounds(p: Piece)
    requires
        is_catalog_piece(p),
    ensures
        in_bounds(SPAWN_COLUMN as int, SPAWN_ROW as int, p.rotations[0]),
{
    let kind = choose|kind: int| 0 <= kind < 7 && p == #[trigger] catalog(kind);
    assert forall|i: int| 0 <= i < 4 implies -2 <= (#[trigger] p.rotations[0][i]).0 <= 2 && -2
        <= p.rotations[0][i].1 <= 2 by {
        lemma_shape_offsets_small(kind, 0, i);
    }
}

/// The board value of a catalog piece lies between 1 and 7.
pub proof fn lemma_piece_index(p: Piece)
    requires
        is_catalog_piece(p),
    ensures
        1 <= p.index <= 7,
{
}

/// A rotation takes the first kick candidate that fits: if the active
/// piece, which is not the O piece, fits at candidate `k` and at no
/// candidate before it, the turn ends at candidate `k` in the new rotation
/// state; if it fits at none of the five, the game stays as it is.
pub proof fn lemma_first_fitting_kick_wins(g: GameView, turns: int, k: int)
    requires
        g.piece.name != 'O',
        0 <= k <= 5,
        forall|j: int| 0 <= j < k ==> !#[trigger] g.kick_fits(g.turned(turns), j),
        k < 5 ==> g.kick_fits(g.turned(turns), k),
    ensures
        g.first_kick(g.turned(turns), 0) == k,
        k < 5 ==> g.rotated(turns) == (GameView {
            position: g.candidate(g.turned(turns), k),
            rotation: g.turned(turns),
            ..g
        }),
        k == 5 ==> g.rotated(turns) == g,
{
    lemma_first_kick_skips(g, g.turned(turns), 0, k);
}

/// The search for a kick passes over candidates that do not fit.
proof fn lemma_first_kick_skips(g: GameView, to: int, from: int, k: int)
    requires
        0 <= from <= k <= 5,
        forall|j: int| from <= j < k ==> !#[trigger] g.kick_fits(to, j),
        k < 5 ==> g.kick_fits(to, k),
    ensures
        g.first_kick(to, from) == k,
    decreases k - from,
{
    if from < k {
        lemma_first_kick_skips(g, to, from + 1, k);
    }
}

/// A second hold in a row is refused: after an attempt to hold, allowed or
/// not, the swap flag is set, and a further attempt leaves the game as it
/// is.
pub proof fn lemma_second_hold_is_refused(g: GameView, first_bag: BagView, second_bag: BagView)
    ensures
        g.held(first_bag).switched,
        g.held(first_bag).held(second_bag) == g.held(first_bag),
{
}

/// Locking a piece that fits writes onto empty cells only, so every cell
/// that was occupied keeps its value. If a cell of the piece lies on the
/// field, the same shape no longer fits at the same position on the board
/// with the piece written into it; and where the piece completes no row,
/// that board is the board of the game after the placement.
pub proof fn lemma_placed_piece_blocks(g: GameView, bag: BagView)
    requires
        g.wf(),
        g.piece_fits(),
    ensures
        forall|r: int, c: int|
            0 <= r < 20 && 0 <= c < 10 && g.board[r][c] != 0 ==> #[trigger] g.stamped_board()[r][c]
                == g.board[r][c],
        touches_field(g.position.1, g.shape()) ==> !fits(
            g.stamped_board(),
            g.position.0,
            g.position.1,
            g.shape(),
        ),
        no_row_full(g.stamped_board()) ==> g.placed(bag).board == g.stamped_board(),
        touches_field(g.position.1, g.shape()) && no_row_full(g.stamped_board()) ==> !fits(
            g.placed(bag).board,
            g.position.0,
            g.position.1,
            g.shape(),
        ),
{
    assert forall|r: int, c: int|
        0 <= r < 20 && 0 <= c < 10 && g.board[r][c] != 0 implies #[trigger] g.stamped_board()[r][c]
        == g.board[r][c] by {
        lemma_stamp_keeps_occupied_cells(
            g.board,
            g.position.0,
            g.position.1,
            g.shape(),
            g.piece.index,
            r,
            c,
        );
    }
    if touches_field(g.position.1, g.shape()) {
        lemma_stamp_blocks(g.board, g.position.0, g.position.1, g.shape(), g.piece.index);
    }
    if no_row_full(g.stamped_board()) {
        lemma_nothing_to_clear(g.stamped_board());
    }
}

/// No move takes a piece that is clear of the locked cells into them: a
/// sideways move, a drop, a slide, a fall and a rotation each leave the
/// active piece fitting if it fitted before.
pub proof fn lemma_moves_keep_the_piece_clear(g: GameView, dir: int, turns: int)
    requires
        g.wf(),
        g.piece_fits(),
        0 <= turns,
    ensures
        g.moved(dir).piece_fits(),
        g.dropped().piece_fits(),
        g.hard_moved(dir).piece_fits(),
        g.landed().piece_fits(),
        g.rotated(turns).piece_fits(),
{
    lemma_slide_end_fits(g.board, g.shape(), g.position.0, g.position.1, dir);
    lemma_landing_row_fits(g.board, g.shape(), g.position.0, g.position.1);
    let to = g.turned(turns);
    if g.piece.name == 'O' {
        lemma_o_piece(g.piece);
        lemma_o_turn_keeps_cells(g.board, g.rotation, to, g.position.0, g.position.1);
    } else {
        lemma_first_kick_fits(g, to, 0);
    }
}

/// Where a shape that fits comes to rest after a slide, it fits.
proof fn lemma_slide_end_fits(board: Seq<Seq<u8>>, shape: Tetromino, x: int, y: int, dir: int)
    requires
        fits(board, x, y, shape),
    ensures
        fits(board, slide_end(board, shape, x, y, dir), y, shape),
    decreases
        (if dir > 0 {
            138 - x
        } else {
            x + 129
        }),
{
    if dir != 0 && fits(board, x + dir, y, shape) {
        lemma_slide_end_fits(board, shape, x + dir, y, dir);
    }
}

/// Where a shape that fits comes to rest after a fall, it fits, and it is
/// not above where it started.
proof fn lemma_landing_row_fits(board: Seq<Seq<u8>>, shape: Tetromino, x: int, y: int)
    requires
        fits(board, x, y, shape),
    ensures
        fits(board, x, landing_row(board, shape, x, y), shape),
        landing_row(board, shape, x, y) >= y,
    decreases 147 - y,
{
    if fits(board, x, y + 1, shape) {
        lemma_landing_row_fits(board, shape, x, y + 1);
    }
}

/// The kick that the search finds is one of the five and fits.
proof fn lemma_first_kick_fits(g: GameView, to: int, from: int)
    requires
        0 <= from <= 5,
    ensures
        from <= g.first_kick(to, from) <= 5,
        g.first_kick(to, from) < 5 ==> g.kick_fits(to, g.first_kick(to, from)),
    decreases 5 - from,
{
    if from < 5 && !g.kick_fits(to, from) {
        lemma_first_kick_fits(g, to, from + 1);
    }
}

/// Whether the `k`-th kick candidate of a turn of piece `kind` from
/// rotation state `from` to `to` is as high as the first: it moves the
/// pivot up by the difference of the two reference offsets.
pub open spec fn is_level_kick(kind: int, from: int, to: int, k: int) -> bool {
    kick(catalog(kind).name, from, to, k).1 == reference_offset(catalog(kind).name, from).1
        - reference_offset(catalog(kind).name, to).1
}

/// Between the walls alone a rotation never needs a kick of another height:
/// for every piece but the O piece and every column in which it stands
/// between the walls, the turned piece stands between the walls at one of
/// the first two candidates, or one of the first three for the I piece, and
/// those candidates are as high as the first.
pub proof fn lemma_wall_kicks_are_level(kind: int, from: int, to: int, x: int)
    requires
        0 <= kind < 7,
        kind != 3,
        0 <= from < 4,
        0 <= to < 4,
        between_walls(x, catalog(kind).rotations[from]),
    ensures
        between_walls(x + kick(catalog(kind).name, from, to, 0).0, catalog(kind).rotations[to])
            || between_walls(
            x + kick(catalog(kind).name, from, to, 1).0,
            catalog(kind).rotations[to],
        ) || (kind == 0 && between_walls(
            x + kick(catalog(kind).name, from, to, 2).0,
            catalog(kind).rotations[to],
        )),
        is_level_kick(kind, from, to, 0),
        is_level_kick(kind, from, to, 1),
        kind == 0 ==> is_level_kick(kind, from, to, 2),
{
}

/// Three rows or more above the field a catalog shape fits wherever it
/// stands between the walls: none of its cells reaches the field.
pub proof fn lemma_fits_above_the_field(
    board: Seq<Seq<u8>>,
    x: int,
    y: int,
    kind: int,
    rotation: int,
)
    requires
        0 <= kind < 7,
        0 <= rotation < 4,
        y <= -3,
    ensures
        fits(board, x, y, catalog(kind).rotations[rotation]) == between_walls(
            x,
            catalog(kind).rotations[rotation],
        ),
{
}

/// A rotation leaves a well-formed game well formed. In particular no
/// sequence of rotations lifts the piece out of reach: where locked cells
/// can block a candidate, the piece is close to the field and a kick lifts
/// it by four rows at most; higher up only the walls can block, and there
/// the kick that is taken is as high as the first, which leaves the
/// reference point where it is.
pub proof fn lemma_rotation_keeps_wf(g: GameView, turns: int)
    requires
        g.wf(),
        0 <= turns,
    ensures
        g.rotated(turns).wf(),
{
    let to = g.turned(turns);
    let kind = choose|kind: int| 0 <= kind < 7 && g.piece == #[trigger] catalog(kind);
    if g.piece.name == 'O' {
        lemma_o_turn_keeps_cells(g.board, g.rotation, to, g.position.0, g.position.1);
    } else {
        lemma_first_kick_fits(g, to, 0);
        if g.first_kick(to, 0) < 5 && g.position.1 <= -7 {
            lemma_wall_kicks_are_level(kind, g.rotation, to, g.position.0);
            assert forall|j: int| 0 <= j < 3 implies #[trigger] g.kick_fits(to, j)
                == between_walls(g.candidate(to, j).0, g.piece.rotations[to]) by {
                lemma_fits_above_the_field(
                    g.board,
                    g.candidate(to, j).0,
                    g.candidate(to, j).1,
                    kind,
                    to,
                );
            }
            assert(g.first_kick(to, 1) == if g.kick_fits(to, 1) {
                1
            } else {
                g.first_kick(to, 2)
            });
        }
    }
}

/// Locking a piece removes at most 20 rows and scores at most 1200 points
/// times one more than the level. So score and row count stay within their
/// counters, for a placement where the piece stands and for one after a
/// fall, whenever that much room is left in them.
pub proof fn lemma_counters_have_room(g: GameView)
    requires
        g.wf(),
        g.score + 1200 * (g.level() + 1) <= u32::MAX,
        g.lines + 20 <= u32::MAX,
    ensures
        g.place_in_range(),
        g.landed().place_in_range(),
{
    lemma_placement_bounds(g);
    lemma_landing_stays_in_bounds(g.board, g.shape(), g.position.0, g.position.1);
    lemma_placement_bounds(g.landed());
}

/// Between 0 and 20 rows are full after a piece is written into the board,
/// and they score between 0 and 1200 points times one more than the level.
proof fn lemma_placement_bounds(g: GameView)
    requires
        g.wf(),
    ensures
        0 <= full_rows(g.stamped_board()) <= 20,
        0 <= line_points(full_rows(g.stamped_board())) * (g.level() + 1) <= 1200 * (g.level() + 1),
{
    lemma_piece_index(g.piece);
    lemma_cleared_is_board(g.stamped_board());
    let points = line_points(full_rows(g.stamped_board()));
    let factor = g.level() + 1;
    assert(0 <= points * factor <= 1200 * factor) by (nonlinear_arith)
        requires
            0 <= points <= 1200,
            1 <= factor,
    ;
}

/// A shape that is in bounds is in bounds where it lands, which is not
/// above where it started: it only moves down through positions at which it
/// fits.
proof fn lemma_landing_stays_in_bounds(
    board: Seq<Seq<u8>>,
    shape: Tetromino,
    x: int,
    y: int,
)
    requires
        in_bounds(x, y, shape),
    ensures
        in_bounds(x, landing_row(board, shape, x, y), shape),
        landing_row(board, shape, x, y) >= y,
    decreases 147 - y,
{
    if fits(board, x, y + 1, shape) {
        lemma_landing_stays_in_bounds(board, shape, x, y + 1);
    }
}

/// A fall ends where the shape cannot move down any further.
pub proof fn lemma_landing_row_is_a_stop(board: Seq<Seq<u8>>, shape: Tetromino, x: int, y: int)
    ensures
        !fits(board, x, landing_row(board, shape, x, y) + 1, shape),
    decreases 147 - y,
{
    if fits(board, x, y + 1, shape) {
        lemma_landing_row_is_a_stop(board, shape, x, y + 1);
    }
}

/// On an empty board a hard drop takes the piece straight down to the floor
/// and locks it there: one of its cells lies in the bottom row, the board
/// holds the piece and nothing else, no row is removed and no point is
/// scored, and the next piece of the bag stands at the spawn position. A
/// piece in its first rotation state comes to rest with its pivot in the
/// bottom row.
pub proof fn lemma_hard_drop_on_empty_board(g: GameView, bag: BagView)
    requires
        g.wf(),
        g.board == empty_board(),
    ensures
        g.ghost().1 >= g.position.1,
        in_bounds(g.position.0, g.ghost().1, g.shape()),
        !in_bounds(g.position.0, g.ghost().1 + 1, g.shape()),
        g.rotation == 0 ==> g.ghost().1 == 19,
        g.hard_dropped(bag) == (GameView {
            board: stamped(empty_board(), g.position.0, g.ghost().1, g.shape(), g.piece.index),
            switched: false,
            bag,
            ..g
        }).summoned(catalog(g.bag.upcoming[0] as int)),
{
    let x = g.position.0;
    let row = g.ghost().1;
    lemma_landing_row_fits(g.board, g.shape(), x, g.position.1);
    lemma_landing_row_is_a_stop(g.board, g.shape(), x, g.position.1);
    lemma_fits_on_empty_board(x, row, g.shape());
    lemma_fits_on_empty_board(x, row + 1, g.shape());
    lemma_one_shape_fills_no_row(x, row, g.shape(), g.piece.index);
    lemma_nothing_to_clear(g.landed().stamped_board());
    if g.rotation == 0 {
        let kind = choose|kind: int| 0 <= kind < 7 && g.piece == #[trigger] catalog(kind);
        lemma_first_shapes_rest_on_the_pivot_row(kind);
    }
}

/// In its first rotation state no piece has a cell below its pivot, and
/// each has a cell in the row of its pivot.
proof fn lemma_first_shapes_rest_on_the_pivot_row(kind: int)
    requires
        0 <= kind < 7,
    ensures
        forall|y: int|
            cell_row(y, catalog(kind).rotations[0], 0) <= y && cell_row(
                y,
                catalog(kind).rotations[0],
                1,
            ) <= y && cell_row(y, catalog(kind).rotations[0], 2) <= y && cell_row(
                y,
                catalog(kind).rotations[0],
                3,
            ) <= y && #[trigger] cell_row(y, catalog(kind).rotations[0], 2) == y,
{
}

} // verus!
