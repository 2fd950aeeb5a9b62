//! The rule engine: the board, the active piece, the hold slot, the score
//! and the bag, with the moves a player can make.

use crate::bag::{is_permutation, lemma_bag_deals_catalog_indices, Bag};
use crate::board::{
    above_field_first, cell_fits, cleared, empty_board, empty_row, fits, full_rows, grid_view,
    is_kept, kept_rows, lemma_cleared_is_board, row_full, stamped_first, Grid,
};
use crate::pieces::{calc_kicks, calc_o_kick, catalog, is_catalog_piece, piece, Piece, Tetromino};
use crate::laws::{
    lemma_in_bounds_position, lemma_piece_index, lemma_rotation_keeps_wf, lemma_spawn_in_bounds,
};
use crate::rules::{landing_row, slide_end, GameView, SPAWN_COLUMN, SPAWN_ROW};
use vstd::prelude::*;

verus! {

/// A game in progress.
pub struct Game {
    /// The locked cells, rows from top to bottom.
    pub board: Grid,
    /// The active piece.
    pub current_piece: Piece,
    /// Rotation state of the active piece, from 0 to 3.
    pub current_rotation: usize,
    /// Column and row of the active piece's pivot.
    pub current_position: (i8, i8),
    /// Points scored so far.
    pub score: u32,
    /// Rows removed so far.
    pub lines_cleared: u32,
    /// The piece set aside, if any.
    pub hold_piece: Option<Piece>,
    /// Whether the active piece came out of a hold swap.
    pub already_switched: bool,
    /// The bag that deals the next pieces.
    pub bag: Bag,
}

impl View for Game {
    type V = GameView;

    open spec fn view(&self) -> GameView {
        GameView {
            board: grid_view(self.board),
            piece: self.current_piece,
            rotation: self.current_rotation as int,
            position: (self.current_position.0 as int, self.current_position.1 as int),
            score: self.score as int,
            lines: self.lines_cleared as int,
            hold: self.hold_piece,
            switched: self.already_switched,
            bag: self.bag@,
        }
    }
}

/// Whether no cell of `row` is empty.
fn row_is_full(row: &[u8; 10]) -> (full: bool)
    ensures
        full == row_full(row@),
{
    let mut x: usize = 0;
    while x < 10
        invariant
            x <= 10,
            forall|c: int| 0 <= c < x ==> row@[c] != 0,
        decreases 10 - x,
    {
        if row[x] == 0 {
            return false;
        }
        x += 1;
    }
    true
}

impl Game {
    /// What holds of every game between two calls.
    pub open spec fn wf(&self) -> bool {
        self@.wf()
    }

    /// A new game: an empty board, no points, nothing set aside, and the
    /// first piece of a fresh bag at the spawn position.
    pub fn new() -> (game: Game)
        ensures
            game.wf(),
            game@.board == empty_board(),
            game@.rotation == 0,
            game@.position == (SPAWN_COLUMN as int, SPAWN_ROW as int),
            game@.score == 0,
            game@.lines == 0,
            game@.hold is None,
            !game@.switched,
            exists|first: usize|
                game@.piece == catalog(first as int) && #[trigger] is_permutation(
                    seq![first] + game@.bag.stream(),
                ),
    {
        let mut bag = Bag::new();
        let ghost dealt = bag@.stream();
        let first = bag.next();
        let piece_1 = piece(first);
        assert(seq![first] + bag@.stream() == dealt);
        let game = Game {
            board: [[0; 10]; 20],
            current_piece: piece_1,
            current_rotation: 0,
            current_position: (SPAWN_COLUMN, SPAWN_ROW),
            score: 0,
            lines_cleared: 0,
            hold_piece: None,
            already_switched: false,
            bag,
        };
        proof {
            lemma_spawn_in_bounds(piece_1);
            assert(game@.board =~~= empty_board());
        }
        game
    }

    /// The cells of the active piece in its rotation state.
    pub fn current_tetromino(&self) -> (tetromino: Tetromino)
        requires
            self.current_rotation < 4,
        ensures
            tetromino == self@.shape(),
    {
        self.current_piece.rotations[self.current_rotation]
    }

    /// Whether `tetromino` fits with its pivot at column `x` and row `y`,
    /// which may lie outside the range of the engine's coordinates.
    fn fits_at(&self, x: i32, y: i32, tetromino: &Tetromino) -> (ok: bool)
        requires
            -1000 <= x <= 1000,
            -1000 <= y <= 1000,
        ensures
            ok == fits(self@.board, x as int, y as int, *tetromino),
    {
        let mut k: usize = 0;
        while k < 4
            invariant
                k <= 4,
                -1000 <= x <= 1000,
                -1000 <= y <= 1000,
                forall|j: int|
                    0 <= j < k ==> #[trigger] cell_fits(
                        self@.board,
                        x as int,
                        y as int,
                        *tetromino,
                        j,
                    ),
            decreases 4 - k,
        {
            let (t_x, t_y) = tetromino[k];
            let col: i32 = x + t_x as i32;
            let row: i32 = y - t_y as i32;
            if col < 0 || col >= 10 || row >= 20 {
                return false;
            }
            if row >= 0 {
                if self.board[row as usize][col as usize] != 0 {
                    return false;
                }
            }
            k += 1;
        }
        true
    }

    /// Whether `tetromino` with its pivot at `position` has all four cells
    /// free: between the walls, above the floor, and either above the
    /// visible field or on an empty cell.
    pub fn check_tetromino(&self, position: (i8, i8), tetromino: &Tetromino) -> (ok: bool)
        ensures
            ok == fits(self@.board, position.0 as int, position.1 as int, *tetromino),
    {
        self.fits_at(position.0 as i32, position.1 as i32, tetromino)
    }

    /// Moves the active piece by `dir` columns if it fits there.
    pub fn move_piece(&mut self, dir: i8) -> (moved: bool)
        requires
            old(self).wf(),
        ensures
            final(self).wf(),
            moved == old(self)@.can_move(dir as int),
            final(self)@ == old(self)@.moved(dir as int),
    {
        let tetromino = self.current_tetromino();
        let x: i32 = self.current_position.0 as i32 + dir as i32;
        let y: i32 = self.current_position.1 as i32;
        if self.fits_at(x, y, &tetromino) {
            proof {
                lemma_in_bounds_position(
                    self.current_piece,
                    self.current_rotation as int,
                    x as int,
                    y as int,
                );
            }
            self.current_position.0 = x as i8;
            return true;
        }
        false
    }

    /// Moves the active piece down one row if it fits there.
    pub fn drop(&mut self) -> (dropped: bool)
        requires
            old(self).wf(),
        ensures
            final(self).wf(),
            dropped == old(self)@.can_drop(),
            final(self)@ == old(self)@.dropped(),
    {
        let tetromino = self.current_tetromino();
        let x: i32 = self.current_position.0 as i32;
        let y: i32 = self.current_position.1 as i32 + 1;
        if self.fits_at(x, y, &tetromino) {
            proof {
                lemma_in_bounds_position(
                    self.current_piece,
                    self.current_rotation as int,
                    x as int,
                    y as int,
                );
            }
            self.current_position.1 = y as i8;
            return true;
        }
        false
    }

    /// Slides the active piece in steps of `dir` columns until it is
    /// blocked.
    pub fn hard_move(&mut self, dir: i8)
        requires
            old(self).wf(),
            dir != 0,
        ensures
            final(self).wf(),
            final(self)@ == old(self)@.hard_moved(dir as int),
    {
        let ghost pre = self@;
        loop
            invariant
                self.wf(),
                dir != 0,
                self@ == (GameView { position: (self@.position.0, pre.position.1), ..pre }),
                slide_end(pre.board, pre.shape(), self@.position.0, pre.position.1, dir as int)
                    == slide_end(
                    pre.board,
                    pre.shape(),
                    pre.position.0,
                    pre.position.1,
                    dir as int,
                ),
            ensures
                !self@.can_move(dir as int),
            decreases
                    (if dir > 0 {
                        11 - self@.position.0
                    } else {
                        self@.position.0 + 2
                    }),
        {
            proof {
                lemma_in_bounds_position(
                    self.current_piece,
                    self.current_rotation as int,
                    self@.position.0,
                    self@.position.1,
                );
            }
            if !self.move_piece(dir) {
                break ;
            }
        }
    }

    /// Where the active piece would come to rest if it fell straight down.
    pub fn get_ghost(&self) -> (ghost_position: (i8, i8))
        requires
            self.wf(),
        ensures
            (ghost_position.0 as int, ghost_position.1 as int) == self@.ghost(),
    {
        let tetromino = self.current_tetromino();
        let x: i32 = self.current_position.0 as i32;
        let mut y: i32 = self.current_position.1 as i32 + 1;
        proof {
            lemma_in_bounds_position(
                self.current_piece,
                self.current_rotation as int,
                self@.position.0,
                self@.position.1,
            );
        }
        while self.fits_at(x, y, &tetromino)
            invariant
                self.wf(),
                tetromino == self@.shape(),
                x == self@.position.0,
                self@.position.1 < y <= 22,
                landing_row(self@.board, tetromino, x as int, y - 1) == landing_row(
                    self@.board,
                    tetromino,
                    x as int,
                    self@.position.1,
                ),
            decreases 22 - y,
        {
            proof {
                lemma_in_bounds_position(
                    self.current_piece,
                    self.current_rotation as int,
                    x as int,
                    y as int,
                );
            }
            y += 1;
        }
        (self.current_position.0, (y - 1) as i8)
    }

    /// Turns the active piece by `offset` quarter turns clockwise. The O
    /// piece is moved by its one offset; any other piece takes the first
    /// kick candidate at which it fits, and stays as it is when it fits at
    /// none.
    pub fn rotate(&mut self, offset: i32)
        requires
            old(self).wf(),
            offset >= 0,
        ensures
            final(self).wf(),
            final(self)@ == old(self)@.rotated(offset as int),
    {
        let ghost pre = self@;
        let new_rotation = (self.current_rotation + offset as usize) % 4;
        proof {
            let after = pre.rotated(offset as int);
            lemma_rotation_keeps_wf(pre, offset as int);
            lemma_in_bounds_position(
                after.piece,
                after.rotation,
                after.position.0,
                after.position.1,
            );
        }
        if self.current_piece.name == 'O' {
            let kick = calc_o_kick(self.current_rotation, new_rotation);
            self.current_position.0 = self.current_position.0 + kick.0;
            self.current_position.1 = self.current_position.1 - kick.1;
            self.current_rotation = new_rotation;
            return ;
        }
        let kicks = calc_kicks(self.current_piece.name, self.current_rotation, new_rotation);
        let tetromino = self.current_piece.rotations[new_rotation];
        let mut k: usize = 0;
        while k < 5
            invariant
                k <= 5,
                self.wf(),
                self@ == pre,
                pre == old(self)@,
                new_rotation == pre.turned(offset as int),
                new_rotation < 4,
                pre.piece.name != 'O',
                tetromino == pre.piece.rotations[new_rotation as int],
                pre.rotated(offset as int).wf(),
                -2 <= pre.rotated(offset as int).position.0 <= 11,
                -12 <= pre.rotated(offset as int).position.1 <= 21,
                pre.first_kick(new_rotation as int, 0) == pre.first_kick(
                    new_rotation as int,
                    k as int,
                ),
                forall|j: int|
                    0 <= j < 5 ==> (#[trigger] kicks[j]).0 == crate::pieces::kick(
                        pre.piece.name,
                        pre.rotation,
                        new_rotation as int,
                        j,
                    ).0 && kicks[j].1 == crate::pieces::kick(
                        pre.piece.name,
                        pre.rotation,
                        new_rotation as int,
                        j,
                    ).1,
            decreases 5 - k,
        {
            let kick = kicks[k];
            let x: i32 = self.current_position.0 as i32 + kick.0 as i32;
            let y: i32 = self.current_position.1 as i32 - kick.1 as i32;
            if self.fits_at(x, y, &tetromino) {
                self.current_position = (x as i8, y as i8);
                self.current_rotation = new_rotation;
                return ;
            }
            k += 1;
        }
    }

    /// Makes `piece` the active piece, in its first rotation state at the
    /// spawn position.
    fn summon_piece(&mut self, piece: Piece)
        ensures
            final(self)@ == old(self)@.summoned(piece),
    {
        self.current_piece = piece;
        self.current_rotation = 0;
        self.current_position = (SPAWN_COLUMN, SPAWN_ROW);
    }

    /// Draws the next piece from the bag.
    pub fn get_next(&mut self) -> (next: Piece)
        requires
            old(self)@.bag.wf(),
        ensures
            next == catalog(old(self)@.bag.upcoming[0] as int),
            is_catalog_piece(next),
            final(self)@ == (GameView { bag: final(self)@.bag, ..old(self)@ }),
            old(self)@.bag.draws_to(final(self)@.bag),
            final(self)@.bag.wf(),
    {
        piece(self.bag.next())
    }

    /// The five pieces that come after the active one, next piece first.
    pub fn get_nexts(&self) -> (nexts: [Piece; 5])
        requires
            self@.bag.wf(),
        ensures
            forall|i: int| 0 <= i < 5 ==> nexts[i] == catalog(self@.bag.upcoming[i] as int),
    {
        proof {
            lemma_bag_deals_catalog_indices(self@.bag);
        }
        [
            piece(self.bag.next_pieces[0]),
            piece(self.bag.next_pieces[1]),
            piece(self.bag.next_pieces[2]),
            piece(self.bag.next_pieces[3]),
            piece(self.bag.next_pieces[4]),
        ]
    }

    /// Sets the active piece aside and makes the piece that was set aside
    /// before, or else the next piece of the bag, the active one. Allowed
    /// once for each piece that the bag deals.
    pub fn hold_piece(&mut self) -> (swapped: bool)
        requires
            old(self).wf(),
        ensures
            final(self).wf(),
            swapped == !old(self)@.switched,
            final(self)@ == old(self)@.held(final(self)@.bag),
            final(self)@.switched,
            if old(self)@.hold_draws() {
                old(self)@.bag.draws_to(final(self)@.bag)
            } else {
                final(self)@.bag == old(self)@.bag
            },
    {
        if self.already_switched {
            return false;
        }
        self.already_switched = true;
        match self.hold_piece {
            Some(piece) => {
                let hold = self.current_piece;
                self.summon_piece(piece);
                self.hold_piece = Some(hold);
                proof {
                    lemma_spawn_in_bounds(piece);
                }
            },
            None => {
                self.hold_piece = Some(self.current_piece);
                let x = self.get_next();
                self.summon_piece(x);
                proof {
                    lemma_spawn_in_bounds(x);
                }
            },
        }
        true
    }

    /// The engine has no soft drop of its own: the timing controller lets
    /// the piece fall faster instead. The game stays as it is.
    pub fn soft_drop(&mut self)
        ensures
            final(self)@ == old(self)@,
    {
    }

    /// Removes the full rows: the other rows sink to the bottom in their
    /// order, and empty rows fill the top. Returns how many rows were
    /// removed.
    fn clear_lines(&mut self) -> (lines: u32)
        ensures
            final(self)@ == (GameView { board: cleared(old(self)@.board), ..old(self)@ }),
            lines == full_rows(old(self)@.board),
            lines <= 20,
    {
        let ghost pre = self@;
        let ghost rows = pre.board;
        let mut line: usize = 20;
        let mut y: usize = 20;
        assert(self@.board.subrange(20, 20) == kept_rows(rows.subrange(20, 20))) by {
            reveal(Seq::filter);
        }
        while y > 0
            invariant
                y <= line <= 20,
                rows == pre.board,
                rows.len() == 20,
                self@ == (GameView { board: self@.board, ..pre }),
                forall|r: int| 0 <= r < y ==> #[trigger] self.board[r] == old(self).board[r],
                forall|r: int| 0 <= r < 20 ==> #[trigger] rows[r] == old(self).board[r]@,
                self@.board.subrange(line as int, 20) == kept_rows(rows.subrange(y as int, 20)),
            decreases y,
        {
            y -= 1;
            let full = row_is_full(&self.board[y]);
            proof {
                rows.subrange(y + 1, 20).lemma_filter_prepend(rows[y as int], is_kept());
                assert(seq![rows[y as int]] + rows.subrange(y + 1, 20) == rows.subrange(
                    y as int,
                    20,
                ));
            }
            if !full {
                self.board[line - 1] = self.board[y];
                line -= 1;
            }
        }
        assert(rows.subrange(0, 20) == rows);
        let mut r: usize = line;
        while r > 0
            invariant
                r <= line <= 20,
                self@ == (GameView { board: self@.board, ..pre }),
                self@.board.subrange(line as int, 20) == kept_rows(rows),
                forall|i: int| r <= i < line ==> #[trigger] self@.board[i] == empty_row(),
            decreases r,
        {
            r -= 1;
            let ghost before = self@.board;
            self.board[r] = [0; 10];
            assert forall|i: int| r < i < line implies #[trigger] self@.board[i]
                == empty_row() by {
                assert(self@.board[i] == before[i]);
            }
        }
        assert(self@.board == cleared(rows)) by {
            assert forall|i: int| line <= i < 20 implies self@.board[i] == cleared(rows)[i] by {
                assert(self@.board.subrange(line as int, 20)[i - line] == self@.board[i]);
            }
        }
        line as u32
    }

    /// The level: one for every ten rows removed.
    pub fn get_level(&self) -> (level: u32)
        ensures
            level == self@.level(),
    {
        self.lines_cleared / 10
    }

    /// Adds the points for removing `lines` rows at once: 40, 100, 300 or
    /// 1200 for one to four rows, times one more than the level.
    fn update_score(&mut self, lines: u32)
        requires
            old(self)@.scored(lines as int).score <= u32::MAX,
        ensures
            final(self)@ == old(self)@.scored(lines as int),
    {
        let l = self.get_level();
        let score: u32 = match lines {
            1 => 40,
            2 => 100,
            3 => 300,
            4 => 1200,
            _ => 0,
        };
        assert(score * (l + 1) <= u32::MAX) by (nonlinear_arith)
            requires
                self.score + score * (l + 1) <= u32::MAX,
                self.score >= 0,
        ;
        self.score += score * (l + 1);
    }

    /// Locks the active piece: writes its cells into the board, leaving out
    /// those above the visible field, removes full rows, scores them, and
    /// summons the next piece of the bag. Returns whether a cell stood above
    /// the field, which ends the game.
    pub fn place(&mut self) -> (lock_out: bool)
        requires
            old(self).wf(),
            old(self)@.place_in_range(),
        ensures
            final(self).wf(),
            lock_out == old(self)@.locks_out(),
            final(self)@ == old(self)@.placed(final(self)@.bag),
            old(self)@.bag.draws_to(final(self)@.bag),
    {
        let ghost pre = self@;
        let tetromino = self.current_tetromino();
        let mut lock_out = false;
        let mut k: usize = 0;
        proof {
            lemma_in_bounds_position(
                self.current_piece,
                self.current_rotation as int,
                pre.position.0,
                pre.position.1,
            );
            assert(self@.board =~~= stamped_first(
                0,
                pre.board,
                pre.position.0,
                pre.position.1,
                tetromino,
                pre.piece.index,
            ));
        }
        while k < 4
            invariant
                k <= 4,
                pre == old(self)@,
                pre.wf(),
                tetromino == pre.shape(),
                -2 <= pre.position.0 <= 11,
                pre.position.1 <= 21,
                self@ == (GameView { board: self@.board, ..pre }),
                self@.board == stamped_first(
                    k as int,
                    pre.board,
                    pre.position.0,
                    pre.position.1,
                    tetromino,
                    pre.piece.index,
                ),
                lock_out == above_field_first(k as int, pre.position.1, tetromino),
            decreases 4 - k,
        {
            let (t_x, t_y) = tetromino[k];
            let x: i32 = self.current_position.0 as i32 + t_x as i32;
            let y: i32 = self.current_position.1 as i32 - t_y as i32;
            let ghost before = self@.board;
            if y < 0 {
                lock_out = true;
            } else {
                self.board[y as usize][x as usize] = self.current_piece.index;
            }
            k += 1;
            proof {
                let after = stamped_first(
                    k as int,
                    pre.board,
                    pre.position.0,
                    pre.position.1,
                    tetromino,
                    pre.piece.index,
                );
                assert forall|r: int, c: int| 0 <= r < 20 && 0 <= c < 10 implies self@.board[r][c]
                    == after[r][c] by {
                    if r != y || c != x {
                        assert(self@.board[r][c] == before[r][c]);
                    }
                }
                assert(self@.board =~~= after);
            }
        }
        proof {
            lemma_piece_index(pre.piece);
            lemma_cleared_is_board(self@.board);
        }
        let lines = self.clear_lines();
        self.update_score(lines);
        self.lines_cleared += lines;
        let x = self.get_next();
        self.summon_piece(x);
        self.already_switched = false;
        proof {
            lemma_spawn_in_bounds(x);
        }
        lock_out
    }

    /// Lets the active piece fall as far as it can and locks it there.
    /// Returns what `place` returns.
    pub fn hard_drop(&mut self) -> (lock_out: bool)
        requires
            old(self).wf(),
            old(self)@.landed().place_in_range(),
        ensures
            final(self).wf(),
            lock_out == old(self)@.landed().locks_out(),
            final(self)@ == old(self)@.hard_dropped(final(self)@.bag),
            old(self)@.bag.draws_to(final(self)@.bag),
    {
        let ghost pre = self@;
        loop
            invariant
                self.wf(),
                self@ == (GameView { position: (pre.position.0, self@.position.1), ..pre }),
                landing_row(pre.board, pre.shape(), pre.position.0, self@.position.1)
                    == landing_row(pre.board, pre.shape(), pre.position.0, pre.position.1),
            ensures
                !self@.can_drop(),
            decreases 21 - self@.position.1,
        {
            proof {
                lemma_in_bounds_position(
                    self.current_piece,
                    self.current_rotation as int,
                    self@.position.0,
                    self@.position.1,
                );
            }
            if !self.drop() {
                break ;
            }
        }
        self.place()
    }
}

} // verus!
