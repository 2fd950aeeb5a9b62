//! The rules of the game as a state machine over a mathematical model of
//! the engine. The executable engine is specified against these functions.

use crate::bag::BagView;
use crate::board::{above_field, cleared, fits, full_rows, in_bounds, is_board, stamped};
use crate::pieces::{catalog, is_catalog_piece, kick, o_kick, reference_offset, Piece, Tetromino};
use vstd::prelude::*;

verus! {

/// Column in which a piece is summoned.
pub const SPAWN_COLUMN: i8 = 4;

/// Row in which a piece is summoned.
pub const SPAWN_ROW: i8 = 0;

/// The state of a game.
#[verifier::ext_equal]
pub struct GameView {
    /// The cells that hold locked pieces; the active piece is not among them.
    pub board: Seq<Seq<u8>>,
    /// The active piece.
    pub piece: Piece,
    /// Rotation state of the active piece.
    pub rotation: int,
    /// Column and row of the active piece's pivot.
    pub position: (int, int),
    /// Points scored so far.
    pub score: int,
    /// Rows removed so far.
    pub lines: int,
    /// The piece set aside, if any.
    pub hold: Option<Piece>,
    /// Whether the active piece came out of a hold swap.
    pub switched: bool,
    /// The bag that deals the next pieces.
    pub bag: BagView,
}

/// The highest row, counted from the top of the field, that the reference
/// point of the active piece ever reaches.
pub const HIGHEST_ANCHOR_ROW: i8 = -11;

/// Points for removing `rows` rows at once, before the level is applied.
pub open spec fn line_points(rows: int) -> int {
    if rows == 1 {
        40
    } else if rows == 2 {
        100
    } else if rows == 3 {
        300
    } else if rows == 4 {
        1200
    } else {
        0
    }
}

/// The row in which `shape` comes to rest when it falls from row `y` in
/// column `x`: the first row from which it cannot move down.
pub open spec fn landing_row(board: Seq<Seq<u8>>, shape: Tetromino, x: int, y: int) -> int
    decreases 147 - y,
{
    if fits(board, x, y + 1, shape) {
        landing_row(board, shape, x, y + 1)
    } else {
        y
    }
}

/// The column in which `shape` comes to rest when it slides from column `x`
/// in steps of `dir`: the first column from which it cannot take a step.
pub open spec fn slide_end(board: Seq<Seq<u8>>, shape: Tetromino, x: int, y: int, dir: int) -> int
    decreases
        (if dir > 0 {
            138 - x
        } else {
            x + 129
        }),
{
    if dir != 0 && fits(board, x + dir, y, shape) {
        slide_end(board, shape, x + dir, y, dir)
    } else {
        x
    }
}

impl GameView {
    /// The cells of the active piece in its rotation state.
    pub open spec fn shape(self) -> Tetromino {
        self.piece.rotations[self.rotation]
    }

    /// The row of the active piece's reference point: the row of its pivot
    /// less the reference offset of its rotation state. A rotation moves it
    /// only when it takes a kick candidate of another height than the first.
    pub open spec fn anchor_row(self) -> int {
        self.position.1 - reference_offset(self.piece.name, self.rotation).1
    }

    /// What holds of every game: the board is a board, the pieces come from
    /// the catalog, and the active piece stands between the walls, above the
    /// floor and within reach of the field. The active piece may overlap
    /// locked cells: a piece that is summoned onto a full spawn area does.
    pub open spec fn wf(self) -> bool {
        &&& is_board(self.board)
        &&& 0 <= self.rotation < 4
        &&& is_catalog_piece(self.piece)
        &&& (self.hold matches Some(p) ==> is_catalog_piece(p))
        &&& in_bounds(self.position.0, self.position.1, self.shape())
        &&& self.anchor_row() >= HIGHEST_ANCHOR_ROW
        &&& 0 <= self.score
        &&& 0 <= self.lines
        &&& self.bag.wf()
    }

    /// Whether the active piece overlaps no locked cell.
    pub open spec fn piece_fits(self) -> bool {
        fits(self.board, self.position.0, self.position.1, self.shape())
    }

    /// Whether the active piece can move `dir` columns to the right.
    pub open spec fn can_move(self, dir: int) -> bool {
        fits(self.board, self.position.0 + dir, self.position.1, self.shape())
    }

    /// The game after an attempt to move the active piece by `dir` columns.
    pub open spec fn moved(self, dir: int) -> GameView {
        if self.can_move(dir) {
            GameView { position: (self.position.0 + dir, self.position.1), ..self }
        } else {
            self
        }
    }

    /// The game after the active piece has slid in steps of `dir` columns
    /// until it was blocked.
    pub open spec fn hard_moved(self, dir: int) -> GameView {
        GameView {
            position: (
                slide_end(self.board, self.shape(), self.position.0, self.position.1, dir),
                self.position.1,
            ),
            ..self
        }
    }

    /// Whether the active piece can move down one row.
    pub open spec fn can_drop(self) -> bool {
        fits(self.board, self.position.0, self.position.1 + 1, self.shape())
    }

    /// The game after an attempt to move the active piece down one row.
    pub open spec fn dropped(self) -> GameView {
        if self.can_drop() {
            GameView { position: (self.position.0, self.position.1 + 1), ..self }
        } else {
            self
        }
    }

    /// Where the active piece would come to rest if it fell straight down.
    pub open spec fn ghost(self) -> (int, int) {
        (
            self.position.0,
            landing_row(self.board, self.shape(), self.position.0, self.position.1),
        )
    }

    /// The game after the active piece has fallen as far as it can.
    pub open spec fn landed(self) -> GameView {
        GameView { position: self.ghost(), ..self }
    }

    /// The rotation state reached from the current one by `turns` quarter
    /// turns clockwise.
    pub open spec fn turned(self, turns: int) -> int {
        (self.rotation + turns) % 4
    }

    /// The position after a kick: the first component of a kick moves the
    /// piece to the right, the second moves it up.
    pub open spec fn kicked(self, by: (int, int)) -> (int, int) {
        (self.position.0 + by.0, self.position.1 - by.1)
    }

    /// The position that the `k`-th kick candidate of a turn to rotation
    /// state `to` leads to.
    pub open spec fn candidate(self, to: int, k: int) -> (int, int) {
        self.kicked(kick(self.piece.name, self.rotation, to, k))
    }

    /// Whether the active piece fits in rotation state `to` at the `k`-th
    /// kick candidate.
    pub open spec fn kick_fits(self, to: int, k: int) -> bool {
        fits(
            self.board,
            self.candidate(to, k).0,
            self.candidate(to, k).1,
            self.piece.rotations[to],
        )
    }

    /// The first kick candidate from `k` on that fits, or 5 when none does.
    pub open spec fn first_kick(self, to: int, k: int) -> int
        decreases 5 - k,
    {
        if k >= 5 {
            5
        } else if self.kick_fits(to, k) {
            k
        } else {
            self.first_kick(to, k + 1)
        }
    }

    /// The game after an attempt to turn the active piece by `turns` quarter
    /// turns clockwise. The O piece is moved by its one offset without a fit
    /// test; any other piece takes the first kick candidate that fits and
    /// stays as it is when none does.
    pub open spec fn rotated(self, turns: int) -> GameView {
        let to = self.turned(turns);
        if self.piece.name == 'O' {
            GameView { position: self.kicked(o_kick(self.rotation, to)), rotation: to, ..self }
        } else {
            let k = self.first_kick(to, 0);
            if k < 5 {
                GameView { position: self.candidate(to, k), rotation: to, ..self }
            } else {
                self
            }
        }
    }

    /// The game after `piece` has become the active piece.
    pub open spec fn summoned(self, piece: Piece) -> GameView {
        GameView {
            piece,
            rotation: 0,
            position: (SPAWN_COLUMN as int, SPAWN_ROW as int),
            ..self
        }
    }

    /// The level: one for every ten rows removed.
    pub open spec fn level(self) -> int {
        self.lines / 10
    }

    /// The game after the points for removing `rows` rows at once are added.
    pub open spec fn scored(self, rows: int) -> GameView {
        GameView { score: self.score + line_points(rows) * (self.level() + 1), ..self }
    }

    /// Whether locking the active piece would leave a cell of it above the
    /// visible field.
    pub open spec fn locks_out(self) -> bool {
        above_field(self.position.1, self.shape())
    }

    /// The board with the active piece written into it.
    pub open spec fn stamped_board(self) -> Seq<Seq<u8>> {
        stamped(self.board, self.position.0, self.position.1, self.shape(), self.piece.index)
    }

    /// The game after the active piece is locked: its cells on the field are
    /// written, full rows are removed and scored at the level before the
    /// removal, and the piece at the head of the bag becomes active. `bag` is
    /// the bag after the draw.
    pub open spec fn placed(self, bag: BagView) -> GameView {
        let rows = full_rows(self.stamped_board());
        GameView {
            board: cleared(self.stamped_board()),
            score: self.score + line_points(rows) * (self.level() + 1),
            lines: self.lines + rows,
            switched: false,
            bag,
            ..self
        }.summoned(catalog(self.bag.upcoming[0] as int))
    }

    /// Whether score and row count after locking the active piece still fit
    /// the counters.
    pub open spec fn place_in_range(self) -> bool {
        &&& self.placed(self.bag).score <= u32::MAX
        &&& self.placed(self.bag).lines <= u32::MAX
    }

    /// The game after a hard drop. `bag` is the bag after the draw.
    pub open spec fn hard_dropped(self, bag: BagView) -> GameView {
        self.landed().placed(bag)
    }

    /// Whether a hold swap draws a piece from the bag: it does when it is
    /// allowed and no piece is set aside yet.
    pub open spec fn hold_draws(self) -> bool {
        !self.switched && self.hold is None
    }

    /// The game after an attempt to set the active piece aside. `bag` is the
    /// bag after the draw, where the swap draws.
    pub open spec fn held(self, bag: BagView) -> GameView {
        if self.switched {
            self
        } else {
            match self.hold {
                Some(p) => GameView {
                    hold: Some(self.piece),
                    switched: true,
                    ..self
                }.summoned(p),
                None => GameView {
                    hold: Some(self.piece),
                    switched: true,
                    bag,
                    ..self
                }.summoned(catalog(self.bag.upcoming[0] as int)),
            }
        }
    }
}

} // verus!
