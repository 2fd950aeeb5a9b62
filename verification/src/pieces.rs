//! The piece catalog: the seven tetrominoes, their four rotation states and
//! the kick offsets tried when a rotation is blocked.

use vstd::prelude::*;

verus! {

/// Four cell offsets from a pivot. The first component grows to the right,
/// the second grows upwards.
pub type Tetromino = [(i8, i8); 4];

/// One of the seven tetrominoes.
#[derive(Clone, Copy, Debug)]
pub struct Piece {
    /// The four rotation states, clockwise from the spawn orientation.
    pub rotations: [Tetromino; 4],
    /// The value written into the board for this piece, between 1 and 7.
    pub index: u8,
    /// The letter the piece is known by.
    pub name: char,
}

/// Rotation states of every piece, in the order I, J, L, O, S, T, Z.
pub const SHAPES: [[Tetromino; 4]; 7] = [
    [
        [(-1, 0), (0, 0), (1, 0), (2, 0)],
        [(0, 1), (0, 0), (0, -1), (0, -2)],
        [(-2, 0), (-1, 0), (0, 0), (1, 0)],
        [(0, 2), (0, 1), (0, 0), (0, -1)],
    ],
    [
        [(-1, 1), (-1, 0), (0, 0), (1, 0)],
        [(0, 1), (1, 1), (0, 0), (0, -1)],
        [(-1, 0), (0, 0), (1, 0), (1, -1)],
        [(0, 1), (0, 0), (0, -1), (-1, -1)],
    ],
    [
        [(-1, 0), (0, 0), (1, 0), (1, 1)],
        [(0, 1), (0, 0), (0, -1), (1, -1)],
        [(-1, 0), (0, 0), (1, 0), (-1, -1)],
        [(-1, 1), (0, 1), (0, 0), (0, -1)],
    ],
    [
        [(0, 1), (1, 1), (0, 0), (1, 0)],
        [(0, 0), (1, 0), (0, -1), (1, -1)],
        [(-1, 0), (0, 0), (-1, -1), (0, -1)],
        [(-1, 1), (0, 1), (-1, 0), (0, 0)],
    ],
    [
        [(0, 1), (1, 1), (-1, 0), (0, 0)],
        [(0, 1), (0, 0), (1, 0), (1, -1)],
        [(0, 0), (1, 0), (-1, -1), (0, -1)],
        [(-1, 1), (-1, 0), (0, 0), (0, -1)],
    ],
    [
        [(0, 1), (-1, 0), (0, 0), (1, 0)],
        [(0, 1), (0, 0), (1, 0), (0, -1)],
        [(-1, 0), (0, 0), (1, 0), (0, -1)],
        [(0, 1), (-1, 0), (0, 0), (0, -1)],
    ],
    [
        [(-1, 1), (0, 1), (0, 0), (1, 0)],
        [(1, 1), (0, 0), (1, 0), (0, -1)],
        [(-1, 0), (0, 0), (0, -1), (1, -1)],
        [(0, 1), (-1, 0), (0, 0), (-1, -1)],
    ],
];

/// Board value of every piece, in catalog order.
pub const COLOR_INDEXES: [u8; 7] = [1, 6, 7, 2, 4, 3, 5];

/// Letter of every piece, in catalog order.
pub const NAMES: [char; 7] = ['I', 'J', 'L', 'O', 'S', 'T', 'Z'];

/// Kick reference offsets of the J, L, S, T and Z pieces, by rotation state.
pub const OFFSET_DATA: [[(i8, i8); 5]; 4] = [
    [(0, 0), (0, 0), (0, 0), (0, 0), (0, 0)],
    [(0, 0), (1, 0), (1, -1), (0, 2), (1, 2)],
    [(0, 0), (0, 0), (0, 0), (0, 0), (0, 0)],
    [(0, 0), (-1, 0), (-1, -1), (0, 2), (-1, 2)],
];

/// Kick reference offsets of the I piece, by rotation state.
pub const I_OFFSET_DATA: [[(i8, i8); 5]; 4] = [
    [(0, 0), (-1, 0), (2, 0), (-1, 0), (2, 0)],
    [(-1, 0), (0, 0), (0, 0), (0, 1), (0, -2)],
    [(-1, 1), (1, 1), (-2, 1), (1, 0), (-2, 0)],
    [(0, 1), (0, 1), (0, 1), (0, -1), (0, 2)],
];

/// Reference offsets of the O piece, by rotation state.
pub const O_OFFSET_DATA: [(i8, i8); 4] = [(0, 0), (0, -1), (-1, -1), (-1, 0)];

/// The piece at position `kind` of the catalog.
pub open spec fn catalog(kind: int) -> Piece {
    Piece { rotations: SHAPES[kind], index: COLOR_INDEXES[kind], name: NAMES[kind] }
}

/// Whether `p` is one of the seven pieces of the catalog.
pub open spec fn is_catalog_piece(p: Piece) -> bool {
    exists|kind: int| 0 <= kind < 7 && p == #[trigger] catalog(kind)
}

/// The `k`-th kick candidate for turning the piece called `name` from
/// rotation state `start` to `end`: the difference of the two states'
/// reference offsets.
pub open spec fn kick(name: char, start: int, end: int, k: int) -> (int, int) {
    if name == 'I' {
        (
            I_OFFSET_DATA[start][k].0 - I_OFFSET_DATA[end][k].0,
            I_OFFSET_DATA[start][k].1 - I_OFFSET_DATA[end][k].1,
        )
    } else {
        (
            OFFSET_DATA[start][k].0 - OFFSET_DATA[end][k].0,
            OFFSET_DATA[start][k].1 - OFFSET_DATA[end][k].1,
        )
    }
}

/// The single offset applied when the O piece turns from `start` to `end`.
pub open spec fn o_kick(start: int, end: int) -> (int, int) {
    (
        O_OFFSET_DATA[start].0 - O_OFFSET_DATA[end].0,
        O_OFFSET_DATA[start].1 - O_OFFSET_DATA[end].1,
    )
}

/// The reference offset of the piece called `name` in rotation state
/// `state`: the offset from which its first kick candidate is made. A kick
/// is the difference of two reference offsets, so a rotation by its first
/// candidate leaves the pivot less its reference offset where it was.
pub open spec fn reference_offset(name: char, state: int) -> (int, int) {
    if name == 'O' {
        (O_OFFSET_DATA[state].0 as int, O_OFFSET_DATA[state].1 as int)
    } else if name == 'I' {
        (I_OFFSET_DATA[state][0].0 as int, I_OFFSET_DATA[state][0].1 as int)
    } else {
        (OFFSET_DATA[state][0].0 as int, OFFSET_DATA[state][0].1 as int)
    }
}

/// Looks a piece up in the catalog.
pub fn piece(kind: usize) -> (p: Piece)
    requires
        kind < 7,
    ensures
        p == catalog(kind as int),
        is_catalog_piece(p),
{
    let p = Piece { rotations: SHAPES[kind], index: COLOR_INDEXES[kind], name: NAMES[kind] };
    assert(p == catalog(kind as int));
    p
}

/// The five kick candidates, in the order in which a rotation tries them.
pub fn calc_kicks(piece: char, start: usize, end: usize) -> (kicks: [(i8, i8); 5])
    requires
        start < 4,
        end < 4,
    ensures
        forall|k: int|
            0 <= k < 5 ==> (#[trigger] kicks[k]).0 == kick(piece, start as int, end as int, k).0
                && kicks[k].1 == kick(piece, start as int, end as int, k).1,
{
    let mut kicks: [(i8, i8); 5] = [(0, 0); 5];
    let mut k: usize = 0;
    while k < 5
        invariant
            k <= 5,
            start < 4,
            end < 4,
            forall|j: int|
                0 <= j < k ==> (#[trigger] kicks[j]).0 == kick(
                    piece,
                    start as int,
                    end as int,
                    j,
                ).0 && kicks[j].1 == kick(piece, start as int, end as int, j).1,
        decreases 5 - k,
    {
        let (start_x, start_y) = if piece == 'I' {
            I_OFFSET_DATA[start][k]
        } else {
            OFFSET_DATA[start][k]
        };
        let (end_x, end_y) = if piece == 'I' {
            I_OFFSET_DATA[end][k]
        } else {
            OFFSET_DATA[end][k]
        };
        proof {
            lemma_offset_data_small(start as int, k as int);
            lemma_offset_data_small(end as int, k as int);
        }
        kicks[k] = (start_x - end_x, start_y - end_y);
        k += 1;
    }
    kicks
}

/// The offset applied to the O piece when it turns from `start` to `end`.
pub fn calc_o_kick(start: usize, end: usize) -> (k: (i8, i8))
    requires
        start < 4,
        end < 4,
    ensures
        k.0 == o_kick(start as int, end as int).0,
        k.1 == o_kick(start as int, end as int).1,
{
    let (start_x, start_y) = O_OFFSET_DATA[start];
    let (end_x, end_y) = O_OFFSET_DATA[end];
    (start_x - end_x, start_y - end_y)
}

/// Every kick reference offset lies between -2 and 2.
pub proof fn lemma_offset_data_small(state: int, k: int)
    requires
        0 <= state < 4,
        0 <= k < 5,
    ensures
        -2 <= OFFSET_DATA[state][k].0 <= 2,
        -2 <= OFFSET_DATA[state][k].1 <= 2,
        -2 <= I_OFFSET_DATA[state][k].0 <= 2,
        -2 <= I_OFFSET_DATA[state][k].1 <= 2,
{
}

/// Every cell offset of every catalog shape lies between -2 and 2.
pub proof fn lemma_shape_offsets_small(kind: int, rotation: int, i: int)
    requires
        0 <= kind < 7,
        0 <= rotation < 4,
        0 <= i < 4,
    ensures
        -2 <= catalog(kind).rotations[rotation][i].0 <= 2,
        -2 <= catalog(kind).rotations[rotation][i].1 <= 2,
{
}

/// The four cells of a rotation state are pairwise distinct, for every
/// piece and every rotation state.
pub proof fn lemma_cells_distinct(kind: int, rotation: int, i: int, j: int)
    requires
        0 <= kind < 7,
        0 <= rotation < 4,
        0 <= i < 4,
        0 <= j < 4,
        i != j,
    ensures
        catalog(kind).rotations[rotation][i] != catalog(kind).rotations[rotation][j],
{
}

} // verus!
