//! A board as plain values: pieces on squares and the side to move.
use vstd::prelude::*;

verus! {

/// Kind of a chess piece, in the order Pawn, Knight, Bishop, Rook, Queen, King.
#[derive(Debug, Clone, Copy, PartialEq, Eq, Structural)]
pub enum Role {
    Pawn,
    Knight,
    Bishop,
    Rook,
    Queen,
    King,
}

/// Position of a role in the order Pawn, Knight, Bishop, Rook, Queen, King.
pub open spec fn role_index(r: Role) -> u8 {
    match r {
        Role::Pawn => 0,
        Role::Knight => 1,
        Role::Bishop => 2,
        Role::Rook => 3,
        Role::Queen => 4,
        Role::King => 5,
    }
}

/// A piece of colour white or black on a square `0..64` (file-major from a1:
/// `8 * rank + file`).
#[derive(Debug, Clone, Copy, PartialEq, Eq, Structural)]
pub struct PlacedPiece {
    pub square: u8,
    pub white: bool,
    pub role: Role,
}

/// Pieces on a board, with the side to move. There are no castling rights and
/// no en-passant square; the half-move clock is zero and the move number one.
#[derive(Debug, Clone)]
pub struct Placement {
    pub pieces: Vec<PlacedPiece>,
    pub white_to_move: bool,
}

/// Some piece of `pieces` stands on `square`.
pub open spec fn occupies(pieces: Seq<PlacedPiece>, square: u8) -> bool {
    exists|i: int| 0 <= i < pieces.len() && #[trigger] pieces[i].square == square
}

/// Every square is on the board and holds at most one piece.
pub open spec fn squares_valid(pieces: Seq<PlacedPiece>) -> bool {
    &&& forall|i: int| 0 <= i < pieces.len() ==> #[trigger] pieces[i].square < 64
    &&& forall|i: int, j: int|
        0 <= i < pieces.len() && 0 <= j < pieces.len() && i != j ==> #[trigger] pieces[i].square
            != #[trigger] pieces[j].square
}

/// The pieces as `(square, white, role index)` triples.
pub open spec fn piece_codes(pieces: Seq<PlacedPiece>) -> Seq<(u8, bool, u8)> {
    pieces.map_values(|p: PlacedPiece| (p.square, p.white, role_index(p.role)))
}

impl Placement {
    pub open spec fn wf(&self) -> bool {
        squares_valid(self.pieces@)
    }

    pub open spec fn codes(&self) -> Seq<(u8, bool, u8)> {
        piece_codes(self.pieces@)
    }

    /// Number of pieces on the board.
    pub fn piece_count(&self) -> (r: usize)
        ensures
            r == self.pieces@.len(),
    {
        self.pieces.len()
    }
}

/// Whether a piece of `pieces` stands on `square`.
pub fn is_occupied(pieces: &Vec<PlacedPiece>, square: u8) -> (r: bool)
    ensures
        r == occupies(pieces@, square),
{
    let mut k: usize = 0;
    while k < pieces.len()
        invariant
            k <= pieces.len(),
            forall|i: int| 0 <= i < k ==> pieces@[i].square != square,
        decreases pieces.len() - k,
    {
        if pieces[k].square == square {
            return true;
        }
        k = k + 1;
    }
    false
}

/// The role that a draw `k` out of five picks: Pawn, Knight, Bishop, Rook, Queen.
pub open spec fn drawn_role(k: u8) -> Role {
    if k == 0 {
        Role::Pawn
    } else if k == 1 {
        Role::Knight
    } else if k == 2 {
        Role::Bishop
    } else if k == 3 {
        Role::Rook
    } else {
        Role::Queen
    }
}

/// Maps a draw out of five to a role other than King.
pub fn role_from_draw(k: u8) -> (r: Role)
    requires
        k < 5,
    ensures
        r == drawn_role(k),
        r != Role::King,
{
    match k {
        0 => Role::Pawn,
        1 => Role::Knight,
        2 => Role::Bishop,
        3 => Role::Rook,
        _ => Role::Queen,
    }
}

} // verus!
