//! Random positions with an exact number of pieces.
//!
//! Kings come first: a white king on a random square, then a black king on a
//! random free square. Every further piece takes a role drawn uniformly from
//! Pawn, Knight, Bishop, Rook and Queen, a colour from a fair coin and a
//! random free square. The side to move is a fair coin. A placement that the
//! rules engine rejects as illegal is thrown away and the whole draw starts
//! again. Every retry loop is bounded; the bounds are far above what is needed
//! in practice, and running out of them is reported as `None`.
use crate::engine::{chess_from_placement, draw_below, draw_bool, legal_setup};
use crate::placement::{
    is_occupied, occupies, piece_codes, role_from_draw, squares_valid, PlacedPiece,
    Placement, Role,
};
use vstd::prelude::*;

verus! {

/// Draws of a square before one free square is given up for.
pub const MAX_SQUARE_DRAWS: u32 = 1000;

/// Placements drawn before a legal position is given up for.
pub const MAX_POSITION_ATTEMPTS: u32 = 100000;

/// A sampled position: its pieces as plain values and the rules engine's
/// position built from them.
pub struct SampledPosition {
    pub placement: Placement,
    pub position: shakmaty::Chess,
}

/// `placement` has `n` pieces on distinct squares of the board, the white
/// king first, the black king second and no other king.
pub open spec fn well_sampled(placement: Placement, n: nat) -> bool {
    &&& placement.wf()
    &&& placement.pieces@.len() == n
    &&& placement.pieces@[0].role == Role::King && placement.pieces@[0].white
    &&& placement.pieces@[1].role == Role::King && !placement.pieces@[1].white
    &&& forall|i: int| 2 <= i < n ==> #[trigger] placement.pieces@[i].role != Role::King
}

/// Draws squares until one that no piece of `pieces` holds comes up.
pub fn draw_free_square(rng: &mut rand::rngs::StdRng, pieces: &Vec<PlacedPiece>) -> (r: Option<u8>)
    ensures
        r matches Some(s) ==> s < 64 && !occupies(pieces@, s),
{
    let mut tries: u32 = 0;
    while tries < MAX_SQUARE_DRAWS
        decreases MAX_SQUARE_DRAWS - tries,
    {
        let square = draw_below(rng, 64);
        if !is_occupied(pieces, square) {
            return Some(square);
        }
        tries = tries + 1;
    }
    None
}

/// Appends `piece` on a free square, keeping the squares valid.
fn push_piece(pieces: &mut Vec<PlacedPiece>, piece: PlacedPiece)
    requires
        squares_valid(old(pieces)@),
        piece.square < 64,
        !occupies(old(pieces)@, piece.square),
    ensures
        final(pieces)@ == old(pieces)@.push(piece),
        squares_valid(final(pieces)@),
{
    pieces.push(piece);
    assert forall|i: int, j: int|
        0 <= i < pieces@.len() && 0 <= j < pieces@.len() && i != j implies #[trigger] pieces@[i].square
        != #[trigger] pieces@[j].square by {
        let n = old(pieces)@.len() as int;
        if i == n {
            assert(pieces@[j] == old(pieces)@[j]);
        } else if j == n {
            assert(pieces@[i] == old(pieces)@[i]);
        }
    }
}

/// Draws the pieces of one placement: two kings, then `num_pieces - 2`
/// further pieces, then the side to move. `None` when no free square came up.
pub fn place_random_pieces(rng: &mut rand::rngs::StdRng, num_pieces: u8) -> (r: Option<Placement>)
    requires
        2 <= num_pieces <= 64,
    ensures
        r matches Some(p) ==> well_sampled(p, num_pieces as nat),
{
    let mut pieces: Vec<PlacedPiece> = Vec::new();
    let first = draw_below(rng, 64);
    pieces.push(PlacedPiece { square: first, white: true, role: Role::King });
    let second = match draw_free_square(rng, &pieces) {
        Some(s) => s,
        None => return None,
    };
    push_piece(&mut pieces, PlacedPiece { square: second, white: false, role: Role::King });
    let mut k: u8 = 2;
    while k < num_pieces
        invariant
            2 <= k <= num_pieces <= 64,
            pieces@.len() == k,
            squares_valid(pieces@),
            pieces@[0].role == Role::King && pieces@[0].white,
            pieces@[1].role == Role::King && !pieces@[1].white,
            forall|i: int| 2 <= i < k ==> #[trigger] pieces@[i].role != Role::King,
        decreases num_pieces - k,
    {
        let role = role_from_draw(draw_below(rng, 5));
        let white = draw_bool(rng);
        let square = match draw_free_square(rng, &pieces) {
            Some(s) => s,
            None => return None,
        };
        push_piece(&mut pieces, PlacedPiece { square, white, role });
        k = k + 1;
    }
    let white_to_move = draw_bool(rng);
    Some(Placement { pieces, white_to_move })
}

/// Builds the rules engine's position from a placement; `None` when the
/// rules engine rejects it as illegal.
pub fn position_from_placement(placement: &Placement) -> (r: Option<shakmaty::Chess>)
    requires
        placement.wf(),
    ensures
        r is Some == legal_setup(piece_codes(placement.pieces@), placement.white_to_move),
{
    chess_from_placement(placement)
}

/// Samples a legal position with exactly `num_pieces` pieces on distinct
/// squares, retrying every placement that the rules engine rejects.
pub fn generate_random_position(rng: &mut rand::rngs::StdRng, num_pieces: u8) -> (r: Option<
    SampledPosition,
>)
    requires
        3 <= num_pieces <= 7,
    ensures
        r matches Some(s) ==> well_sampled(s.placement, num_pieces as nat) && legal_setup(
            piece_codes(s.placement.pieces@),
            s.placement.white_to_move,
        ),
{
    let mut attempts: u32 = 0;
    while attempts < MAX_POSITION_ATTEMPTS
        invariant
            3 <= num_pieces <= 7,
        decreases MAX_POSITION_ATTEMPTS - attempts,
    {
        if let Some(placement) = place_random_pieces(rng, num_pieces) {
            if let Some(position) = chess_from_placement(&placement) {
                return Some(SampledPosition { placement, position });
            }
        }
        attempts = attempts + 1;
    }
    None
}

} // verus!
