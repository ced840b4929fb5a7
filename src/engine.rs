//! The rules engine (shakmaty), the tablebase (shakmaty-syzygy) and the
//! random source (rand), as this library relies on them.
use crate::placement::Placement;
#[allow(unused_imports)]
use crate::placement::piece_codes;
use rand::Rng;
use shakmaty::{FromSetup, Position};
use vstd::prelude::*;

verus! {

#[verifier::external_type_specification]
#[verifier::external_body]
pub struct ExChess(shakmaty::Chess);

#[verifier::external_type_specification]
#[verifier::external_body]
pub struct ExMove(shakmaty::Move);

#[verifier::external_type_specification]
#[verifier::external_body]
pub struct ExSyzygyError(shakmaty_syzygy::SyzygyError);

/// The opened endgame tablebases. Held opaquely: shakmaty-syzygy's
/// `Tablebase` is bounded by traits of shakmaty that this library cannot
/// declare.
#[verifier::external_body]
pub struct Tables {
    pub tablebase: shakmaty_syzygy::Tablebase<shakmaty::Chess>,
}

#[verifier::external_type_specification]
#[verifier::external_body]
pub struct ExStdRng(rand::rngs::StdRng);

// Declared with its variants visible, so that verified code can tell them apart.
#[verifier::external_type_specification]
pub struct ExAmbiguousWdl(shakmaty_syzygy::AmbiguousWdl);

/// Whether shakmaty accepts the pieces `codes` (square, white, role index),
/// with the given side to move, as a legal standard chess position.
pub uninterp spec fn legal_setup(codes: Seq<(u8, bool, u8)>, white_to_move: bool) -> bool;

/// Relies on rand's `Rng::gen_range`: a value of `0..n`, uniformly drawn (it
/// panics on an empty range).
#[verifier::external_body]
pub(crate) fn draw_below(rng: &mut rand::rngs::StdRng, n: u8) -> (r: u8)
    requires
        0 < n,
    ensures
        r < n,
{
    rng.gen_range(0..n)
}

/// Relies on rand's `Rng::gen` for `bool`: a fair coin.
#[verifier::external_body]
pub(crate) fn draw_bool(rng: &mut rand::rngs::StdRng) -> bool {
    rng.gen()
}

/// Relies on shakmaty's `Chess::from_setup` in standard castling mode: the
/// pieces put on an empty `Setup` by `Board::set_piece_at` (`Square::new`
/// panics from 64 on; the roles are taken from `Role::ALL`, which has the
/// order of `Role`), with the side to move set, are accepted exactly when they
/// form a legal position. `Setup::empty` has no castling rights, no en-passant
/// square, half-move clock 0 and move number 1.
#[verifier::external_body]
pub(crate) fn chess_from_placement(placement: &Placement) -> (r: Option<shakmaty::Chess>)
    requires
        placement.wf(),
    ensures
        r is Some == legal_setup(piece_codes(placement.pieces@), placement.white_to_move),
{
    let mut setup = shakmaty::Setup::empty();
    for p in placement.pieces.iter() {
        let piece = shakmaty::Role::ALL[p.role as usize].of(shakmaty::Color::from_white(p.white));
        setup.board.set_piece_at(shakmaty::Square::new(p.square as u32), piece);
    }
    setup.turn = shakmaty::Color::from_white(placement.white_to_move);
    shakmaty::Chess::from_setup(setup, shakmaty::CastlingMode::Standard).ok()
}

/// Relies on shakmaty's `Position::legal_moves`: the legal moves of `pos`.
#[verifier::external_body]
pub(crate) fn legal_moves(pos: &shakmaty::Chess) -> Vec<shakmaty::Move> {
    pos.legal_moves().to_vec()
}

/// Relies on shakmaty's `Move::is_zeroing`: whether the move is a capture or
/// a pawn move.
#[verifier::external_body]
pub(crate) fn is_zeroing(mv: &shakmaty::Move) -> bool {
    mv.is_zeroing()
}

/// Relies on shakmaty's `Position::play`: the position after `mv`, or `None`
/// where `mv` is not legal in `pos`.
#[verifier::external_body]
pub(crate) fn play(pos: &shakmaty::Chess, mv: &shakmaty::Move) -> Option<shakmaty::Chess> {
    pos.clone().play(*mv).ok()
}

/// Relies on shakmaty-syzygy's `Tablebase::probe_dtz`: the DTZ of `pos`, read
/// from the tables on disk, with any rounding of the tables ignored
/// (`MaybeRounded::ignore_rounding`).
#[verifier::external_body]
pub(crate) fn probe_dtz(
    tables: &Tables,
    pos: &shakmaty::Chess,
) -> Result<i32, shakmaty_syzygy::SyzygyError> {
    match tables.tablebase.probe_dtz(pos) {
        Ok(dtz) => Ok(dtz.ignore_rounding().0),
        Err(e) => Err(e),
    }
}

/// Relies on shakmaty-syzygy's `Tablebase::probe_wdl`: the win/draw/loss value
/// of `pos`, read from the tables on disk.
#[verifier::external_body]
pub(crate) fn probe_wdl(
    tables: &Tables,
    pos: &shakmaty::Chess,
) -> Result<shakmaty_syzygy::AmbiguousWdl, shakmaty_syzygy::SyzygyError> {
    tables.tablebase.probe_wdl(pos)
}

} // verus!
