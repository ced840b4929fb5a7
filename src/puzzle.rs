//! From a sampled position and its tablebase values to an accepted puzzle:
//! the DTZ range filter, the single best reply, and the annotations of the
//! puzzle line.
use crate::engine::{is_zeroing, legal_moves, play, probe_dtz, probe_wdl, Tables};
use crate::sampler::{generate_random_position, well_sampled, SampledPosition};
use crate::selector::{
    is_runner_up, is_single_best, select_single_best, selection_holds, PuzzleError,
};
#[allow(unused_imports)]
use crate::engine::legal_setup;
#[allow(unused_imports)]
use crate::placement::piece_codes;
use vstd::prelude::*;

verus! {

/// Game-theoretic value of a position for the side to move.
#[derive(Debug, Clone, Copy, PartialEq, Eq, Structural)]
pub enum Outcome {
    Win,
    Loss,
    /// Any value that is not an unconditional win or loss: a draw, a win or
    /// loss that the fifty-move rule turns into a draw, or one that DTZ
    /// rounding leaves ambiguous.
    Draw,
}

/// DTZ magnitudes from this bound on lie beyond the fifty-move rule.
pub const DTZ_CEILING: i64 = 100;

/// Centipawn tag of a forced win.
pub const WIN_EVAL: u32 = 10000;

/// Reads a tablebase WDL value as an outcome.
pub fn outcome_from_wdl(wdl: shakmaty_syzygy::AmbiguousWdl) -> (r: Outcome)
    ensures
        r == Outcome::Win <==> wdl == shakmaty_syzygy::AmbiguousWdl::Win,
        r == Outcome::Loss <==> wdl == shakmaty_syzygy::AmbiguousWdl::Loss,
{
    match wdl {
        shakmaty_syzygy::AmbiguousWdl::Win => Outcome::Win,
        shakmaty_syzygy::AmbiguousWdl::Loss => Outcome::Loss,
        _ => Outcome::Draw,
    }
}

pub open spec fn abs(x: int) -> int {
    if x < 0 {
        -x
    } else {
        x
    }
}

/// The DTZ of a position is above the configured minimum and below the
/// fifty-move ceiling; both bounds exclusive.
pub open spec fn dtz_in_range_spec(dtz: int, dtz_minimum: int) -> bool {
    dtz_minimum < abs(dtz) < DTZ_CEILING
}

/// Whether `dtz` passes the range filter for `dtz_minimum`.
pub fn dtz_in_range(dtz: i32, dtz_minimum: u16) -> (r: bool)
    ensures
        r == dtz_in_range_spec(dtz as int, dtz_minimum as int),
{
    let magnitude: i64 = if dtz < 0 {
        -(dtz as i64)
    } else {
        dtz as i64
    };
    magnitude > dtz_minimum as i64 && magnitude < DTZ_CEILING
}

/// A position with this outcome and DTZ is passed on to the reply selection.
pub open spec fn is_candidate_spec(outcome: Outcome, dtz: int, dtz_minimum: int) -> bool {
    outcome != Outcome::Draw && dtz_in_range_spec(dtz, dtz_minimum)
}

/// Whether a position with this outcome and DTZ is worth a reply selection:
/// it is decided and its DTZ lies in range.
pub fn is_puzzle_candidate(outcome: Outcome, dtz: i32, dtz_minimum: u16) -> (r: bool)
    ensures
        r == is_candidate_spec(outcome, dtz as int, dtz_minimum as int),
{
    outcome != Outcome::Draw && dtz_in_range(dtz, dtz_minimum)
}

/// The half-move clock annotation of a puzzle line: the plies left of the
/// fifty-move budget once the DTZ is spent.
pub open spec fn half_move_clock_spec(outcome: Outcome, dtz: int) -> Option<int> {
    match outcome {
        Outcome::Win => Some(100 - dtz - 1),
        Outcome::Loss => Some(100 - abs(dtz) + 2),
        Outcome::Draw => None,
    }
}

/// The half-move clock annotation for a decided position; `None` for a draw.
pub fn half_move_clock(outcome: Outcome, dtz: i32) -> (r: Option<i64>)
    ensures
        r matches Some(h) ==> half_move_clock_spec(outcome, dtz as int) == Some(h as int),
        r is None ==> half_move_clock_spec(outcome, dtz as int) is None,
{
    match outcome {
        Outcome::Win => Some(100 - dtz as i64 - 1),
        Outcome::Loss => {
            let magnitude: i64 = if dtz < 0 {
                -(dtz as i64)
            } else {
                dtz as i64
            };
            Some(100 - magnitude + 2)
        },
        Outcome::Draw => None,
    }
}

/// The centipawn tag of a puzzle line: a forced win is worth `10000`, a forced
/// loss `0`; a draw has none.
pub fn centipawn_eval(outcome: Outcome) -> (r: Option<u32>)
    ensures
        outcome == Outcome::Win ==> r == Some(WIN_EVAL),
        outcome == Outcome::Loss ==> r == Some(0u32),
        outcome == Outcome::Draw ==> r is None,
{
    match outcome {
        Outcome::Win => Some(WIN_EVAL),
        Outcome::Loss => Some(0),
        Outcome::Draw => None,
    }
}

/// A draw is never a puzzle: it fails the candidate test whatever its DTZ,
/// and it has no half-move clock annotation.
pub proof fn draw_is_never_a_puzzle(dtz: int, dtz_minimum: int)
    ensures
        !is_candidate_spec(Outcome::Draw, dtz, dtz_minimum),
        half_move_clock_spec(Outcome::Draw, dtz) is None,
{
}

/// Probes the successors of `pos` for the moves `moves` and picks the index
/// of the single best reply. Zeroing moves are not probed and not
/// considered.
pub fn best_reply_index(
    tables: &Tables,
    pos: &shakmaty::Chess,
    moves: &Vec<shakmaty::Move>,
    dtz: i32,
) -> (r: Result<Option<usize>, PuzzleError>)
    ensures
        r matches Ok(Some(i)) ==> i < moves@.len(),
        r is Ok || r == Err::<Option<usize>, PuzzleError>(PuzzleError::NoCandidate) ==> exists|
            replies: Seq<Option<i32>>,
        | replies.len() == moves@.len() && #[trigger] selection_holds(replies, dtz as int, r),
        moves@.len() == 0 ==> r == Err::<Option<usize>, PuzzleError>(PuzzleError::NoCandidate),
{
    let mut replies: Vec<Option<i32>> = Vec::new();
    let mut k: usize = 0;
    while k < moves.len()
        invariant
            k <= moves.len(),
            replies@.len() == k,
        decreases moves.len() - k,
    {
        if is_zeroing(&moves[k]) {
            replies.push(None);
        } else {
            let child = match play(pos, &moves[k]) {
                Some(c) => c,
                None => return Err(PuzzleError::IllegalReply),
            };
            match probe_dtz(tables, &child) {
                Ok(c) => replies.push(Some(c)),
                Err(_) => return Err(PuzzleError::ProbeFailed),
            }
        }
        k = k + 1;
    }
    select_single_best(&replies, dtz)
}

/// What the reply selection returns on the moves `moves` of a position with
/// DTZ `dtz`, for some successor DTZ values `replies`, one per move: the move
/// at the index that the selection picks, `None` or the inconsistency error
/// as the selection gives them. A failed probe or an illegal move leaves the
/// values unknown.
pub open spec fn reply_choice_holds(
    moves: Seq<shakmaty::Move>,
    dtz: int,
    r: Result<Option<shakmaty::Move>, PuzzleError>,
) -> bool {
    match r {
        Ok(Some(mv)) => exists|replies: Seq<Option<i32>>, i: int|
            0 <= i < moves.len() && replies.len() == moves.len() && mv == moves[i]
                && #[trigger] is_single_best(replies, dtz, i),
        Ok(None) => exists|replies: Seq<Option<i32>>|
            replies.len() == moves.len() && #[trigger] selection_holds(replies, dtz, Ok(None)),
        Err(PuzzleError::NoCandidate) => exists|replies: Seq<Option<i32>>|
            replies.len() == moves.len() && #[trigger] selection_holds(
                replies,
                dtz,
                Err(PuzzleError::NoCandidate),
            ),
        Err(_) => true,
    }
}

/// The single best reply among `moves`, the legal moves of `pos`, whose own
/// DTZ is `dtz`; `None` when no reply stands out by a clear margin.
pub fn get_single_best_reply(
    tables: &Tables,
    pos: &shakmaty::Chess,
    moves: &Vec<shakmaty::Move>,
    dtz: i32,
) -> (r: Result<Option<shakmaty::Move>, PuzzleError>)
    ensures
        reply_choice_holds(moves@, dtz as int, r),
        moves@.len() == 0 ==> r == Err::<Option<shakmaty::Move>, PuzzleError>(
            PuzzleError::NoCandidate,
        ),
{
    match best_reply_index(tables, pos, moves, dtz) {
        Ok(Some(i)) => {
            let ghost replies = choose|replies: Seq<Option<i32>>|
                replies.len() == moves@.len() && #[trigger] selection_holds(
                    replies,
                    dtz as int,
                    Ok(Some(i)),
                );
            assert(is_single_best(replies, dtz as int, i as int));
            Ok(Some(moves[i]))
        },
        Ok(None) => Ok(None),
        Err(e) => Err(e),
    }
}

/// Enumerates the legal moves of `pos` and picks the single best reply among
/// them, as `get_single_best_reply` does. Returns the moves with the result.
pub fn legal_moves_and_best_reply(tables: &Tables, pos: &shakmaty::Chess, dtz: i32) -> (r: (
    Vec<shakmaty::Move>,
    Result<Option<shakmaty::Move>, PuzzleError>,
))
    ensures
        reply_choice_holds(r.0@, dtz as int, r.1),
        r.0@.len() == 0 ==> r.1 == Err::<Option<shakmaty::Move>, PuzzleError>(
            PuzzleError::NoCandidate,
        ),
{
    let moves = legal_moves(pos);
    let r = get_single_best_reply(tables, pos, &moves, dtz);
    (moves, r)
}

/// A chosen reply stands out: it is one of the moves, and some other move has
/// a successor DTZ exactly two plies below the chosen one's.
pub proof fn chosen_move_has_margin(moves: Seq<shakmaty::Move>, dtz: int, mv: shakmaty::Move)
    requires
        reply_choice_holds(moves, dtz, Ok(Some(mv))),
    ensures
        exists|replies: Seq<Option<i32>>, i: int, j: int|
            #![trigger replies[i], replies[j]]
            0 <= i < moves.len() && 0 <= j < moves.len() && j != i && replies.len()
                == moves.len() && mv == moves[i] && replies[i] is Some && replies[j] is Some
                && replies[j]->0 == replies[i]->0 - 2,
{
    let (replies, i) = choose|replies: Seq<Option<i32>>, i: int|
        0 <= i < moves.len() && replies.len() == moves.len() && mv == moves[i]
            && #[trigger] is_single_best(replies, dtz, i);
    let j = choose|j: int| is_runner_up(replies, dtz, j);
    assert(j != i);
    assert(replies[j]->0 == replies[i]->0 - 2);
}

/// A sampled position with its tablebase outcome and DTZ.
pub struct EvaluatedPosition {
    pub sampled: SampledPosition,
    pub outcome: Outcome,
    pub dtz: i32,
}

/// Samples a legal position with `num_pieces` pieces and probes its outcome
/// and DTZ. `Ok(None)` when the sampler ran out of attempts.
pub fn generate_random_position_with_eval(
    tables: &Tables,
    rng: &mut rand::rngs::StdRng,
    num_pieces: u8,
) -> (r: Result<Option<EvaluatedPosition>, PuzzleError>)
    requires
        3 <= num_pieces <= 7,
    ensures
        r matches Ok(Some(e)) ==> well_sampled(e.sampled.placement, num_pieces as nat) && legal_setup(
            piece_codes(e.sampled.placement.pieces@),
            e.sampled.placement.white_to_move,
        ),
{
    let sampled = match generate_random_position(rng, num_pieces) {
        Some(s) => s,
        None => return Ok(None),
    };
    let outcome = match probe_wdl(tables, &sampled.position) {
        Ok(wdl) => outcome_from_wdl(wdl),
        Err(_) => return Err(PuzzleError::ProbeFailed),
    };
    let dtz = match probe_dtz(tables, &sampled.position) {
        Ok(d) => d,
        Err(_) => return Err(PuzzleError::ProbeFailed),
    };
    Ok(Some(EvaluatedPosition { sampled, outcome, dtz }))
}

} // verus!
