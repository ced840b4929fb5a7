use only_move::engine::Tables;
use only_move::placement::{PlacedPiece, Placement, Role};
use only_move::puzzle::{
    dtz_in_range, generate_random_position_with_eval, get_single_best_reply, half_move_clock,
    is_puzzle_candidate, legal_moves_and_best_reply, outcome_from_wdl, Outcome,
};
use only_move::sampler::position_from_placement;
use only_move::selector::PuzzleError;
use rand::SeedableRng;
use shakmaty_syzygy::AmbiguousWdl;

fn empty_tables() -> Tables {
    Tables {
        tablebase: shakmaty_syzygy::Tablebase::new(),
    }
}

fn king_and_queen_against_king() -> Placement {
    Placement {
        pieces: vec![
            PlacedPiece { square: 4, white: true, role: Role::King },
            PlacedPiece { square: 60, white: false, role: Role::King },
            PlacedPiece { square: 3, white: true, role: Role::Queen },
        ],
        white_to_move: true,
    }
}

#[test]
fn dtz_minimum_is_exclusive() {
    assert!(!dtz_in_range(10, 10));
    assert!(dtz_in_range(11, 10));
    assert!(!dtz_in_range(-10, 10));
    assert!(dtz_in_range(-11, 10));
    assert!(dtz_in_range(99, 10));
    assert!(!dtz_in_range(100, 10));
    assert!(!dtz_in_range(-100, 10));
    assert!(!dtz_in_range(0, 0));
    assert!(!dtz_in_range(i32::MIN, 0));
}

#[test]
fn draws_are_never_puzzles() {
    for dtz in [-50, -11, 0, 11, 50] {
        assert!(!is_puzzle_candidate(Outcome::Draw, dtz, 10));
        assert_eq!(half_move_clock(Outcome::Draw, dtz), None);
    }
    assert!(is_puzzle_candidate(Outcome::Win, 11, 10));
    assert!(is_puzzle_candidate(Outcome::Loss, -11, 10));
    assert!(!is_puzzle_candidate(Outcome::Win, 10, 10));
}

#[test]
fn wdl_values_map_to_outcomes() {
    assert_eq!(outcome_from_wdl(AmbiguousWdl::Win), Outcome::Win);
    assert_eq!(outcome_from_wdl(AmbiguousWdl::Loss), Outcome::Loss);
    assert_eq!(outcome_from_wdl(AmbiguousWdl::CursedWin), Outcome::Draw);
    assert_eq!(outcome_from_wdl(AmbiguousWdl::MaybeWin), Outcome::Draw);
    assert_eq!(outcome_from_wdl(AmbiguousWdl::BlessedLoss), Outcome::Draw);
    assert_eq!(outcome_from_wdl(AmbiguousWdl::Draw), Outcome::Draw);
}

#[test]
fn missing_tables_fail_the_reply_probe() {
    let pos = position_from_placement(&king_and_queen_against_king()).unwrap();
    let (moves, r) = legal_moves_and_best_reply(&empty_tables(), &pos, 10);
    assert!(!moves.is_empty());
    assert_eq!(r.err(), Some(PuzzleError::ProbeFailed));
    assert_eq!(
        get_single_best_reply(&empty_tables(), &pos, &moves, 10).err(),
        Some(PuzzleError::ProbeFailed)
    );
}

#[test]
fn no_moves_is_an_inconsistency() {
    let pos = position_from_placement(&king_and_queen_against_king()).unwrap();
    assert_eq!(
        get_single_best_reply(&empty_tables(), &pos, &Vec::new(), 10).err(),
        Some(PuzzleError::NoCandidate)
    );
}

#[test]
fn missing_tables_fail_the_position_probe() {
    let mut rng = rand::rngs::StdRng::seed_from_u64(3);
    let r = generate_random_position_with_eval(&empty_tables(), &mut rng, 3);
    assert!(matches!(r, Err(PuzzleError::ProbeFailed)));
}
