use only_move::puzzle::{centipawn_eval, half_move_clock, Outcome};
use only_move::selector::{select_single_best, PuzzleError};

#[test]
fn king_and_queen_win_has_one_best_reply() {
    // Winning with DTZ 10: the best reply leaves the opponent at -9, a slower
    // one at -11; the others stalemate (0) or throw the win away.
    let replies = vec![Some(0), Some(-20), Some(-9), Some(-11), Some(-11)];
    assert_eq!(select_single_best(&replies, 10), Ok(Some(2)));
    assert_eq!(half_move_clock(Outcome::Win, 10), Some(89));
    assert_eq!(centipawn_eval(Outcome::Win), Some(10000));
}

#[test]
fn two_replies_tied_at_the_top_give_none() {
    let replies = vec![Some(-9), Some(-11), Some(-9)];
    assert_eq!(select_single_best(&replies, 10), Ok(None));
}

#[test]
fn identical_successor_dtz_gives_none() {
    let replies = vec![Some(-11), Some(-11), Some(-11)];
    assert_eq!(select_single_best(&replies, 10), Ok(None));
    let replies = vec![Some(-9), Some(-9)];
    assert_eq!(select_single_best(&replies, 10), Ok(None));
}

#[test]
fn best_reply_needs_a_runner_up() {
    let replies = vec![Some(-9), Some(-30)];
    assert_eq!(select_single_best(&replies, 10), Ok(None));
}

#[test]
fn no_reply_in_band_is_an_inconsistency() {
    let replies = vec![Some(-30), Some(0)];
    assert_eq!(select_single_best(&replies, 10), Err(PuzzleError::NoCandidate));
    let none: Vec<Option<i32>> = vec![];
    assert_eq!(select_single_best(&none, 10), Err(PuzzleError::NoCandidate));
}

#[test]
fn zeroing_replies_are_not_considered() {
    let replies = vec![None, Some(-11), None, Some(-9)];
    assert_eq!(select_single_best(&replies, 10), Ok(Some(3)));
    let only_zeroing = vec![None, None];
    assert_eq!(select_single_best(&only_zeroing, 10), Err(PuzzleError::NoCandidate));
}

#[test]
fn losing_side_band() {
    // Losing with DTZ -12: the best defence leaves the opponent at 11, one
    // two plies faster at 9.
    let replies = vec![Some(9), Some(11), Some(5)];
    assert_eq!(select_single_best(&replies, -12), Ok(Some(1)));
    assert_eq!(half_move_clock(Outcome::Loss, -12), Some(90));
    assert_eq!(centipawn_eval(Outcome::Loss), Some(0));
}

#[test]
fn selection_is_repeatable() {
    let replies = vec![Some(-13), Some(-15), Some(-15), Some(2)];
    let first = select_single_best(&replies, 14);
    assert_eq!(first, Ok(Some(0)));
    for _ in 0..5 {
        assert_eq!(select_single_best(&replies, 14), first);
    }
}

#[test]
fn chosen_reply_has_a_two_ply_margin() {
    let replies = vec![Some(-31), Some(-29), Some(-31)];
    let i = select_single_best(&replies, 30).unwrap().unwrap();
    let best = replies[i].unwrap();
    assert!(replies
        .iter()
        .enumerate()
        .any(|(j, c)| j != i && matches!(c, Some(v) if best - *v == 2)));
}

#[test]
fn extreme_dtz_values_do_not_overflow() {
    let replies = vec![Some(i32::MAX), Some(i32::MAX - 2)];
    assert_eq!(select_single_best(&replies, i32::MIN), Ok(Some(0)));
    let replies = vec![Some(i32::MIN), Some(i32::MIN + 2)];
    assert_eq!(select_single_best(&replies, i32::MAX), Ok(Some(1)));
    assert_eq!(select_single_best(&replies, 0), Err(PuzzleError::NoCandidate));
}
