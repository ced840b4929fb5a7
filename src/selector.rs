//! Choice of the single best reply from the distance-to-zero (DTZ) values of
//! the successors of a position.
//!
//! Sign convention: a DTZ is positive when the side to move wins and negative
//! when it loses. After a reply the successor is seen from the opponent's
//! side, so a winning reply of a position with DTZ `d > 0` leads to a
//! successor DTZ near `-d`. Tablebase DTZ values may be rounded by one ply,
//! which is why the accepted band is two values wide:
//!
//! * winning (`d > 0`): `c + d` is `+1` (the best reply) or `-1` (two plies slower);
//! * losing or drawn (`d <= 0`): `c + d` is `-1` (the best reply) or `-3` (two plies faster).
//!
//! Replies outside that band are clearly worse and are discarded. Zeroing
//! replies (captures and pawn moves) are never considered: the positions of
//! interest have a DTZ far from zero, where resetting the counter is never the
//! best reply. A reply is the unique answer when it is the only one at the top
//! of the band and at least one other reply sits two plies below it.
use vstd::prelude::*;

verus! {

/// Why a position could not be judged.
#[derive(Debug, Clone, Copy, PartialEq, Eq, Structural)]
pub enum PuzzleError {
    /// A tablebase probe failed: a table is missing or unreadable.
    ProbeFailed,
    /// No reply lies in the DTZ band of the position, which contradicts the
    /// position's own tablebase value.
    NoCandidate,
    /// The rules engine refused to play one of its own legal moves.
    IllegalReply,
}

/// The successor DTZ that the best reply of a position with DTZ `dtz` has.
pub open spec fn band_top(dtz: int) -> int {
    if dtz > 0 {
        1 - dtz
    } else {
        -1 - dtz
    }
}

/// Reply `i` is considered and lies at the top of the band.
pub open spec fn is_top(replies: Seq<Option<i32>>, dtz: int, i: int) -> bool {
    0 <= i < replies.len() && replies[i] is Some && replies[i]->0 == band_top(dtz)
}

/// Reply `i` is considered and lies two plies below the top of the band.
pub open spec fn is_runner_up(replies: Seq<Option<i32>>, dtz: int, i: int) -> bool {
    0 <= i < replies.len() && replies[i] is Some && replies[i]->0 == band_top(dtz) - 2
}

/// Reply `i` is considered and lies in the band.
pub open spec fn in_band(replies: Seq<Option<i32>>, dtz: int, i: int) -> bool {
    is_top(replies, dtz, i) || is_runner_up(replies, dtz, i)
}

/// Reply `i` is the only one at the top of the band, and some other reply
/// lies two plies below it.
pub open spec fn is_single_best(replies: Seq<Option<i32>>, dtz: int, i: int) -> bool {
    &&& is_top(replies, dtz, i)
    &&& forall|j: int| #![trigger is_top(replies, dtz, j)] j != i ==> !is_top(replies, dtz, j)
    &&& exists|j: int| is_runner_up(replies, dtz, j)
}

/// What the selection returns on the successor DTZ values `replies` (one per
/// legal reply, `None` for a reply that is not considered) of a position with
/// DTZ `dtz`.
pub open spec fn selection_holds(
    replies: Seq<Option<i32>>,
    dtz: int,
    r: Result<Option<usize>, PuzzleError>,
) -> bool {
    match r {
        Err(e) => e == PuzzleError::NoCandidate && forall|i: int| !in_band(replies, dtz, i),
        Ok(Some(i)) => is_single_best(replies, dtz, i as int),
        Ok(None) => (exists|i: int| in_band(replies, dtz, i)) && forall|i: int|
            !is_single_best(replies, dtz, i),
    }
}

/// Picks the index of the single best reply, if there is one.
///
/// `replies[i]` is the DTZ of the position after reply `i`, or `None` when
/// reply `i` is a zeroing move and is not considered.
pub fn select_single_best(replies: &Vec<Option<i32>>, dtz: i32) -> (r: Result<
    Option<usize>,
    PuzzleError,
>)
    ensures
        selection_holds(replies@, dtz as int, r),
{
    let top: i64 = if dtz > 0 {
        1 - dtz as i64
    } else {
        -1 - dtz as i64
    };
    let mut best: Option<usize> = None;
    let mut second: Option<usize> = None;
    let mut runner: Option<usize> = None;
    let mut k: usize = 0;
    while k < replies.len()
        invariant
            k <= replies.len(),
            top == band_top(dtz as int),
            best is None ==> forall|j: int| 0 <= j < k ==> !is_top(replies@, dtz as int, j),
            best is Some ==> {
                &&& best->0 < k
                &&& is_top(replies@, dtz as int, best->0 as int)
                &&& second is None ==> forall|j: int|
                    0 <= j < k && j != best->0 ==> !is_top(replies@, dtz as int, j)
            },
            second is Some ==> {
                &&& best is Some
                &&& second->0 < k
                &&& second->0 != best->0
                &&& is_top(replies@, dtz as int, second->0 as int)
            },
            runner is None ==> forall|j: int| 0 <= j < k ==> !is_runner_up(replies@, dtz as int, j),
            runner is Some ==> runner->0 < k && is_runner_up(replies@, dtz as int, runner->0 as int),
        decreases replies.len() - k,
    {
        if let Some(c) = replies[k] {
            if c as i64 == top {
                if best.is_none() {
                    best = Some(k);
                } else if second.is_none() {
                    second = Some(k);
                }
            } else if c as i64 == top - 2 {
                if runner.is_none() {
                    runner = Some(k);
                }
            }
        }
        k = k + 1;
    }
    match (best, runner) {
        (None, None) => {
            assert forall|i: int| !in_band(replies@, dtz as int, i) by {
                if 0 <= i < k {
                }
            }
            Err(PuzzleError::NoCandidate)
        },
        (Some(b), Some(u)) => {
            if second.is_none() {
                assert(is_runner_up(replies@, dtz as int, u as int));
                Ok(Some(b))
            } else {
                let s = second.unwrap();
                assert(in_band(replies@, dtz as int, b as int));
                assert forall|i: int| !is_single_best(replies@, dtz as int, i) by {
                    if i != b {
                        assert(is_top(replies@, dtz as int, b as int));
                    } else {
                        assert(is_top(replies@, dtz as int, s as int));
                    }
                }
                Ok(None)
            }
        },
        (Some(b), None) => {
            assert(in_band(replies@, dtz as int, b as int));
            assert forall|i: int| !is_single_best(replies@, dtz as int, i) by {
                if is_single_best(replies@, dtz as int, i) {
                    let j = choose|j: int| is_runner_up(replies@, dtz as int, j);
                    assert(0 <= j < k);
                }
            }
            Ok(None)
        },
        (None, Some(u)) => {
            assert(in_band(replies@, dtz as int, u as int));
            assert forall|i: int| !is_single_best(replies@, dtz as int, i) by {
                if is_single_best(replies@, dtz as int, i) {
                    assert(0 <= i < k);
                }
            }
            Ok(None)
        },
    }
}

/// The selection is a function of the successor DTZ values and the DTZ of
/// the position: two results that both meet its contract are the same.
pub proof fn selection_is_deterministic(
    replies: Seq<Option<i32>>,
    dtz: int,
    r1: Result<Option<usize>, PuzzleError>,
    r2: Result<Option<usize>, PuzzleError>,
)
    requires
        selection_holds(replies, dtz, r1),
        selection_holds(replies, dtz, r2),
    ensures
        r1 == r2,
{
    match (r1, r2) {
        (Ok(Some(i)), Ok(Some(j))) => {
            if i != j {
                assert(is_top(replies, dtz, j as int));
            }
        },
        (Ok(Some(i)), Ok(None)) => {
            assert(!is_single_best(replies, dtz, i as int));
        },
        (Ok(None), Ok(Some(j))) => {
            assert(!is_single_best(replies, dtz, j as int));
        },
        (Ok(Some(i)), Err(_)) => {
            assert(!in_band(replies, dtz, i as int));
        },
        (Err(_), Ok(Some(j))) => {
            assert(!in_band(replies, dtz, j as int));
        },
        (Ok(None), Err(_)) => {
            let k = choose|k: int| in_band(replies, dtz, k);
            assert(!in_band(replies, dtz, k));
        },
        (Err(_), Ok(None)) => {
            let k = choose|k: int| in_band(replies, dtz, k);
            assert(!in_band(replies, dtz, k));
        },
        _ => {},
    }
}

/// A chosen reply stands out: some other considered reply has a successor
/// DTZ exactly two plies below it.
pub proof fn chosen_reply_has_margin(replies: Seq<Option<i32>>, dtz: int, i: usize)
    requires
        selection_holds(replies, dtz, Ok(Some(i))),
    ensures
        exists|j: int|
            0 <= j < replies.len() && j != i && replies[j] is Some && #[trigger] replies[j]->0
                == replies[i as int]->0 - 2,
{
    let j = choose|j: int| is_runner_up(replies, dtz, j);
    assert(j != i);
    assert(replies[j]->0 == replies[i as int]->0 - 2);
}

/// When every considered reply leads to the same successor DTZ, no reply is
/// chosen.
pub proof fn equal_replies_choose_none(
    replies: Seq<Option<i32>>,
    dtz: int,
    r: Result<Option<usize>, PuzzleError>,
)
    requires
        selection_holds(replies, dtz, r),
        forall|i: int, j: int|
            0 <= i < replies.len() && 0 <= j < replies.len() && replies[i] is Some
                && replies[j] is Some ==> #[trigger] replies[i] == #[trigger] replies[j],
    ensures
        !(r matches Ok(Some(_))),
{
    if let Ok(Some(i)) = r {
        let j = choose|j: int| is_runner_up(replies, dtz, j);
        assert(replies[i as int] == replies[j]);
    }
}

/// When two replies tie at the top of the band, no reply is chosen.
pub proof fn tied_best_chooses_none(
    replies: Seq<Option<i32>>,
    dtz: int,
    i: int,
    j: int,
    r: Result<Option<usize>, PuzzleError>,
)
    requires
        selection_holds(replies, dtz, r),
        i != j,
        is_top(replies, dtz, i),
        is_top(replies, dtz, j),
    ensures
        r == Ok::<Option<usize>, PuzzleError>(None),
{
    assert(in_band(replies, dtz, i));
    if let Ok(Some(k)) = r {
        if k == i {
            assert(is_top(replies, dtz, j));
        } else {
            assert(is_top(replies, dtz, i));
        }
    }
}

} // verus!
