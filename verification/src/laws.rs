//! What holds of the cursor whatever the list and the query: steps wrap at
//! both ends, steps down and up undo each other, steps follow the list of
//! matches as it is shown, ties go to the earlier item, and a query that
//! matches nothing selects nothing.

use crate::cursor::{
    best_match, first_match_from, gain, is_best_match, is_match, last_match_before,
    lemma_best_match_found, lemma_best_match_is, lemma_first_match_from,
    lemma_last_match_before, next_match, position, previous_match, FilteredListCursor,
};
use crate::frame::{match_positions, match_positions_upto};
use vstd::prelude::*;

verus! {

/// With no score above zero there is no best match: a query that matches
/// nothing selects nothing.
pub proof fn lemma_no_score_no_best_match(scores: Seq<Option<u64>>)
    requires
        forall|j: int| 0 <= j < scores.len() ==> gain(#[trigger] scores[j]) == 0,
    ensures
        best_match(scores) is None,
        FilteredListCursor::after_recompute(scores).matched is None,
        FilteredListCursor::after_recompute(scores).result_index == 0,
{
    lemma_best_match_found(scores);
}

/// Ties go to the earlier item: of two items with the same score the later one
/// is never the best match, and the earlier one is whenever no other score is
/// higher and no score in front of it is as high.
pub proof fn lemma_best_match_prefers_earlier(scores: Seq<Option<u64>>, i: int, j: int)
    requires
        0 <= i < j < scores.len() <= usize::MAX,
        scores[i] == scores[j],
    ensures
        best_match(scores) != Some(j),
        FilteredListCursor::after_recompute(scores).matched != Some(j as usize),
        is_best_match(scores, i) ==> best_match(scores) == Some(i),
{
    lemma_best_match_found(scores);
    if best_match(scores) == Some(j) {
        assert(gain(scores[i]) < gain(scores[j]));
    }
    if is_best_match(scores, i) {
        lemma_best_match_is(scores, i);
    }
}

/// Wraparound at the end: a step down from the last match of the list lands on
/// its first match.
pub proof fn lemma_next_wraps_to_first(cursor: FilteredListCursor, mask: Seq<bool>)
    requires
        mask.len() <= usize::MAX,
        last_match_before(mask, mask.len() as int) == Some(cursor.result_index as int),
    ensures
        cursor.after_next(mask).matched is Some,
        position(cursor.after_next(mask).matched) == first_match_from(mask, 0),
        cursor.after_next(mask).result_index == first_match_from(mask, 0)->0,
{
    let current = cursor.result_index as int;
    lemma_last_match_before(mask, mask.len() as int);
    lemma_first_match_from(mask, current + 1);
    lemma_first_match_from(mask, 0);
}

/// Wraparound at the start: a step up from the first match of the list lands
/// on its last match.
pub proof fn lemma_previous_wraps_to_last(cursor: FilteredListCursor, mask: Seq<bool>)
    requires
        mask.len() <= usize::MAX,
        first_match_from(mask, 0) == Some(cursor.result_index as int),
    ensures
        cursor.after_previous(mask).matched is Some,
        position(cursor.after_previous(mask).matched) == last_match_before(
            mask,
            mask.len() as int,
        ),
        cursor.after_previous(mask).result_index == last_match_before(mask, mask.len() as int)->0,
{
    let current = cursor.result_index as int;
    lemma_first_match_from(mask, 0);
    lemma_last_match_before(mask, current);
    lemma_last_match_before(mask, mask.len() as int);
}

/// A step down from a match, then a step up, ends where it began, and the
/// step down itself ends on a match.
pub proof fn lemma_previous_undoes_next(cursor: FilteredListCursor, mask: Seq<bool>)
    requires
        mask.len() <= usize::MAX,
        is_match(mask, cursor.result_index as int),
    ensures
        is_match(mask, cursor.after_next(mask).result_index as int),
        cursor.after_next(mask).matched == Some(cursor.after_next(mask).result_index),
        cursor.after_next(mask).after_previous(mask).result_index == cursor.result_index,
        cursor.after_next(mask).after_previous(mask).matched == Some(cursor.result_index),
{
    let current = cursor.result_index as int;
    lemma_first_match_from(mask, current + 1);
    lemma_first_match_from(mask, 0);
    let landed = next_match(mask, current)->0;
    lemma_last_match_before(mask, landed);
    lemma_last_match_before(mask, mask.len() as int);
}

/// A step up from a match, then a step down, ends where it began, and the
/// step up itself ends on a match.
pub proof fn lemma_next_undoes_previous(cursor: FilteredListCursor, mask: Seq<bool>)
    requires
        mask.len() <= usize::MAX,
        is_match(mask, cursor.result_index as int),
    ensures
        is_match(mask, cursor.after_previous(mask).result_index as int),
        cursor.after_previous(mask).matched == Some(cursor.after_previous(mask).result_index),
        cursor.after_previous(mask).after_next(mask).result_index == cursor.result_index,
        cursor.after_previous(mask).after_next(mask).matched == Some(cursor.result_index),
{
    let current = cursor.result_index as int;
    lemma_last_match_before(mask, current);
    lemma_last_match_before(mask, mask.len() as int);
    let landed = previous_match(mask, current)->0;
    lemma_first_match_from(mask, landed + 1);
    lemma_first_match_from(mask, 0);
}

/// Steps down from a match stay on matches.
proof fn lemma_next_moves_stay_on_matches(cursor: FilteredListCursor, mask: Seq<bool>, n: nat)
    requires
        mask.len() <= usize::MAX,
        is_match(mask, cursor.result_index as int),
    ensures
        is_match(mask, cursor.after_next_moves(mask, n).result_index as int),
    decreases n,
{
    if n > 0 {
        lemma_next_moves_stay_on_matches(cursor, mask, (n - 1) as nat);
        lemma_previous_undoes_next(cursor.after_next_moves(mask, (n - 1) as nat), mask);
    }
}

/// Where steps up lead depends on the highlighted position alone, and the
/// first of `n + 1` steps up may as well be taken before the other `n`.
proof fn lemma_previous_moves_from(
    a: FilteredListCursor,
    b: FilteredListCursor,
    mask: Seq<bool>,
    n: nat,
)
    requires
        a.result_index == b.result_index,
    ensures
        a.after_previous_moves(mask, n).result_index == b.after_previous_moves(
            mask,
            n,
        ).result_index,
        a.after_previous_moves(mask, n + 1) == a.after_previous(mask).after_previous_moves(mask, n),
    decreases n,
{
    if n > 0 {
        lemma_previous_moves_from(a, b, mask, (n - 1) as nat);
    }
    assert(a.after_previous_moves(mask, 1) == a.after_previous_moves(mask, 0).after_previous(
        mask,
    ));
}

/// Round trip: from a position that the mask lets through, `n` steps down
/// followed by `n` steps up end on the position they began from.
pub proof fn lemma_next_then_previous_round_trip(
    cursor: FilteredListCursor,
    mask: Seq<bool>,
    n: nat,
)
    requires
        mask.len() <= usize::MAX,
        is_match(mask, cursor.result_index as int),
    ensures
        cursor.after_next_moves(mask, n).after_previous_moves(mask, n).result_index
            == cursor.result_index,
    decreases n,
{
    if n > 0 {
        let m = (n - 1) as nat;
        let before = cursor.after_next_moves(mask, m);
        let down = before.after_next(mask);
        assert(cursor.after_next_moves(mask, n) == down);
        lemma_next_moves_stay_on_matches(cursor, mask, m);
        lemma_previous_undoes_next(before, mask);
        lemma_previous_moves_from(down, down, mask, m);
        lemma_previous_moves_from(down.after_previous(mask), before, mask, m);
        lemma_next_then_previous_round_trip(cursor, mask, m);
    }
}

/// The list of matches among the first `n` positions holds exactly the
/// matches in front of `n`, each once, in rising order.
pub proof fn lemma_match_positions(mask: Seq<bool>, n: int)
    requires
        0 <= n <= mask.len(),
    ensures
        forall|k: int|
            0 <= k < match_positions_upto(mask, n).len() ==> is_match(
                mask,
                #[trigger] match_positions_upto(mask, n)[k],
            ) && match_positions_upto(mask, n)[k] < n,
        forall|k: int, l: int|
            0 <= k < l < match_positions_upto(mask, n).len() ==> #[trigger] match_positions_upto(
                mask,
                n,
            )[k] < #[trigger] match_positions_upto(mask, n)[l],
        forall|p: int|
            0 <= p < n && #[trigger] mask[p] ==> match_positions_upto(mask, n).contains(p),
    decreases n,
{
    if n > 0 {
        lemma_match_positions(mask, n - 1);
        let front = match_positions_upto(mask, n - 1);
        let all = match_positions_upto(mask, n);
        assert forall|p: int| 0 <= p < n && #[trigger] mask[p] implies all.contains(p) by {
            if p < n - 1 {
                assert(front.contains(p));
                let k = choose|k: int| 0 <= k < front.len() && front[k] == p;
                assert(all[k] == p);
            } else {
                assert(all[all.len() - 1] == p);
            }
        }
    }
}

/// Steps follow the list of matches as it is shown: a step down from the
/// match on line `k` lands on the match one line below, and from the last
/// line on the first; a step up lands one line above, and from the first line
/// on the last.
pub proof fn lemma_steps_follow_the_list(cursor: FilteredListCursor, mask: Seq<bool>, k: int)
    requires
        mask.len() <= usize::MAX,
        0 <= k < match_positions(mask).len(),
        cursor.result_index == match_positions(mask)[k],
    ensures
        cursor.after_next(mask).result_index == match_positions(mask)[if k + 1 < match_positions(
            mask,
        ).len() {
            k + 1
        } else {
            0
        }],
        cursor.after_previous(mask).result_index == match_positions(mask)[if k > 0 {
            k - 1
        } else {
            match_positions(mask).len() - 1
        }],
{
    let all = match_positions(mask);
    let here = all[k];
    lemma_match_positions(mask, mask.len() as int);
    assert(is_match(mask, here));
    lemma_first_match_from(mask, here + 1);
    lemma_first_match_from(mask, 0);
    lemma_last_match_before(mask, here);
    lemma_last_match_before(mask, mask.len() as int);
    match next_match(mask, here) {
        Some(landed) => {
            assert(all.contains(landed));
            let l = choose|l: int| 0 <= l < all.len() && all[l] == landed;
            if k + 1 < all.len() {
                assert(is_match(mask, all[k + 1]));
                assert(here < all[k + 1]);
                if l <= k {
                    assert(l == k || all[l] < all[k]);
                }
                if l > k + 1 {
                    assert(all[k + 1] < all[l]);
                }
            } else {
                assert(is_match(mask, all[0]));
                assert(l <= k);
                if l > 0 {
                    assert(all[0] < all[l]);
                }
            }
        },
        None => {},
    }
    match previous_match(mask, here) {
        Some(landed) => {
            assert(all.contains(landed));
            let l = choose|l: int| 0 <= l < all.len() && all[l] == landed;
            if k > 0 {
                assert(is_match(mask, all[k - 1]));
                assert(all[k - 1] < here);
                if l >= k {
                    assert(l == k || all[k] < all[l]);
                }
                if l < k - 1 {
                    assert(all[l] < all[k - 1]);
                }
            } else {
                let last = all.len() - 1;
                assert(is_match(mask, all[last]));
                if l < last {
                    assert(all[l] < all[last]);
                }
            }
        },
        None => {},
    }
}

} // verus!
