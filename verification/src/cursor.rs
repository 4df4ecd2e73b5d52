//! The cursor over a filtered list.
//!
//! A list is seen here as the query leaves it: a mask that says for each
//! position whether the item there is still in the running, or the score of
//! each item. The cursor remembers which position is highlighted and which
//! item, if any, is selected, and moves through the positions that the mask
//! lets through, wrapping at both ends.

use vstd::prelude::*;

verus! {

/// The first position at or after `start` that the mask lets through.
pub open spec fn first_match_from(mask: Seq<bool>, start: int) -> Option<int>
    decreases mask.len() - start,
{
    if start < 0 || start >= mask.len() {
        None
    } else if mask[start] {
        Some(start)
    } else {
        first_match_from(mask, start + 1)
    }
}

/// The last position in front of `end` that the mask lets through.
pub open spec fn last_match_before(mask: Seq<bool>, end: int) -> Option<int>
    decreases end,
{
    if end <= 0 || end > mask.len() {
        None
    } else if mask[end - 1] {
        Some(end - 1)
    } else {
        last_match_before(mask, end - 1)
    }
}

/// Whether the mask lets the position `index` through.
pub open spec fn is_match(mask: Seq<bool>, index: int) -> bool {
    0 <= index < mask.len() && mask[index]
}

/// Where a step down from `current` lands: on the next match behind a current
/// one, else on the first match of the list.
pub open spec fn next_match(mask: Seq<bool>, current: int) -> Option<int> {
    if is_match(mask, current) && first_match_from(mask, current + 1) is Some {
        first_match_from(mask, current + 1)
    } else {
        first_match_from(mask, 0)
    }
}

/// Where a step up from `current` lands: on the match in front of a current
/// one, else on the last match of the list.
pub open spec fn previous_match(mask: Seq<bool>, current: int) -> Option<int> {
    if is_match(mask, current) && last_match_before(mask, current) is Some {
        last_match_before(mask, current)
    } else {
        last_match_before(mask, mask.len() as int)
    }
}

/// What a score counts for in the contest for the best match: no score
/// counts like the score 0, for nothing.
pub open spec fn gain(score: Option<u64>) -> int {
    match score {
        Some(s) => s as int,
        None => 0,
    }
}

/// Position `i` holds the best match: its score is above zero, no score is
/// higher, and every earlier score is lower.
pub open spec fn is_best_match(scores: Seq<Option<u64>>, i: int) -> bool {
    &&& 0 <= i < scores.len()
    &&& gain(scores[i]) > 0
    &&& forall|j: int| 0 <= j < i ==> gain(#[trigger] scores[j]) < gain(scores[i])
    &&& forall|j: int| i < j < scores.len() ==> gain(#[trigger] scores[j]) <= gain(scores[i])
}

/// The position of the best match, if any score is above zero.
pub open spec fn best_match(scores: Seq<Option<u64>>) -> Option<int> {
    if exists|i: int| is_best_match(scores, i) {
        Some(choose|i: int| is_best_match(scores, i))
    } else {
        None
    }
}

/// A position of a list as a mathematical integer.
pub open spec fn position(index: Option<usize>) -> Option<int> {
    match index {
        Some(i) => Some(i as int),
        None => None,
    }
}

/// What `first_match_from` finds is a match, and nothing between `start` and
/// it is; where it finds nothing, nothing from `start` on is a match.
pub proof fn lemma_first_match_from(mask: Seq<bool>, start: int)
    requires
        0 <= start,
    ensures
        match first_match_from(mask, start) {
            Some(k) => start <= k < mask.len() && mask[k] && forall|j: int|
                start <= j < k ==> !mask[j],
            None => forall|j: int| start <= j < mask.len() ==> !mask[j],
        },
    decreases mask.len() - start,
{
    if start < mask.len() && !mask[start] {
        lemma_first_match_from(mask, start + 1);
    }
}

/// What `last_match_before` finds is a match, and nothing between it and `end`
/// is; where it finds nothing, nothing in front of `end` is a match.
pub proof fn lemma_last_match_before(mask: Seq<bool>, end: int)
    requires
        0 <= end <= mask.len(),
    ensures
        match last_match_before(mask, end) {
            Some(k) => 0 <= k < end && mask[k] && forall|j: int| k < j < end ==> !mask[j],
            None => forall|j: int| 0 <= j < end ==> !mask[j],
        },
    decreases end,
{
    if end > 0 && !mask[end - 1] {
        lemma_last_match_before(mask, end - 1);
    }
}

/// A step down lands on a match, if it lands at all.
pub proof fn lemma_next_match_is_match(mask: Seq<bool>, current: int)
    ensures
        next_match(mask, current) matches Some(k) ==> is_match(mask, k),
        next_match(mask, current) is None <==> forall|j: int| 0 <= j < mask.len() ==> !mask[j],
{
    lemma_first_match_from(mask, 0);
    if is_match(mask, current) {
        lemma_first_match_from(mask, current + 1);
    }
}

/// A step up lands on a match, if it lands at all.
pub proof fn lemma_previous_match_is_match(mask: Seq<bool>, current: int)
    ensures
        previous_match(mask, current) matches Some(k) ==> is_match(mask, k),
        previous_match(mask, current) is None <==> forall|j: int|
            0 <= j < mask.len() ==> !mask[j],
{
    lemma_last_match_before(mask, mask.len() as int);
    if is_match(mask, current) {
        lemma_last_match_before(mask, current);
    }
}

/// At most one position holds the best match.
pub proof fn lemma_best_match_unique(scores: Seq<Option<u64>>, i: int, k: int)
    requires
        is_best_match(scores, i),
        is_best_match(scores, k),
    ensures
        i == k,
{
    if i < k {
        assert(gain(scores[i]) < gain(scores[k]));
        assert(gain(scores[k]) <= gain(scores[i]));
    } else if k < i {
        assert(gain(scores[k]) < gain(scores[i]));
        assert(gain(scores[i]) <= gain(scores[k]));
    }
}

/// The position that holds the best match is what `best_match` names.
pub proof fn lemma_best_match_is(scores: Seq<Option<u64>>, i: int)
    requires
        is_best_match(scores, i),
    ensures
        best_match(scores) == Some(i),
{
    let chosen = choose|k: int| is_best_match(scores, k);
    lemma_best_match_unique(scores, i, chosen);
}

/// What `best_match` names holds the best match.
pub proof fn lemma_best_match_found(scores: Seq<Option<u64>>)
    ensures
        best_match(scores) matches Some(i) ==> is_best_match(scores, i),
        best_match(scores) is None <==> forall|j: int|
            0 <= j < scores.len() ==> gain(#[trigger] scores[j]) == 0,
{
    if best_match(scores) is None {
        assert forall|j: int| 0 <= j < scores.len() implies gain(#[trigger] scores[j]) == 0 by {
            if gain(scores[j]) != 0 {
                lemma_some_best_match(scores, scores.len() as int, j);
            }
        }
    }
}

/// Where one of the first `n` scores is above zero, one of the first `n`
/// positions holds the best match among them.
proof fn lemma_some_best_match(scores: Seq<Option<u64>>, n: int, j: int)
    requires
        0 <= j < n <= scores.len(),
        gain(scores[j]) > 0,
    ensures
        exists|i: int| is_best_match(scores.take(n), i),
        n == scores.len() ==> exists|i: int| is_best_match(scores, i),
    decreases n,
{
    let head = scores.take(n);
    let last = n - 1;
    if exists|k: int| 0 <= k < last && gain(scores[k]) > 0 {
        let k = choose|k: int| 0 <= k < last && gain(scores[k]) > 0;
        lemma_some_best_match(scores, last, k);
        let shorter = scores.take(last);
        let b = choose|i: int| is_best_match(shorter, i);
        assert forall|m: int| 0 <= m < last implies shorter[m] == head[m] by {}
        if gain(head[last]) > gain(head[b]) {
            assert forall|m: int| 0 <= m < last implies gain(#[trigger] head[m]) < gain(
                head[last],
            ) by {
                assert(gain(shorter[m]) <= gain(shorter[b]));
            }
            assert(is_best_match(head, last));
        } else {
            assert forall|m: int| 0 <= m < b implies gain(#[trigger] head[m]) < gain(head[b]) by {
                assert(gain(shorter[m]) < gain(shorter[b]));
            }
            assert forall|m: int| b < m < n implies gain(#[trigger] head[m]) <= gain(head[b]) by {
                if m < last {
                    assert(gain(shorter[m]) <= gain(shorter[b]));
                }
            }
            assert(is_best_match(head, b));
        }
    } else {
        assert(j == last);
        assert forall|m: int| 0 <= m < last implies gain(#[trigger] head[m]) < gain(head[last]) by {
            assert(!(0 <= m < last && gain(scores[m]) > 0));
        }
        assert(is_best_match(head, last));
    }
    if n == scores.len() {
        assert(head =~= scores);
    }
}

/// The first match at or after `start`.
fn find_first_from(mask: &[bool], start: usize) -> (found: Option<usize>)
    ensures
        position(found) == first_match_from(mask@, start as int),
{
    let mut i: usize = start;
    while i < mask.len()
        invariant
            start <= i,
            first_match_from(mask@, start as int) == first_match_from(mask@, i as int),
        decreases mask.len() - i,
    {
        if mask[i] {
            return Some(i);
        }
        i = i + 1;
    }
    None
}

/// The last match in front of `end`.
fn find_last_before(mask: &[bool], end: usize) -> (found: Option<usize>)
    ensures
        position(found) == last_match_before(mask@, end as int),
{
    if end > mask.len() {
        return None;
    }
    let mut i: usize = end;
    while i > 0
        invariant
            i <= end <= mask.len(),
            last_match_before(mask@, end as int) == last_match_before(mask@, i as int),
        decreases i,
    {
        if mask[i - 1] {
            return Some(i - 1);
        }
        i = i - 1;
    }
    None
}

/// The position of the best match among the scores.
fn find_best(scores: &[Option<u64>]) -> (best: Option<usize>)
    ensures
        position(best) == best_match(scores@),
{
    let mut best: Option<usize> = None;
    let mut best_score: u64 = 0;
    let mut i: usize = 0;
    while i < scores.len()
        invariant
            i <= scores.len(),
            match best {
                Some(b) => {
                    &&& b < i
                    &&& best_score > 0
                    &&& gain(scores@[b as int]) == best_score
                    &&& forall|j: int| 0 <= j < b ==> gain(#[trigger] scores@[j]) < best_score
                    &&& forall|j: int| b < j < i ==> gain(#[trigger] scores@[j]) <= best_score
                },
                None => {
                    &&& best_score == 0
                    &&& forall|j: int| 0 <= j < i ==> gain(#[trigger] scores@[j]) == 0
                },
            },
        decreases scores.len() - i,
    {
        if let Some(s) = scores[i] {
            if s > best_score {
                best_score = s;
                best = Some(i);
            }
        }
        i = i + 1;
    }
    proof {
        match best {
            Some(b) => {
                lemma_best_match_is(scores@, b as int);
            },
            None => {
                assert forall|k: int| !is_best_match(scores@, k) by {
                    if 0 <= k < scores@.len() {
                        assert(gain(scores@[k]) == 0);
                    }
                }
            },
        }
    }
    best
}

/// The highlighted position of a list and the position of its selected item.
pub struct FilteredListCursor {
    /// The position that navigation starts from.
    pub result_index: usize,
    /// The position of the selected item; `None` where nothing is selected.
    pub matched: Option<usize>,
}

impl FilteredListCursor {
    /// The cursor that rests on `found`; where nothing was found, nothing is
    /// selected and the highlighted position is `fallback`.
    pub open spec fn resting_on(found: Option<int>, fallback: usize) -> FilteredListCursor {
        match found {
            Some(i) => FilteredListCursor { result_index: i as usize, matched: Some(i as usize) },
            None => FilteredListCursor { result_index: fallback, matched: None },
        }
    }

    /// The cursor after the best match has been looked up afresh: it rests on
    /// the best match, or on nothing at position 0.
    pub open spec fn after_recompute(scores: Seq<Option<u64>>) -> FilteredListCursor {
        Self::resting_on(best_match(scores), 0)
    }

    /// The cursor after a jump to the first match: it rests on the first
    /// position that the mask lets through, or on nothing at position 0.
    pub open spec fn after_first(mask: Seq<bool>) -> FilteredListCursor {
        Self::resting_on(first_match_from(mask, 0), 0)
    }

    /// The cursor after a jump to `target`: the position is taken over; the
    /// item there is selected if the mask lets it through, else the selection
    /// stays as it was.
    pub open spec fn after_seek(self, mask: Seq<bool>, target: usize) -> FilteredListCursor {
        FilteredListCursor {
            result_index: target,
            matched: if is_match(mask, target as int) {
                Some(target)
            } else {
                self.matched
            },
        }
    }

    /// The cursor after a step down. With no match in the list nothing is
    /// selected and the position stays.
    pub open spec fn after_next(self, mask: Seq<bool>) -> FilteredListCursor {
        Self::resting_on(next_match(mask, self.result_index as int), self.result_index)
    }

    /// The cursor after a step up. With no match in the list nothing is
    /// selected and the position stays.
    pub open spec fn after_previous(self, mask: Seq<bool>) -> FilteredListCursor {
        Self::resting_on(previous_match(mask, self.result_index as int), self.result_index)
    }

    /// The cursor after `n` steps down.
    pub open spec fn after_next_moves(self, mask: Seq<bool>, n: nat) -> FilteredListCursor
        decreases n,
    {
        if n == 0 {
            self
        } else {
            self.after_next_moves(mask, (n - 1) as nat).after_next(mask)
        }
    }

    /// The cursor after `n` steps up.
    pub open spec fn after_previous_moves(self, mask: Seq<bool>, n: nat) -> FilteredListCursor
        decreases n,
    {
        if n == 0 {
            self
        } else {
            self.after_previous_moves(mask, (n - 1) as nat).after_previous(mask)
        }
    }

    /// A cursor at position 0 with nothing selected.
    pub fn new() -> (cursor: Self)
        ensures
            cursor.result_index == 0,
            cursor.matched is None,
    {
        FilteredListCursor { result_index: 0, matched: None }
    }

    /// Selects the best match: the first of the items with the highest score
    /// above zero. Where no score is above zero nothing is selected and the
    /// position is 0.
    pub fn recompute_best_match(&mut self, scores: &[Option<u64>])
        ensures
            *final(self) == Self::after_recompute(scores@),
            final(self).matched matches Some(i) ==> final(self).result_index == i && is_best_match(
                scores@,
                i as int,
            ),
            final(self).matched is None <==> forall|j: int|
                0 <= j < scores@.len() ==> gain(#[trigger] scores@[j]) == 0,
    {
        let best = find_best(scores);
        proof {
            lemma_best_match_found(scores@);
        }
        match best {
            Some(i) => {
                self.result_index = i;
                self.matched = Some(i);
            },
            None => {
                self.result_index = 0;
                self.matched = None;
            },
        }
    }

    /// Jumps to `target`: the position is taken over, and the item there is
    /// selected if the mask lets it through. Where it does not, or where the
    /// target lies outside the list, the selection stays as it was.
    pub fn seek(&mut self, mask: &[bool], target: usize)
        ensures
            *final(self) == old(self).after_seek(mask@, target),
            final(self).result_index == target,
            is_match(mask@, target as int) ==> final(self).matched == Some(target),
            !is_match(mask@, target as int) ==> final(self).matched == old(self).matched,
    {
        self.result_index = target;
        if target < mask.len() && mask[target] {
            self.matched = Some(target);
        }
    }

    /// Jumps to the first match of the list. Where the list has no match
    /// nothing is selected and the position is 0.
    pub fn move_to_first_match(&mut self, mask: &[bool])
        ensures
            *final(self) == Self::after_first(mask@),
            final(self).matched matches Some(i) ==> final(self).result_index == i && is_match(
                mask@,
                i as int,
            ),
            final(self).matched is None <==> forall|j: int| 0 <= j < mask@.len() ==> !mask@[j],
    {
        proof {
            lemma_first_match_from(mask@, 0);
        }
        let found = find_first_from(mask, 0);
        self.result_index = 0;
        self.rest_on(found);
    }

    /// Steps down to the next match, from the last one round to the first.
    pub fn move_to_next_match(&mut self, mask: &[bool])
        ensures
            *final(self) == old(self).after_next(mask@),
            final(self).matched matches Some(i) ==> final(self).result_index == i && is_match(
                mask@,
                i as int,
            ),
            final(self).matched is None <==> forall|j: int| 0 <= j < mask@.len() ==> !mask@[j],
    {
        proof {
            lemma_next_match_is_match(mask@, self.result_index as int);
        }
        let current: usize = self.result_index;
        let mut found: Option<usize> = None;
        if current < mask.len() && mask[current] {
            found = find_first_from(mask, current + 1);
        }
        if found.is_none() {
            found = find_first_from(mask, 0);
        }
        self.rest_on(found);
    }

    /// Steps up to the match before, from the first one round to the last.
    pub fn move_to_previous_match(&mut self, mask: &[bool])
        ensures
            *final(self) == old(self).after_previous(mask@),
            final(self).matched matches Some(i) ==> final(self).result_index == i && is_match(
                mask@,
                i as int,
            ),
            final(self).matched is None <==> forall|j: int| 0 <= j < mask@.len() ==> !mask@[j],
    {
        proof {
            lemma_previous_match_is_match(mask@, self.result_index as int);
        }
        let current: usize = self.result_index;
        let mut found: Option<usize> = None;
        if current < mask.len() && mask[current] {
            found = find_last_before(mask, current);
        }
        if found.is_none() {
            found = find_last_before(mask, mask.len());
        }
        self.rest_on(found);
    }

    /// Rests on `found`; where nothing was found, clears the selection and
    /// keeps the position.
    fn rest_on(&mut self, found: Option<usize>)
        ensures
            *final(self) == Self::resting_on(position(found), old(self).result_index),
    {
        match found {
            Some(i) => {
                self.result_index = i;
                self.matched = Some(i);
            },
            None => {
                self.matched = None;
            },
        }
    }
}

} // verus!
