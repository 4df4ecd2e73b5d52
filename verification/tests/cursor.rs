use pathfinder::cursor::FilteredListCursor;

fn at(result_index: usize) -> FilteredListCursor {
    FilteredListCursor { result_index, matched: None }
}

#[test]
fn new_cursor_selects_nothing() {
    let cursor = FilteredListCursor::new();
    assert_eq!(cursor.result_index, 0);
    assert_eq!(cursor.matched, None);
}

#[test]
fn best_match_is_the_highest_score() {
    let mut cursor = at(7);
    cursor.recompute_best_match(&[Some(5), None, Some(9), Some(2)]);
    assert_eq!(cursor.matched, Some(2));
    assert_eq!(cursor.result_index, 2);
}

#[test]
fn best_match_of_equal_scores_is_the_first() {
    let mut cursor = at(0);
    cursor.recompute_best_match(&[Some(3), Some(9), Some(9), Some(9)]);
    assert_eq!(cursor.matched, Some(1));
    assert_eq!(cursor.result_index, 1);
    cursor.recompute_best_match(&[Some(4), Some(4)]);
    assert_eq!(cursor.matched, Some(0));
    cursor.recompute_best_match(&[None, Some(1), Some(7), Some(1), Some(7)]);
    assert_eq!(cursor.matched, Some(2));
}

#[test]
fn best_match_does_not_depend_on_where_the_cursor_was() {
    let scores = [Some(6), Some(8), Some(8)];
    for start in 0..5 {
        let mut cursor = FilteredListCursor { result_index: start, matched: Some(start) };
        cursor.recompute_best_match(&scores);
        assert_eq!(cursor.matched, Some(1));
        assert_eq!(cursor.result_index, 1);
    }
}

#[test]
fn scores_of_zero_select_nothing() {
    let mut cursor = FilteredListCursor { result_index: 2, matched: Some(2) };
    cursor.recompute_best_match(&[Some(0), Some(0), Some(0)]);
    assert_eq!(cursor.matched, None);
    assert_eq!(cursor.result_index, 0);
}

#[test]
fn no_scores_select_nothing() {
    let mut cursor = FilteredListCursor { result_index: 1, matched: Some(1) };
    cursor.recompute_best_match(&[None, None]);
    assert_eq!(cursor.matched, None);
    assert_eq!(cursor.result_index, 0);
    let mut cursor = FilteredListCursor { result_index: 1, matched: Some(1) };
    cursor.recompute_best_match(&[]);
    assert_eq!(cursor.matched, None);
    assert_eq!(cursor.result_index, 0);
}

#[test]
fn largest_score_wins() {
    let mut cursor = at(0);
    cursor.recompute_best_match(&[Some(u64::MAX - 1), Some(u64::MAX), Some(u64::MAX)]);
    assert_eq!(cursor.matched, Some(1));
}

#[test]
fn seek_selects_a_match_at_the_target() {
    let mut cursor = at(0);
    cursor.seek(&[true, false, true], 2);
    assert_eq!(cursor.result_index, 2);
    assert_eq!(cursor.matched, Some(2));
}

#[test]
fn seek_to_a_filtered_out_item_keeps_the_selection() {
    let mut cursor = FilteredListCursor { result_index: 0, matched: Some(0) };
    cursor.seek(&[true, false, true], 1);
    assert_eq!(cursor.result_index, 1);
    assert_eq!(cursor.matched, Some(0));
    let mut cursor = at(0);
    cursor.seek(&[true, false, true], 1);
    assert_eq!(cursor.result_index, 1);
    assert_eq!(cursor.matched, None);
}

#[test]
fn seek_beyond_the_list_selects_nothing() {
    let mut cursor = at(0);
    cursor.seek(&[true, true], 2);
    assert_eq!(cursor.result_index, 2);
    assert_eq!(cursor.matched, None);
    cursor.seek(&[true, true], usize::MAX);
    assert_eq!(cursor.result_index, usize::MAX);
    assert_eq!(cursor.matched, None);
    cursor.seek(&[], 0);
    assert_eq!(cursor.result_index, 0);
    assert_eq!(cursor.matched, None);
}

#[test]
fn next_skips_what_the_filter_holds_back() {
    let mask = [true, false, false, true, true];
    let mut cursor = at(0);
    cursor.move_to_next_match(&mask);
    assert_eq!((cursor.result_index, cursor.matched), (3, Some(3)));
    cursor.move_to_next_match(&mask);
    assert_eq!((cursor.result_index, cursor.matched), (4, Some(4)));
}

#[test]
fn next_wraps_from_the_last_match_to_the_first() {
    let mask = [false, true, false, true, false];
    let mut cursor = at(3);
    cursor.move_to_next_match(&mask);
    assert_eq!((cursor.result_index, cursor.matched), (1, Some(1)));
}

#[test]
fn previous_wraps_from_the_first_match_to_the_last() {
    let mask = [false, true, false, true, false];
    let mut cursor = at(1);
    cursor.move_to_previous_match(&mask);
    assert_eq!((cursor.result_index, cursor.matched), (3, Some(3)));
}

#[test]
fn previous_steps_to_the_match_before() {
    let mask = [true, false, true, true];
    let mut cursor = at(3);
    cursor.move_to_previous_match(&mask);
    assert_eq!((cursor.result_index, cursor.matched), (2, Some(2)));
    cursor.move_to_previous_match(&mask);
    assert_eq!((cursor.result_index, cursor.matched), (0, Some(0)));
}

#[test]
fn next_from_a_position_that_is_no_match_goes_to_the_first_match() {
    let mask = [false, true, false, true];
    for start in [0, 2, 4, 100] {
        let mut cursor = at(start);
        cursor.move_to_next_match(&mask);
        assert_eq!((cursor.result_index, cursor.matched), (1, Some(1)));
    }
}

#[test]
fn previous_from_a_position_that_is_no_match_goes_to_the_last_match() {
    let mask = [false, true, false, true, false];
    for start in [0, 2, 4, 100] {
        let mut cursor = at(start);
        cursor.move_to_previous_match(&mask);
        assert_eq!((cursor.result_index, cursor.matched), (3, Some(3)));
    }
}

#[test]
fn single_match_is_its_own_neighbour() {
    let mask = [false, false, true];
    let mut cursor = at(2);
    cursor.move_to_next_match(&mask);
    assert_eq!((cursor.result_index, cursor.matched), (2, Some(2)));
    cursor.move_to_previous_match(&mask);
    assert_eq!((cursor.result_index, cursor.matched), (2, Some(2)));
}

#[test]
fn moving_with_no_match_clears_the_selection_and_keeps_the_position() {
    let mut cursor = FilteredListCursor { result_index: 1, matched: Some(1) };
    cursor.move_to_next_match(&[false, false, false]);
    assert_eq!((cursor.result_index, cursor.matched), (1, None));
    let mut cursor = FilteredListCursor { result_index: 1, matched: Some(1) };
    cursor.move_to_previous_match(&[false, false, false]);
    assert_eq!((cursor.result_index, cursor.matched), (1, None));
    let mut cursor = FilteredListCursor { result_index: 5, matched: Some(5) };
    cursor.move_to_next_match(&[]);
    assert_eq!((cursor.result_index, cursor.matched), (5, None));
    cursor.move_to_previous_match(&[]);
    assert_eq!((cursor.result_index, cursor.matched), (5, None));
}

#[test]
fn steps_down_then_as_many_steps_up_return_to_the_start() {
    let mask = [true, false, true, true, false, true];
    for start in [0usize, 2, 3, 5] {
        for steps in 0..14 {
            let mut cursor = at(start);
            for _ in 0..steps {
                cursor.move_to_next_match(&mask);
            }
            for _ in 0..steps {
                cursor.move_to_previous_match(&mask);
            }
            assert_eq!(cursor.result_index, start);
        }
    }
}

#[test]
fn steps_up_then_as_many_steps_down_return_to_the_start() {
    let mask = [false, true, true, false, true];
    for start in [1usize, 2, 4] {
        for steps in 0..9 {
            let mut cursor = at(start);
            for _ in 0..steps {
                cursor.move_to_previous_match(&mask);
            }
            for _ in 0..steps {
                cursor.move_to_next_match(&mask);
            }
            assert_eq!(cursor.result_index, start);
        }
    }
}

#[test]
fn round_trip_needs_a_start_on_a_match() {
    let mask = [false, true, true];
    let mut cursor = at(0);
    cursor.move_to_next_match(&mask);
    assert_eq!(cursor.result_index, 1);
    cursor.move_to_previous_match(&mask);
    assert_eq!(cursor.result_index, 2);
}

#[test]
fn a_full_round_of_steps_visits_every_match_once() {
    let mask = [true, true, false, true, false, false, true];
    let mut cursor = at(0);
    let mut seen = vec![];
    for _ in 0..4 {
        cursor.move_to_next_match(&mask);
        seen.push(cursor.result_index);
    }
    assert_eq!(seen, vec![1, 3, 6, 0]);
    let mut seen = vec![];
    for _ in 0..4 {
        cursor.move_to_previous_match(&mask);
        seen.push(cursor.result_index);
    }
    assert_eq!(seen, vec![6, 3, 1, 0]);
}

fn masks_up_to(len: usize) -> Vec<Vec<bool>> {
    let mut all = vec![vec![]];
    let mut last: Vec<Vec<bool>> = vec![vec![]];
    for _ in 0..len {
        let mut next = vec![];
        for mask in &last {
            for bit in [false, true] {
                let mut longer = mask.clone();
                longer.push(bit);
                next.push(longer);
            }
        }
        all.extend(next.iter().cloned());
        last = next;
    }
    all
}

fn scan_down(mask: &[bool], result_index: usize) -> (usize, Option<usize>) {
    let mut first = None;
    let mut seen = false;
    let mut found = None;
    for (i, &open) in mask.iter().enumerate() {
        if open {
            if first.is_none() {
                first = Some(i);
            }
            if i == result_index {
                seen = true;
                continue;
            }
            if seen {
                found = Some(i);
                break;
            }
        }
    }
    match found.or(first) {
        Some(i) => (i, Some(i)),
        None => (result_index, None),
    }
}

fn scan_up(mask: &[bool], result_index: usize) -> (usize, Option<usize>) {
    let mut previous = None;
    for (i, &open) in mask.iter().enumerate() {
        if open {
            if i == result_index && previous.is_some() {
                break;
            }
            previous = Some(i);
        }
    }
    match previous {
        Some(i) => (i, Some(i)),
        None => (result_index, None),
    }
}

#[test]
fn steps_agree_with_a_single_scan_on_every_small_list() {
    for mask in masks_up_to(7) {
        for start in 0..mask.len() + 2 {
            let mut cursor = FilteredListCursor { result_index: start, matched: Some(start) };
            cursor.move_to_next_match(&mask);
            assert_eq!((cursor.result_index, cursor.matched), scan_down(&mask, start));
            let mut cursor = FilteredListCursor { result_index: start, matched: Some(start) };
            cursor.move_to_previous_match(&mask);
            assert_eq!((cursor.result_index, cursor.matched), scan_up(&mask, start));
        }
    }
}

#[test]
fn round_trip_holds_from_every_match_of_every_small_list() {
    for mask in masks_up_to(6) {
        for start in 0..mask.len() {
            if !mask[start] {
                continue;
            }
            for steps in 0..2 * mask.len() + 1 {
                let mut cursor = at(start);
                for _ in 0..steps {
                    cursor.move_to_next_match(&mask);
                }
                for _ in 0..steps {
                    cursor.move_to_previous_match(&mask);
                }
                assert_eq!(cursor.result_index, start);
            }
        }
    }
}

#[test]
fn ends_wrap_on_every_small_list() {
    for mask in masks_up_to(7) {
        let first = mask.iter().position(|&open| open);
        let last = mask.iter().rposition(|&open| open);
        if let (Some(first), Some(last)) = (first, last) {
            let mut cursor = at(last);
            cursor.move_to_next_match(&mask);
            assert_eq!((cursor.result_index, cursor.matched), (first, Some(first)));
            let mut cursor = at(first);
            cursor.move_to_previous_match(&mask);
            assert_eq!((cursor.result_index, cursor.matched), (last, Some(last)));
        }
    }
}

#[test]
fn best_match_agrees_with_a_single_scan_on_every_small_list() {
    let values = [None, Some(0), Some(1), Some(2)];
    let mut lists: Vec<Vec<Option<u64>>> = vec![vec![]];
    let mut last: Vec<Vec<Option<u64>>> = vec![vec![]];
    for _ in 0..5 {
        let mut next = vec![];
        for list in &last {
            for value in values {
                let mut longer = list.clone();
                longer.push(value);
                next.push(longer);
            }
        }
        lists.extend(next.iter().cloned());
        last = next;
    }
    for scores in lists {
        let mut best = None;
        let mut best_score = 0;
        for (i, score) in scores.iter().enumerate() {
            if let Some(score) = *score {
                if score > best_score {
                    best_score = score;
                    best = Some(i);
                }
            }
        }
        let mut cursor = FilteredListCursor { result_index: 3, matched: Some(3) };
        cursor.recompute_best_match(&scores);
        assert_eq!(cursor.matched, best);
        assert_eq!(cursor.result_index, best.unwrap_or(0));
    }
}

#[test]
fn first_match_is_found_behind_what_the_filter_holds_back() {
    let mut cursor = FilteredListCursor { result_index: 4, matched: Some(4) };
    cursor.move_to_first_match(&[false, false, true, true]);
    assert_eq!((cursor.result_index, cursor.matched), (2, Some(2)));
    cursor.move_to_first_match(&[true, false]);
    assert_eq!((cursor.result_index, cursor.matched), (0, Some(0)));
}

#[test]
fn first_match_of_nothing_is_nothing_at_the_top() {
    let mut cursor = FilteredListCursor { result_index: 4, matched: Some(4) };
    cursor.move_to_first_match(&[false, false]);
    assert_eq!((cursor.result_index, cursor.matched), (0, None));
    let mut cursor = FilteredListCursor { result_index: 4, matched: Some(4) };
    cursor.move_to_first_match(&[]);
    assert_eq!((cursor.result_index, cursor.matched), (0, None));
}

#[test]
fn first_match_is_the_first_open_position_of_every_small_list() {
    for mask in masks_up_to(7) {
        let mut cursor = FilteredListCursor { result_index: 9, matched: Some(9) };
        cursor.move_to_first_match(&mask);
        let first = mask.iter().position(|&open| open);
        assert_eq!((cursor.result_index, cursor.matched), (first.unwrap_or(0), first));
    }
}
