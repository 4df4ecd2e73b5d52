use pathfinder::ranker::{count_score, score, MAX_RANKED_CHARS};

#[test]
fn empty_query_scores_zero_for_every_label() {
    assert_eq!(score("build", ""), Some(0));
    assert_eq!(score("", ""), Some(0));
    assert_eq!(score("Ünï cødé", ""), Some(0));
}

#[test]
fn query_matches_as_a_subsequence() {
    assert!(score("test", "te").is_some());
    assert!(score("test", "tt").is_some());
    assert!(score("deploy", "dpy").is_some());
    assert_eq!(score("build", "te"), None);
    assert_eq!(score("deploy", "te"), None);
    assert_eq!(score("test", "se"), None);
    assert_eq!(score("", "a"), None);
}

#[test]
fn score_is_not_the_text_handed_in() {
    let hit = score("test", "te");
    assert!(hit.unwrap() > 0);
    assert_ne!(hit, score("test", "zz"));
}

#[test]
fn closer_matches_score_higher() {
    let tight = score("test", "te").unwrap();
    let loose = score("t-------e", "te").unwrap();
    assert!(tight > loose);
    let at_start = score("logs", "lo").unwrap();
    let inside = score("catalog", "lo").unwrap();
    assert!(at_start > inside);
}

#[test]
fn lower_case_query_ignores_case_and_upper_case_query_does_not() {
    assert!(score("TEST", "te").is_some());
    assert!(score("Test", "Te").is_some());
    assert_eq!(score("test", "Te"), None);
}

#[test]
fn same_texts_give_the_same_score() {
    assert_eq!(score("deploy", "dep"), score("deploy", "dep"));
    assert_eq!(score("shell", "sl"), score("shell", "sl"));
}

#[test]
fn matcher_scores_below_zero_count_as_zero() {
    assert_eq!(count_score(Some(-56)), Some(0));
    assert_eq!(count_score(Some(i64::MIN)), Some(0));
    assert_eq!(count_score(Some(0)), Some(0));
    assert_eq!(count_score(Some(1)), Some(1));
    assert_eq!(count_score(Some(41)), Some(41));
    assert_eq!(count_score(Some(i64::MAX)), Some(i64::MAX as u64));
    assert_eq!(count_score(None), None);
}

#[test]
fn a_match_over_a_long_gap_still_matches() {
    let mut label = String::from("a");
    for _ in 0..200 {
        label.push('x');
    }
    label.push('b');
    assert_eq!(score(&label, "ab"), Some(0));
}

#[test]
fn text_beyond_the_limit_matches_only_the_empty_query() {
    let at_limit = "a".repeat(MAX_RANKED_CHARS);
    let beyond = "a".repeat(MAX_RANKED_CHARS + 1);
    assert!(score(&at_limit, "a").is_some());
    assert_eq!(score(&beyond, "a"), None);
    assert_eq!(score(&beyond, ""), Some(0));
    assert_eq!(score("a", &beyond), None);
}
