//! Scoring of a label against the query.
//!
//! The scores come from the skim algorithm of the `fuzzy_matcher` crate. This
//! module fixes what the engine adds to it: an empty query matches every
//! label, and text too long to be ranked matches nothing.

use fuzzy_matcher::skim::SkimMatcherV2;
use fuzzy_matcher::FuzzyMatcher;
use vstd::prelude::*;
use vstd::string::StrSliceExecFns;

verus! {

/// Longest label and longest query, in characters, that are handed to the
/// matcher.
pub const MAX_RANKED_CHARS: usize = 65_536;

/// The score that `SkimMatcherV2::fuzzy_match` gives, on a matcher in its
/// default configuration, to `haystack` for `query`; `None` where the query
/// does not match.
pub uninterp spec fn skim_score(haystack: Seq<char>, query: Seq<char>) -> Option<i64>;

/// Calls `fuzzy_matcher::skim::SkimMatcherV2::fuzzy_match` on a freshly built
/// default matcher.
///
/// Trusted: the result depends on the two texts alone. The matcher is made for
/// this one call, so nothing of an earlier call is left in its buffers, and
/// its configuration is the crate's default. The matcher keeps its scores in
/// 32-bit integers and adds at most 32 for each character of the query; the
/// length limits keep every sum far inside that range.
#[verifier::external_body]
fn skim_fuzzy_match(haystack: &str, query: &str) -> (score: Option<i64>)
    requires
        haystack@.len() <= MAX_RANKED_CHARS,
        query@.len() <= MAX_RANKED_CHARS,
    ensures
        score == skim_score(haystack@, query@),
{
    SkimMatcherV2::default().fuzzy_match(haystack, query)
}

/// A score of the matcher as the engine counts it: a score below zero, which
/// the matcher gives to a match with long gaps, counts as 0.
pub open spec fn counted(raw: Option<i64>) -> Option<u64> {
    match raw {
        Some(s) => Some(
            if s > 0 {
                s as u64
            } else {
                0
            },
        ),
        None => None,
    }
}

/// The score of a label for a query.
///
/// The empty query gives every label the score 0. Otherwise the matcher
/// decides, unless the label or the query is longer than
/// [`MAX_RANKED_CHARS`]: such a pair does not match.
pub open spec fn label_score(label: Seq<char>, query: Seq<char>) -> Option<u64> {
    if query.len() == 0 {
        Some(0)
    } else if label.len() > MAX_RANKED_CHARS || query.len() > MAX_RANKED_CHARS {
        None
    } else {
        counted(skim_score(label, query))
    }
}

/// Turns a score of the matcher into the score that the engine counts.
pub fn count_score(raw: Option<i64>) -> (result: Option<u64>)
    ensures
        result == counted(raw),
{
    match raw {
        Some(s) => Some(
            if s > 0 {
                s as u64
            } else {
                0
            },
        ),
        None => None,
    }
}

/// Scores `label` against `query`; a higher score is a better match and `None`
/// is no match.
pub fn score(label: &str, query: &str) -> (result: Option<u64>)
    ensures
        result == label_score(label@, query@),
        query@.len() == 0 ==> result == Some(0u64),
{
    if query.is_empty() {
        Some(0)
    } else if label.unicode_len() > MAX_RANKED_CHARS || query.unicode_len() > MAX_RANKED_CHARS {
        None
    } else {
        count_score(skim_fuzzy_match(label, query))
    }
}

} // verus!
