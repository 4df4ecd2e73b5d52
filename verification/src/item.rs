//! The items that the picker lists: tabs and panes, and what the engine needs
//! to know of each.

use crate::cursor::gain;
use crate::ranker::{label_score, score};
use vstd::prelude::*;

verus! {

/// Anything with a label that a query can be matched against.
pub trait Item {
    /// The characters of the label.
    spec fn label_chars(&self) -> Seq<char>;

    /// Whether the item is kept out of filtering and navigation altogether.
    spec fn is_excluded(&self) -> bool;

    /// The label.
    fn label(&self) -> (label: &str)
        ensures
            label@ == self.label_chars(),
    ;

    /// Whether the item is kept out of filtering and navigation altogether.
    fn excluded(&self) -> (excluded: bool)
        ensures
            excluded == self.is_excluded(),
    ;
}

/// A tab as the host reports it.
#[derive(Clone, Debug)]
pub struct Tab {
    pub name: String,
    /// Whether the host shows this tab as the focused one.
    pub active: bool,
    /// The tab's place among the host's tabs, counted from 0.
    pub position: usize,
}

/// A pane of one tab as the host reports it.
#[derive(Clone, Debug)]
pub struct Pane {
    pub id: u32,
    pub title: String,
    /// Whether the pane belongs to a plugin rather than holding content.
    pub is_plugin: bool,
}

impl Item for Tab {
    open spec fn label_chars(&self) -> Seq<char> {
        self.name@
    }

    open spec fn is_excluded(&self) -> bool {
        false
    }

    fn label(&self) -> (label: &str) {
        self.name.as_str()
    }

    fn excluded(&self) -> (excluded: bool) {
        false
    }
}

impl Item for Pane {
    open spec fn label_chars(&self) -> Seq<char> {
        self.title@
    }

    open spec fn is_excluded(&self) -> bool {
        self.is_plugin
    }

    fn label(&self) -> (label: &str) {
        self.title.as_str()
    }

    fn excluded(&self) -> (excluded: bool) {
        self.is_plugin
    }
}

/// The score of an item for a query; an excluded item has none.
pub open spec fn item_score<T: Item>(item: T, query: Seq<char>) -> Option<u64> {
    if item.is_excluded() {
        None
    } else {
        label_score(item.label_chars(), query)
    }
}

/// The score of each item of a list, position by position.
pub open spec fn scores_of<T: Item>(items: Seq<T>, query: Seq<char>) -> Seq<Option<u64>> {
    Seq::new(items.len(), |i: int| item_score(items[i], query))
}

/// The filter that a query lays over a list: for each position, whether the
/// item there is not excluded and matches.
pub open spec fn mask_of<T: Item>(items: Seq<T>, query: Seq<char>) -> Seq<bool> {
    Seq::new(items.len(), |i: int| item_score(items[i], query) is Some)
}

/// Scores one item against the query.
pub fn score_item<T: Item>(item: &T, query: &str) -> (result: Option<u64>)
    ensures
        result == item_score(*item, query@),
{
    if item.excluded() {
        None
    } else {
        score(item.label(), query)
    }
}

/// Scores every item of the list against the query.
pub fn score_items<T: Item>(items: &[T], query: &str) -> (scores: Vec<Option<u64>>)
    ensures
        scores@ == scores_of(items@, query@),
{
    let mut scores: Vec<Option<u64>> = Vec::new();
    let mut i: usize = 0;
    while i < items.len()
        invariant
            i <= items.len(),
            scores@.len() == i,
            forall|j: int| 0 <= j < i ==> scores@[j] == item_score(items@[j], query@),
        decreases items.len() - i,
    {
        scores.push(score_item(&items[i], query));
        i = i + 1;
    }
    assert(scores@ =~= scores_of(items@, query@));
    scores
}

/// Lays the query's filter over the list.
pub fn filter_items<T: Item>(items: &[T], query: &str) -> (mask: Vec<bool>)
    ensures
        mask@ == mask_of(items@, query@),
{
    let mut mask: Vec<bool> = Vec::new();
    let mut i: usize = 0;
    while i < items.len()
        invariant
            i <= items.len(),
            mask@.len() == i,
            forall|j: int| 0 <= j < i ==> mask@[j] == (item_score(items@[j], query@) is Some),
        decreases items.len() - i,
    {
        mask.push(score_item(&items[i], query).is_some());
        i = i + 1;
    }
    assert(mask@ =~= mask_of(items@, query@));
    mask
}

/// With the empty query the filter lets through exactly the items that are
/// not excluded, and no score is above zero.
pub proof fn lemma_empty_query<T: Item>(items: Seq<T>, query: Seq<char>)
    requires
        query.len() == 0,
    ensures
        forall|i: int|
            0 <= i < items.len() ==> #[trigger] mask_of(items, query)[i] == !items[i].is_excluded(),
        forall|i: int| 0 <= i < items.len() ==> gain(#[trigger] scores_of(items, query)[i]) == 0,
{
}

} // verus!
