//! Navigation over the panes of one tab.

use crate::cursor::{gain, is_match, FilteredListCursor};
use crate::item::{filter_items, lemma_empty_query, mask_of, score_items, scores_of, Pane};
use std::collections::HashMap;
use vstd::prelude::*;

verus! {

broadcast use vstd::std_specs::hash::group_hash_axioms;

/// The panes that a report of the host lists for a tab; none where no tab is
/// given or the report does not know the tab.
pub open spec fn panes_of(report: Map<usize, Vec<Pane>>, tab: Option<usize>) -> Seq<Pane> {
    match tab {
        Some(t) => if report.contains_key(t) {
            report[t]@
        } else {
            Seq::empty()
        },
        None => Seq::empty(),
    }
}

/// The id of the pane at a position of a list.
pub open spec fn pane_id_at(panes: Seq<Pane>, at: Option<usize>) -> Option<u32> {
    match at {
        Some(i) => Some(panes[i as int].id),
        None => None,
    }
}

/// The title of the pane at a position of a list; empty for no position.
pub open spec fn pane_title_at(panes: Seq<Pane>, at: Option<usize>) -> Seq<char> {
    match at {
        Some(i) => panes[i as int].title@,
        None => Seq::empty(),
    }
}

/// The panes of every tab and the selection among the panes of one of them.
///
/// A pane is identified by its id. Plugin panes take part in nothing: they are
/// never listed, matched or selected.
pub struct PaneNavigator {
    /// The panes as the host last reported them, by the place of their tab.
    pub panes: HashMap<usize, Vec<Pane>>,
    /// The highlighted position in the list of the tab's panes.
    pub result_index: usize,
    /// The id of the selected pane; `None` where nothing is selected.
    pub matched: Option<u32>,
    /// The title of the selected pane; empty where nothing is selected.
    pub title: String,
}

impl PaneNavigator {
    /// The panes of the tab at place `tab`.
    pub open spec fn list(self, tab: Option<usize>) -> Seq<Pane> {
        panes_of(self.panes@, tab)
    }

    /// The filter that `query` lays over the panes of `tab`.
    pub open spec fn mask(self, tab: Option<usize>, query: Seq<char>) -> Seq<bool> {
        mask_of(self.list(tab), query)
    }

    /// The score of each pane of `tab` for `query`.
    pub open spec fn scores(self, tab: Option<usize>, query: Seq<char>) -> Seq<Option<u64>> {
        scores_of(self.list(tab), query)
    }

    /// The cursor that an operation starts from: at the highlighted position,
    /// with the selection cleared.
    pub open spec fn cursor(self) -> FilteredListCursor {
        FilteredListCursor { result_index: self.result_index, matched: None }
    }

    /// Whether the navigator shows what `cursor` rests on in `list`: the
    /// cursor's position, and the id and title of the pane it selects.
    pub open spec fn shows(self, list: Seq<Pane>, cursor: FilteredListCursor) -> bool {
        &&& self.result_index == cursor.result_index
        &&& self.matched == pane_id_at(list, cursor.matched)
        &&& self.title@ == pane_title_at(list, cursor.matched)
    }

    /// No panes, nothing selected.
    pub fn new() -> (navigator: Self)
        ensures
            navigator.panes@ == Map::<usize, Vec<Pane>>::empty(),
            navigator.result_index == 0,
            navigator.matched is None,
            navigator.title@ == Seq::<char>::empty(),
    {
        PaneNavigator {
            panes: HashMap::new(),
            result_index: 0,
            matched: None,
            title: String::new(),
        }
    }

    /// Takes over the panes that the host reports. Position and selection
    /// stay as they are.
    pub fn set_panes(&mut self, panes: HashMap<usize, Vec<Pane>>)
        ensures
            final(self).panes == panes,
            final(self).result_index == old(self).result_index,
            final(self).matched == old(self).matched,
            final(self).title == old(self).title,
    {
        self.panes = panes;
    }

    /// Selects, among the panes of `tab`, the one that matches `query` best:
    /// the first of the panes with the highest score above zero. Where no pane
    /// scores above zero, as with the empty query or a query that matches no
    /// pane, nothing is selected.
    pub fn recompute_best_match(&mut self, tab: Option<usize>, query: &str)
        ensures
            final(self).panes == old(self).panes,
            final(self).shows(
                old(self).list(tab),
                FilteredListCursor::after_recompute(old(self).scores(tab, query@)),
            ),
            final(self).matched is Some ==> is_match(
                old(self).mask(tab, query@),
                final(self).result_index as int,
            ),
            query@.len() == 0 ==> final(self).matched is None,
            (forall|i: int| 0 <= i < old(self).list(tab).len() ==> !old(self).mask(tab, query@)[i])
                ==> final(self).matched is None,
    {
        let empty: Vec<Pane> = Vec::new();
        let list = self.list_of(tab, &empty);
        let scores = score_items(list.as_slice(), query);
        let mut cursor = FilteredListCursor::new();
        cursor.recompute_best_match(scores.as_slice());
        proof {
            if query@.len() == 0 {
                lemma_empty_query(list@, query@);
            }
            if forall|i: int| 0 <= i < self.list(tab).len() ==> !self.mask(tab, query@)[i] {
                assert forall|j: int| 0 <= j < scores@.len() implies gain(#[trigger] scores@[j])
                    == 0 by {
                    assert(!self.mask(tab, query@)[j]);
                }
            }
        }
        let (matched, title) = Self::selection(list, cursor.matched);
        self.result_index = cursor.result_index;
        self.matched = matched;
        self.title = title;
    }

    /// Takes over the panes that the host reports and looks the selection up
    /// again in them: the highlighted position stays, and the pane that the
    /// new report lists there for `tab` is selected if it is no plugin pane
    /// and matches `query`. Else nothing is selected, so a pane that is gone
    /// is never left selected.
    pub fn update_panes(
        &mut self,
        panes: HashMap<usize, Vec<Pane>>,
        tab: Option<usize>,
        query: &str,
    )
        ensures
            final(self).panes == panes,
            final(self).shows(
                panes_of(panes@, tab),
                old(self).cursor().after_seek(
                    mask_of(panes_of(panes@, tab), query@),
                    old(self).result_index,
                ),
            ),
            final(self).result_index == old(self).result_index,
            final(self).matched is Some <==> is_match(
                mask_of(panes_of(panes@, tab), query@),
                old(self).result_index as int,
            ),
    {
        let target: usize = self.result_index;
        self.set_panes(panes);
        self.seek(tab, query, target);
    }

    /// Clears the selection and selects the first pane of `tab` that is no
    /// plugin pane and matches `query`. Where there is none nothing is
    /// selected and the position is 0.
    pub fn select_first(&mut self, tab: Option<usize>, query: &str)
        ensures
            final(self).panes == old(self).panes,
            final(self).shows(
                old(self).list(tab),
                FilteredListCursor::after_first(old(self).mask(tab, query@)),
            ),
            final(self).matched is Some ==> is_match(
                old(self).mask(tab, query@),
                final(self).result_index as int,
            ),
            final(self).matched is None <==> forall|i: int|
                0 <= i < old(self).list(tab).len() ==> !old(self).mask(tab, query@)[i],
    {
        let empty: Vec<Pane> = Vec::new();
        let list = self.list_of(tab, &empty);
        let mask = filter_items(list.as_slice(), query);
        let mut cursor = FilteredListCursor::new();
        cursor.move_to_first_match(mask.as_slice());
        let (matched, title) = Self::selection(list, cursor.matched);
        self.result_index = cursor.result_index;
        self.matched = matched;
        self.title = title;
    }

    /// Clears the selection and jumps to `target` in the panes of `tab`: the
    /// position is highlighted, and the pane there is selected if it is no
    /// plugin pane and matches `query`.
    pub fn seek(&mut self, tab: Option<usize>, query: &str, target: usize)
        ensures
            final(self).panes == old(self).panes,
            final(self).shows(
                old(self).list(tab),
                old(self).cursor().after_seek(old(self).mask(tab, query@), target),
            ),
            final(self).result_index == target,
            final(self).matched is Some <==> is_match(old(self).mask(tab, query@), target as int),
    {
        let empty: Vec<Pane> = Vec::new();
        let list = self.list_of(tab, &empty);
        let mask = filter_items(list.as_slice(), query);
        let mut cursor = FilteredListCursor { result_index: self.result_index, matched: None };
        cursor.seek(mask.as_slice(), target);
        let (matched, title) = Self::selection(list, cursor.matched);
        self.result_index = cursor.result_index;
        self.matched = matched;
        self.title = title;
    }

    /// Selects the next pane of `tab` that matches `query`, from the last one
    /// round to the first. Where no pane matches, nothing is selected.
    pub fn move_to_next_match(&mut self, tab: Option<usize>, query: &str)
        ensures
            final(self).panes == old(self).panes,
            final(self).shows(
                old(self).list(tab),
                old(self).cursor().after_next(old(self).mask(tab, query@)),
            ),
            final(self).matched is Some ==> is_match(
                old(self).mask(tab, query@),
                final(self).result_index as int,
            ),
            final(self).matched is None <==> forall|i: int|
                0 <= i < old(self).list(tab).len() ==> !old(self).mask(tab, query@)[i],
    {
        let empty: Vec<Pane> = Vec::new();
        let list = self.list_of(tab, &empty);
        let mask = filter_items(list.as_slice(), query);
        let mut cursor = FilteredListCursor { result_index: self.result_index, matched: None };
        cursor.move_to_next_match(mask.as_slice());
        let (matched, title) = Self::selection(list, cursor.matched);
        self.result_index = cursor.result_index;
        self.matched = matched;
        self.title = title;
    }

    /// Selects the pane of `tab` before that matches `query`, from the first
    /// one round to the last. Where no pane matches, nothing is selected.
    pub fn move_to_previous_match(&mut self, tab: Option<usize>, query: &str)
        ensures
            final(self).panes == old(self).panes,
            final(self).shows(
                old(self).list(tab),
                old(self).cursor().after_previous(old(self).mask(tab, query@)),
            ),
            final(self).matched is Some ==> is_match(
                old(self).mask(tab, query@),
                final(self).result_index as int,
            ),
            final(self).matched is None <==> forall|i: int|
                0 <= i < old(self).list(tab).len() ==> !old(self).mask(tab, query@)[i],
    {
        let empty: Vec<Pane> = Vec::new();
        let list = self.list_of(tab, &empty);
        let mask = filter_items(list.as_slice(), query);
        let mut cursor = FilteredListCursor { result_index: self.result_index, matched: None };
        cursor.move_to_previous_match(mask.as_slice());
        let (matched, title) = Self::selection(list, cursor.matched);
        self.result_index = cursor.result_index;
        self.matched = matched;
        self.title = title;
    }

    /// The panes of `tab`, or `empty` where there are none.
    pub(crate) fn list_of<'a>(
        &'a self,
        tab: Option<usize>,
        empty: &'a Vec<Pane>,
    ) -> (list: &'a Vec<Pane>)
        requires
            empty@.len() == 0,
        ensures
            list@ == self.list(tab),
    {
        match tab {
            Some(t) => match self.panes.get(&t) {
                Some(panes) => panes,
                None => empty,
            },
            None => empty,
        }
    }

    /// The id and the title of the pane at a position of the list.
    fn selection(list: &Vec<Pane>, at: Option<usize>) -> (selected: (Option<u32>, String))
        requires
            at matches Some(i) ==> i < list@.len(),
        ensures
            selected.0 == pane_id_at(list@, at),
            selected.1@ == pane_title_at(list@, at),
    {
        match at {
            Some(i) => (Some(list[i].id), list[i].title.clone()),
            None => (None, String::new()),
        }
    }
}

} // verus!
