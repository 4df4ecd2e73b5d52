//! Navigation over the tabs.

use crate::cursor::{
    first_match_from, gain, is_match, last_match_before, lemma_first_match_from,
    FilteredListCursor,
};
use crate::item::{filter_items, lemma_empty_query, mask_of, score_items, scores_of, Tab};
use vstd::prelude::*;

verus! {

/// For each tab of a list, whether the host shows it as the focused one.
pub open spec fn active_flags(tabs: Seq<Tab>) -> Seq<bool> {
    Seq::new(tabs.len(), |i: int| tabs[i].active)
}

/// The first match among the first `n + 1` items of a list is the first match
/// among the first `n`; if there is none, it is the item at `n`, if that is
/// a match.
proof fn lemma_first_match_with_one_more(mask: Seq<bool>, n: int)
    requires
        0 <= n < mask.len(),
    ensures
        first_match_from(mask.take(n + 1), 0) == match first_match_from(mask.take(n), 0) {
            Some(k) => Some(k),
            None => if mask[n] {
                Some(n)
            } else {
                None
            },
        },
{
    let short = mask.take(n);
    let long = mask.take(n + 1);
    lemma_first_match_from(short, 0);
    lemma_first_match_from(long, 0);
    assert forall|j: int| 0 <= j < n implies short[j] == long[j] by {}
    match first_match_from(long, 0) {
        Some(k) => {
            if k < n {
                assert(short[k]);
            }
        },
        None => {},
    }
    match first_match_from(short, 0) {
        Some(k) => {
            assert(long[k]);
        },
        None => {
            assert(long[n] == mask[n]);
        },
    }
}

/// The tabs, the cursor over them, and the tab to fall back on.
///
/// A tab is identified by its position in the list, so the selected tab is the
/// cursor's `matched`.
pub struct TabNavigator {
    /// The tabs as the host last reported them.
    pub tabs: Vec<Tab>,
    /// The place of the tab that the host last reported as focused: the
    /// selection where the query singles out no tab.
    pub focus: usize,
    pub cursor: FilteredListCursor,
}

impl TabNavigator {
    /// The filter that `query` lays over the tabs.
    pub open spec fn mask(self, query: Seq<char>) -> Seq<bool> {
        mask_of(self.tabs@, query)
    }

    /// The score of each tab for `query`.
    pub open spec fn scores(self, query: Seq<char>) -> Seq<Option<u64>> {
        scores_of(self.tabs@, query)
    }

    /// The focus where `active` is the position of a tab flagged active: the
    /// place that this tab reports for itself; without such a tab, the focus
    /// as it was.
    pub open spec fn focus_on(self, tabs: Seq<Tab>, active: Option<int>) -> usize {
        match active {
            Some(a) => tabs[a].position,
            None => self.focus,
        }
    }

    /// The cursor where `active` is the position of a tab flagged active: on
    /// that tab while nothing is selected; a selection that exists stays.
    pub open spec fn cursor_on(self, active: Option<int>) -> FilteredListCursor {
        match active {
            Some(a) => if self.cursor.matched is None {
                FilteredListCursor { result_index: a as usize, matched: Some(a as usize) }
            } else {
                self.cursor
            },
            None => self.cursor,
        }
    }

    /// The focus after the host has reported `tabs`: the place of the last
    /// tab flagged active, else the focus as it was.
    pub open spec fn focus_after(self, tabs: Seq<Tab>) -> usize {
        self.focus_on(tabs, last_match_before(active_flags(tabs), tabs.len() as int))
    }

    /// The cursor after the host has reported `tabs`: while nothing is
    /// selected, the first tab flagged active becomes the selection; a
    /// selection that exists stays.
    pub open spec fn cursor_after(self, tabs: Seq<Tab>) -> FilteredListCursor {
        self.cursor_on(first_match_from(active_flags(tabs), 0))
    }

    /// The cursor after the host has reported `tabs` while the query is
    /// `query`. While nothing is selected, the first tab flagged active
    /// becomes the selection. A selected tab stays selected, and is
    /// highlighted, if the new list still holds a tab at its position and
    /// that tab matches the query; else nothing is selected and the
    /// highlighted position stays.
    pub open spec fn cursor_after_report(
        self,
        tabs: Seq<Tab>,
        query: Seq<char>,
    ) -> FilteredListCursor {
        match self.cursor.matched {
            None => self.cursor_after(tabs),
            Some(i) => if is_match(mask_of(tabs, query), i as int) {
                FilteredListCursor { result_index: i, matched: Some(i) }
            } else {
                FilteredListCursor { result_index: self.cursor.result_index, matched: None }
            },
        }
    }

    /// The cursor after the best match for `query` has been looked up: on the
    /// best match; where no tab scores above zero, on the focused tab.
    pub open spec fn cursor_after_recompute(self, query: Seq<char>) -> FilteredListCursor {
        let found = FilteredListCursor::after_recompute(self.scores(query));
        if found.matched is None {
            FilteredListCursor { result_index: self.focus, matched: Some(self.focus) }
        } else {
            found
        }
    }

    /// No tabs, focus on place 0, nothing selected.
    pub fn new() -> (navigator: Self)
        ensures
            navigator.tabs@ == Seq::<Tab>::empty(),
            navigator.focus == 0,
            navigator.cursor.result_index == 0,
            navigator.cursor.matched is None,
    {
        TabNavigator { tabs: Vec::new(), focus: 0, cursor: FilteredListCursor::new() }
    }

    /// Takes over the tabs that the host reports and notes which one is
    /// focused. The selection is kept; only where there is none, the focused
    /// tab is selected.
    pub fn set_tabs(&mut self, tabs: Vec<Tab>)
        ensures
            final(self).tabs == tabs,
            final(self).focus == old(self).focus_after(tabs@),
            final(self).cursor == old(self).cursor_after(tabs@),
    {
        let ghost flags = active_flags(tabs@);
        let ghost before = *self;
        let mut i: usize = 0;
        while i < tabs.len()
            invariant
                i <= tabs.len(),
                flags == active_flags(tabs@),
                self.tabs == before.tabs,
                self.focus == before.focus_on(tabs@, last_match_before(flags, i as int)),
                self.cursor == before.cursor_on(first_match_from(flags.take(i as int), 0)),
            decreases tabs.len() - i,
        {
            proof {
                lemma_first_match_with_one_more(flags, i as int);
            }
            if tabs[i].active {
                self.focus = tabs[i].position;
                if self.cursor.matched.is_none() {
                    self.cursor.matched = Some(i);
                    self.cursor.result_index = i;
                }
            }
            i = i + 1;
        }
        assert(flags.take(i as int) =~= flags);
        self.tabs = tabs;
    }

    /// Takes over the tabs that the host reports, notes which one is focused,
    /// and looks the selection up again in the new list. A selected tab stays
    /// selected only if the new list holds a tab at its position that matches
    /// `query`, so a tab that is gone is never left selected. Where nothing
    /// was selected, the focused tab is.
    pub fn update_tabs(&mut self, tabs: Vec<Tab>, query: &str)
        ensures
            final(self).tabs == tabs,
            final(self).focus == old(self).focus_after(tabs@),
            final(self).cursor == old(self).cursor_after_report(tabs@, query@),
            final(self).cursor.matched matches Some(j) ==> j < tabs@.len()
                && final(self).cursor.result_index == j,
            old(self).cursor.matched is Some ==> (final(self).cursor.matched matches Some(j)
                ==> is_match(mask_of(tabs@, query@), j as int)),
    {
        let selected = self.cursor.matched;
        let result_index: usize = self.cursor.result_index;
        proof {
            lemma_first_match_from(active_flags(tabs@), 0);
            assert(tabs@.len() == tabs.len());
        }
        self.set_tabs(tabs);
        if let Some(i) = selected {
            let mask = filter_items(self.tabs.as_slice(), query);
            if i < mask.len() && mask[i] {
                self.cursor = FilteredListCursor { result_index: i, matched: Some(i) };
            } else {
                self.cursor = FilteredListCursor { result_index, matched: None };
            }
        }
    }

    /// Selects the tab that matches `query` best: the first of the tabs with
    /// the highest score above zero. Where no tab scores above zero, as with
    /// the empty query or a query that matches no tab, the focused tab is
    /// selected.
    pub fn recompute_best_match(&mut self, query: &str)
        ensures
            final(self).tabs == old(self).tabs,
            final(self).focus == old(self).focus,
            final(self).cursor == old(self).cursor_after_recompute(query@),
            final(self).cursor.matched is Some,
            final(self).cursor.matched == Some(final(self).cursor.result_index),
            query@.len() == 0 ==> final(self).cursor.matched == Some(old(self).focus),
            (forall|i: int| 0 <= i < old(self).tabs@.len() ==> !old(self).mask(query@)[i])
                ==> final(self).cursor.matched == Some(old(self).focus),
    {
        let scores = score_items(self.tabs.as_slice(), query);
        proof {
            if query@.len() == 0 {
                lemma_empty_query(self.tabs@, query@);
            }
            if forall|i: int| 0 <= i < self.tabs@.len() ==> !self.mask(query@)[i] {
                assert forall|j: int| 0 <= j < scores@.len() implies gain(#[trigger] scores@[j])
                    == 0 by {
                    assert(!self.mask(query@)[j]);
                }
            }
        }
        self.cursor.recompute_best_match(scores.as_slice());
        if self.cursor.matched.is_none() {
            self.cursor.matched = Some(self.focus);
            self.cursor.result_index = self.focus;
        }
    }

    /// Jumps to the tab at `target`: the position is highlighted, and the tab
    /// there is selected if it matches `query`. Where it does not, or where
    /// there is no such tab, the selection stays as it was.
    pub fn seek(&mut self, query: &str, target: usize)
        ensures
            final(self).tabs == old(self).tabs,
            final(self).focus == old(self).focus,
            final(self).cursor == old(self).cursor.after_seek(old(self).mask(query@), target),
    {
        let mask = filter_items(self.tabs.as_slice(), query);
        self.cursor.seek(mask.as_slice(), target);
    }

    /// Jumps to the first tab of the list, as `seek` to position 0 does.
    pub fn jump_home(&mut self, query: &str)
        ensures
            final(self).tabs == old(self).tabs,
            final(self).focus == old(self).focus,
            final(self).cursor == old(self).cursor.after_seek(old(self).mask(query@), 0),
    {
        self.seek(query, 0);
    }

    /// Selects the next tab that matches `query`, from the last one round to
    /// the first. Where no tab matches, nothing is selected.
    pub fn move_to_next_match(&mut self, query: &str)
        ensures
            final(self).tabs == old(self).tabs,
            final(self).focus == old(self).focus,
            final(self).cursor == old(self).cursor.after_next(old(self).mask(query@)),
            final(self).cursor.matched matches Some(i) ==> final(self).cursor.result_index == i
                && is_match(old(self).mask(query@), i as int),
            final(self).cursor.matched is None <==> forall|i: int|
                0 <= i < old(self).tabs@.len() ==> !old(self).mask(query@)[i],
    {
        let mask = filter_items(self.tabs.as_slice(), query);
        self.cursor.move_to_next_match(mask.as_slice());
    }

    /// Selects the tab before that matches `query`, from the first one round
    /// to the last. Where no tab matches, nothing is selected.
    pub fn move_to_previous_match(&mut self, query: &str)
        ensures
            final(self).tabs == old(self).tabs,
            final(self).focus == old(self).focus,
            final(self).cursor == old(self).cursor.after_previous(old(self).mask(query@)),
            final(self).cursor.matched matches Some(i) ==> final(self).cursor.result_index == i
                && is_match(old(self).mask(query@), i as int),
            final(self).cursor.matched is None <==> forall|i: int|
                0 <= i < old(self).tabs@.len() ==> !old(self).mask(query@)[i],
    {
        let mask = filter_items(self.tabs.as_slice(), query);
        self.cursor.move_to_previous_match(mask.as_slice());
    }

    /// The selected tab, by its position in the list.
    pub fn matched(&self) -> (matched: Option<usize>)
        ensures
            matched == self.cursor.matched,
    {
        self.cursor.matched
    }

    /// The highlighted position.
    pub fn result_index(&self) -> (index: usize)
        ensures
            index == self.cursor.result_index,
    {
        self.cursor.result_index
    }
}

} // verus!
