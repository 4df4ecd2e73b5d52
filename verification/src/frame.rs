//! What the picker shows: the state laid out for a screen of a given height.
//!
//! Nothing is drawn here. A frame names the lines and leaves colours and
//! wording to whoever prints it.

use crate::item::{filter_items, mask_of, Item, Pane};
use crate::selector::{Mode, SelectorState};
use vstd::prelude::*;

verus! {

/// Lines at the top of the screen that are kept for the host's own display.
pub const RESERVED_LINES: usize = 4;

/// Lines at the bottom of the screen that the list keeps clear of.
pub const BOTTOM_MARGIN: usize = 4;

/// One line of the list.
pub struct Row {
    /// The item's position in its list.
    pub position: usize,
    /// The item's label.
    pub label: String,
    /// Whether the cursor rests on this line.
    pub highlighted: bool,
}

/// The lines of the list that fit on the screen.
pub struct Listing {
    pub rows: Vec<Row>,
    /// Whether matches were left out for want of room; an ellipsis stands for
    /// them.
    pub truncated: bool,
}

/// What the line for the selected tab or pane says.
pub enum Selection {
    /// Nothing is selected.
    NoMatch,
    /// The label of the selected item.
    Label(String),
    /// An item is selected that the list does not hold; the line is left out.
    Unlisted,
}

/// The picker, laid out.
pub struct Frame {
    pub mode: Mode,
    /// The query in front of the cursor.
    pub before_cursor: String,
    /// The query behind the cursor.
    pub after_cursor: String,
    /// The matches of the list that the mode shows.
    pub listing: Listing,
    /// The selected pane; only shown in pane mode.
    pub pane: Option<Selection>,
    /// The selected tab.
    pub tab: Selection,
}

/// The positions among the first `n` of a list that the mask lets through, in
/// rising order.
pub open spec fn match_positions_upto(mask: Seq<bool>, n: int) -> Seq<int>
    decreases n,
{
    if n <= 0 {
        Seq::empty()
    } else if n <= mask.len() && mask[n - 1] {
        match_positions_upto(mask, n - 1).push(n - 1)
    } else {
        match_positions_upto(mask, n - 1)
    }
}

/// The positions that the mask lets through, in rising order.
pub open spec fn match_positions(mask: Seq<bool>) -> Seq<int> {
    match_positions_upto(mask, mask.len() as int)
}

/// How many lines stand above the list: the reserved lines, the line of the
/// mode, the prompt and, in tab mode, a heading.
pub open spec fn lines_above_list(mode: Mode) -> int {
    RESERVED_LINES + 2 + match mode {
        Mode::Tab => 1int,
        Mode::Pane => 0int,
    }
}

/// How many matches a screen of `rows` lines has room for.
pub open spec fn row_capacity(mode: Mode, rows: usize) -> int {
    let taken = lines_above_list(mode) + BOTTOM_MARGIN;
    if rows > taken {
        rows - taken
    } else {
        0
    }
}

impl Listing {
    /// Whether the listing shows the matches of `items` under `mask` on a
    /// screen with room for `capacity` of them: the first matches, in order,
    /// as many as fit; the line at `result_index` highlighted; and the hint
    /// that matches were left out exactly where some were.
    pub open spec fn shows<T: Item>(
        self,
        items: Seq<T>,
        mask: Seq<bool>,
        result_index: usize,
        capacity: int,
    ) -> bool {
        let all = match_positions(mask);
        &&& self.rows@.len() == if all.len() <= capacity {
            all.len() as int
        } else {
            capacity
        }
        &&& self.truncated == (all.len() > capacity)
        &&& forall|k: int|
            0 <= k < self.rows@.len() ==> {
                &&& (#[trigger] self.rows@[k]).position == all[k]
                &&& self.rows@[k].label@ == items[all[k]].label_chars()
                &&& self.rows@[k].highlighted == (all[k] == result_index)
            }
    }
}

/// Whether the configured value of the debug option asks for the state to be
/// printed below the frame: only the value `true` does.
pub fn debug_enabled(setting: Option<&String>) -> (enabled: bool)
    ensures
        enabled == (setting matches Some(value) && value@ == "true"@),
{
    match setting {
        Some(value) => *value == "true".to_owned(),
        None => false,
    }
}

/// How many matches a screen of `rows` lines has room for.
pub fn capacity_for(mode: Mode, rows: usize) -> (capacity: usize)
    ensures
        capacity == row_capacity(mode, rows),
{
    let above: usize = match mode {
        Mode::Tab => RESERVED_LINES + 3,
        Mode::Pane => RESERVED_LINES + 2,
    };
    let taken: usize = above + BOTTOM_MARGIN;
    if rows > taken {
        rows - taken
    } else {
        0
    }
}

/// Lists the items that match `query`, as many as `capacity` allows.
pub fn list_rows<T: Item>(
    items: &[T],
    query: &str,
    result_index: usize,
    capacity: usize,
) -> (listing: Listing)
    ensures
        listing.shows(items@, mask_of(items@, query@), result_index, capacity as int),
{
    let mask = filter_items(items, query);
    let mut rows: Vec<Row> = Vec::new();
    let mut truncated = false;
    let mut i: usize = 0;
    while i < items.len()
        invariant
            i <= items.len(),
            mask@ == mask_of(items@, query@),
            mask@.len() == items@.len(),
            rows@.len() <= capacity,
            rows@.len() <= match_positions_upto(mask@, i as int).len(),
            truncated == (match_positions_upto(mask@, i as int).len() > capacity),
            !truncated ==> rows@.len() == match_positions_upto(mask@, i as int).len(),
            truncated ==> rows@.len() == capacity,
            forall|k: int|
                0 <= k < rows@.len() ==> {
                    &&& (#[trigger] rows@[k]).position == match_positions_upto(mask@, i as int)[k]
                    &&& rows@[k].label@ == items@[rows@[k].position as int].label_chars()
                    &&& rows@[k].highlighted == (rows@[k].position == result_index)
                },
        decreases items.len() - i,
    {
        if mask[i] {
            if rows.len() < capacity {
                rows.push(
                    Row {
                        position: i,
                        label: items[i].label().to_owned(),
                        highlighted: i == result_index,
                    },
                );
            } else {
                truncated = true;
            }
        }
        i = i + 1;
    }
    Listing { rows, truncated }
}

impl SelectorState {
    /// Whether `frame` lays this state out for a screen of `rows` lines.
    pub open spec fn laid_out(self, rows: usize, frame: Frame) -> bool {
        let query = self.input@.text;
        let capacity = row_capacity(self.mode, rows);
        &&& frame.mode == self.mode
        &&& frame.before_cursor@ == self.input@.before_cursor()
        &&& frame.after_cursor@ == self.input@.after_cursor()
        &&& match self.mode {
            Mode::Tab => {
                &&& frame.listing.shows(
                    self.tabs.tabs@,
                    self.tabs.mask(query),
                    self.tabs.cursor.result_index,
                    capacity,
                )
                &&& frame.pane is None
            },
            Mode::Pane => {
                &&& frame.listing.shows(
                    self.panes.list(self.current_tab()),
                    self.panes.mask(self.current_tab(), query),
                    self.panes.result_index,
                    capacity,
                )
                &&& frame.pane matches Some(pane)
                &&& match self.panes.matched {
                    None => pane is NoMatch,
                    Some(_) => pane matches Selection::Label(title) && title@
                        == self.panes.title@,
                }
            },
        }
        &&& match self.tabs.cursor.matched {
            None => frame.tab is NoMatch,
            Some(m) => if m < self.tabs.tabs@.len() {
                frame.tab matches Selection::Label(name) && name@ == self.tabs.tabs@[m as int].name@
            } else {
                frame.tab is Unlisted
            },
        }
    }

    /// Lays the state out for a screen of `rows` lines.
    pub fn frame(&self, rows: usize) -> (frame: Frame)
        ensures
            self.laid_out(rows, frame),
    {
        let query = self.input.text();
        let (before_cursor, after_cursor) = self.input.split_at_cursor();
        let capacity = capacity_for(self.mode, rows);
        let (listing, pane) = match self.mode {
            Mode::Tab => (
                list_rows(
                    self.tabs.tabs.as_slice(),
                    query.as_str(),
                    self.tabs.cursor.result_index,
                    capacity,
                ),
                None,
            ),
            Mode::Pane => {
                let empty: Vec<Pane> = Vec::new();
                let panes = self.panes.list_of(self.tabs.cursor.matched, &empty);
                let listing = list_rows(
                    panes.as_slice(),
                    query.as_str(),
                    self.panes.result_index,
                    capacity,
                );
                let pane = match self.panes.matched {
                    None => Selection::NoMatch,
                    Some(_) => Selection::Label(self.panes.title.clone()),
                };
                (listing, Some(pane))
            },
        };
        let tab = match self.tabs.cursor.matched {
            None => Selection::NoMatch,
            Some(m) => if m < self.tabs.tabs.len() {
                Selection::Label(self.tabs.tabs[m].name.clone())
            } else {
                Selection::Unlisted
            },
        };
        Frame { mode: self.mode, before_cursor, after_cursor, listing, pane, tab }
    }
}

} // verus!
