//! The picker as a whole: the query, the two navigators and the mode that
//! says which of them the keys drive.

use crate::cursor::{is_match, FilteredListCursor};
use crate::input::{InputBuffer, Line};
use crate::item::{mask_of, Pane, Tab};
use crate::panes::{panes_of, PaneNavigator};
use crate::tabs::TabNavigator;
use std::collections::HashMap;
use vstd::prelude::*;

verus! {

/// Which list the keys drive.
#[derive(Clone, Copy, Debug, PartialEq, Eq)]
pub enum Mode {
    /// The tabs are filtered and navigated.
    Tab,
    /// The panes of the selected tab are filtered and navigated.
    Pane,
}

/// A key, without its modifiers.
#[derive(Clone, Copy, Debug, PartialEq, Eq)]
pub enum Key {
    Char(char),
    Enter,
    Backspace,
    Tab,
    Up,
    Down,
    Left,
    Right,
    PageUp,
    Esc,
    /// Any key that the picker has no use for.
    Other,
}

/// A key press.
#[derive(Clone, Copy, Debug, PartialEq, Eq)]
pub struct KeyEvent {
    pub key: Key,
    /// Whether Ctrl was held.
    pub ctrl: bool,
}

/// What the host is asked to do.
#[derive(Clone, Copy, Debug, PartialEq, Eq)]
pub enum Action {
    /// Close the picker and switch to the tab with this number, counted
    /// from 1.
    SwitchToTab(usize),
    /// Close the picker and focus the pane with this id.
    FocusPane(u32),
    /// Close the picker.
    Close,
}

/// What an event leads to besides the new state.
#[derive(Clone, Copy, Debug, PartialEq, Eq)]
pub struct Outcome {
    /// Whether the picker has to be drawn again.
    pub render: bool,
    /// What the host is asked to do, if anything.
    pub action: Option<Action>,
}

/// What the host tells the picker.
pub enum Event {
    /// The tabs, in their order.
    TabUpdate(Vec<Tab>),
    /// The panes of each tab, by the tab's place.
    PaneUpdate(HashMap<usize, Vec<Pane>>),
    /// A key press.
    Key(KeyEvent),
    /// Anything else.
    Other,
}

/// The state of the picker.
pub struct SelectorState {
    pub input: InputBuffer,
    pub tabs: TabNavigator,
    pub panes: PaneNavigator,
    pub mode: Mode,
}

impl SelectorState {
    /// The tab whose panes the pane navigator works on: the selected tab.
    pub open spec fn current_tab(self) -> Option<usize> {
        self.tabs.cursor.matched
    }

    /// What Enter asks of the host: in tab mode to switch to the selected
    /// tab, in pane mode to focus the selected pane; nothing where nothing is
    /// selected. A tab number that `usize` cannot hold is not sent.
    pub open spec fn confirmation(self) -> Option<Action> {
        match self.mode {
            Mode::Tab => match self.tabs.cursor.matched {
                Some(p) => if p < usize::MAX {
                    Some(Action::SwitchToTab((p + 1) as usize))
                } else {
                    None
                },
                None => None,
            },
            Mode::Pane => match self.panes.matched {
                Some(id) => Some(Action::FocusPane(id)),
                None => None,
            },
        }
    }

    /// `post` differs from `pre` in that the navigator of the mode has
    /// looked up its best match for `query`.
    pub open spec fn refiltered(pre: Self, post: Self, query: Seq<char>) -> bool {
        match pre.mode {
            Mode::Tab => {
                &&& post.tabs.tabs == pre.tabs.tabs
                &&& post.tabs.focus == pre.tabs.focus
                &&& post.tabs.cursor == pre.tabs.cursor_after_recompute(query)
                &&& post.panes == pre.panes
            },
            Mode::Pane => {
                &&& post.tabs == pre.tabs
                &&& post.panes.panes == pre.panes.panes
                &&& post.panes.shows(
                    pre.panes.list(pre.current_tab()),
                    FilteredListCursor::after_recompute(
                        pre.panes.scores(pre.current_tab(), query),
                    ),
                )
            },
        }
    }

    /// `post` differs from `pre` in that the navigator of the mode has
    /// stepped to its next match.
    pub open spec fn stepped_down(pre: Self, post: Self) -> bool {
        match pre.mode {
            Mode::Tab => {
                &&& post.tabs.tabs == pre.tabs.tabs
                &&& post.tabs.focus == pre.tabs.focus
                &&& post.tabs.cursor == pre.tabs.cursor.after_next(
                    pre.tabs.mask(pre.input@.text),
                )
                &&& post.panes == pre.panes
            },
            Mode::Pane => {
                &&& post.tabs == pre.tabs
                &&& post.panes.panes == pre.panes.panes
                &&& post.panes.shows(
                    pre.panes.list(pre.current_tab()),
                    pre.panes.cursor().after_next(
                        pre.panes.mask(pre.current_tab(), pre.input@.text),
                    ),
                )
            },
        }
    }

    /// `post` differs from `pre` in that the navigator of the mode has
    /// stepped to its previous match.
    pub open spec fn stepped_up(pre: Self, post: Self) -> bool {
        match pre.mode {
            Mode::Tab => {
                &&& post.tabs.tabs == pre.tabs.tabs
                &&& post.tabs.focus == pre.tabs.focus
                &&& post.tabs.cursor == pre.tabs.cursor.after_previous(
                    pre.tabs.mask(pre.input@.text),
                )
                &&& post.panes == pre.panes
            },
            Mode::Pane => {
                &&& post.tabs == pre.tabs
                &&& post.panes.panes == pre.panes.panes
                &&& post.panes.shows(
                    pre.panes.list(pre.current_tab()),
                    pre.panes.cursor().after_previous(
                        pre.panes.mask(pre.current_tab(), pre.input@.text),
                    ),
                )
            },
        }
    }

    /// `post` is `pre` after PageUp: in tab mode the tab navigator has jumped
    /// to the first tab; in pane mode nothing has changed.
    pub open spec fn jumped_home(pre: Self, post: Self) -> bool {
        match pre.mode {
            Mode::Tab => {
                &&& post.tabs.tabs == pre.tabs.tabs
                &&& post.tabs.focus == pre.tabs.focus
                &&& post.tabs.cursor == pre.tabs.cursor.after_seek(
                    pre.tabs.mask(pre.input@.text),
                    0,
                )
                &&& post.panes == pre.panes
            },
            Mode::Pane => post.tabs == pre.tabs && post.panes == pre.panes,
        }
    }

    /// `post` is `pre` after the mode has been switched: the query is empty,
    /// the mode is the other one, and the navigator of the new mode is set up.
    /// On the way to pane mode the pane selection is cleared and the first
    /// pane of the selected tab that is no plugin pane is selected; nothing
    /// is selected only where the tab has no such pane. On the way to tab
    /// mode the selected tab, if there is one, is highlighted.
    pub open spec fn mode_switched(pre: Self, post: Self) -> bool {
        &&& post.input@ == Line::empty()
        &&& match pre.mode {
            Mode::Tab => {
                &&& post.mode == Mode::Pane
                &&& post.tabs == pre.tabs
                &&& post.panes.panes == pre.panes.panes
                &&& post.panes.shows(
                    pre.panes.list(pre.current_tab()),
                    FilteredListCursor::after_first(
                        pre.panes.mask(pre.current_tab(), Seq::<char>::empty()),
                    ),
                )
            },
            Mode::Pane => {
                &&& post.mode == Mode::Tab
                &&& post.panes == pre.panes
                &&& post.tabs.tabs == pre.tabs.tabs
                &&& post.tabs.focus == pre.tabs.focus
                &&& post.tabs.cursor.matched == pre.tabs.cursor.matched
                &&& post.tabs.cursor.result_index == match pre.tabs.cursor.matched {
                    Some(i) => i,
                    None => pre.tabs.cursor.result_index,
                }
            },
        }
    }

    /// `post` is `pre` after an edit of the query that reported `changed`: the
    /// navigator of the mode has looked up its best match for the new query if
    /// the edit reported a change, and nothing but the query has changed if it
    /// did not.
    pub open spec fn edited(pre: Self, post: Self, changed: bool) -> bool {
        &&& post.mode == pre.mode
        &&& if changed {
            Self::refiltered(pre, post, post.input@.text)
        } else {
            post.tabs == pre.tabs && post.panes == pre.panes
        }
    }

    /// `post` and `outcome` are what the key press `event` leads to from
    /// `pre`.
    pub open spec fn key_step(pre: Self, event: KeyEvent, post: Self, outcome: Outcome) -> bool {
        &&& outcome.render
        &&& match event.key {
            Key::Enter => post == pre && outcome.action == pre.confirmation(),
            Key::Esc => post == pre && outcome.action == Some(Action::Close),
            Key::Other => post == pre && outcome.action is None,
            Key::Backspace => {
                &&& outcome.action is None
                &&& post.input@ == pre.input@.delete()
                &&& Self::edited(pre, post, pre.input@.delete_reports())
            },
            Key::Char(c) => if event.ctrl && c == 'c' {
                post == pre && outcome.action == Some(Action::Close)
            } else {
                &&& outcome.action is None
                &&& post.input@ == pre.input@.insert(c)
                &&& Self::edited(pre, post, pre.input@.insert_reports())
            },
            Key::Down => {
                &&& outcome.action is None
                &&& post.mode == pre.mode
                &&& post.input == pre.input
                &&& Self::stepped_down(pre, post)
            },
            Key::Up => {
                &&& outcome.action is None
                &&& post.mode == pre.mode
                &&& post.input == pre.input
                &&& Self::stepped_up(pre, post)
            },
            Key::PageUp => {
                &&& outcome.action is None
                &&& post.mode == pre.mode
                &&& post.input == pre.input
                &&& Self::jumped_home(pre, post)
            },
            Key::Left => {
                &&& outcome.action is None
                &&& post.mode == pre.mode
                &&& post.tabs == pre.tabs
                &&& post.panes == pre.panes
                &&& post.input@ == pre.input@.left()
            },
            Key::Right => {
                &&& outcome.action is None
                &&& post.mode == pre.mode
                &&& post.tabs == pre.tabs
                &&& post.panes == pre.panes
                &&& post.input@ == pre.input@.right()
            },
            Key::Tab => outcome.action is None && Self::mode_switched(pre, post),
        }
    }

    /// Whether this is the picker at its start: tab mode, empty query, no
    /// tabs, no panes, focus on place 0, nothing selected.
    pub open spec fn is_initial(self) -> bool {
        &&& self.mode == Mode::Tab
        &&& self.input@ == Line::empty()
        &&& self.tabs.tabs@ == Seq::<Tab>::empty()
        &&& self.tabs.focus == 0
        &&& self.tabs.cursor.result_index == 0
        &&& self.tabs.cursor.matched is None
        &&& self.panes.panes@ == Map::<usize, Vec<Pane>>::empty()
        &&& self.panes.result_index == 0
        &&& self.panes.matched is None
        &&& self.panes.title@ == Seq::<char>::empty()
    }

    /// The picker at its start.
    pub fn new() -> (state: Self)
        ensures
            state.is_initial(),
    {
        SelectorState {
            input: InputBuffer::new(),
            tabs: TabNavigator::new(),
            panes: PaneNavigator::new(),
            mode: Mode::Tab,
        }
    }

    /// Handles a key press and says what the host has to do. Every key asks
    /// for the picker to be drawn again.
    pub fn handle_key(&mut self, event: KeyEvent) -> (outcome: Outcome)
        ensures
            Self::key_step(*old(self), event, *final(self), outcome),
    {
        let mut action: Option<Action> = None;
        match event.key {
            Key::Enter => {
                action = self.confirm();
            },
            Key::Backspace => {
                if self.input.delete() {
                    self.refilter();
                }
            },
            Key::Down => {
                self.step_down();
            },
            Key::PageUp => {
                match self.mode {
                    Mode::Tab => {
                        let query = self.input.text();
                        self.tabs.jump_home(query.as_str());
                    },
                    Mode::Pane => {},
                }
            },
            Key::Up => {
                self.step_up();
            },
            Key::Left => {
                self.input.move_cursor_left();
            },
            Key::Right => {
                self.input.move_cursor_right();
            },
            Key::Esc => {
                action = Some(Action::Close);
            },
            Key::Tab => {
                self.change_mode();
            },
            Key::Char(c) => {
                if event.ctrl && c == 'c' {
                    action = Some(Action::Close);
                } else if self.input.insert(c) {
                    self.refilter();
                }
            },
            Key::Other => {},
        }
        Outcome { render: true, action }
    }

    /// Handles what the host tells the picker. Every event asks for the
    /// picker to be drawn again.
    ///
    /// A report of tabs or panes replaces the list, and the selection is
    /// looked up again in the new list with the query as it stands, so that
    /// it never names an item that is gone: a selected tab stays only if its
    /// position still holds a tab that matches, and the pane at the
    /// highlighted position is selected only if the new report lists one
    /// there that matches.
    pub fn update(&mut self, event: Event) -> (outcome: Outcome)
        ensures
            outcome.render,
            match event {
                Event::TabUpdate(tabs) => {
                    &&& outcome.action is None
                    &&& final(self).input == old(self).input
                    &&& final(self).mode == old(self).mode
                    &&& final(self).panes == old(self).panes
                    &&& final(self).tabs.tabs == tabs
                    &&& final(self).tabs.focus == old(self).tabs.focus_after(tabs@)
                    &&& final(self).tabs.cursor == old(self).tabs.cursor_after_report(
                        tabs@,
                        old(self).input@.text,
                    )
                    &&& final(self).tabs.cursor.matched matches Some(j) ==> j < tabs@.len()
                        && final(self).tabs.cursor.result_index == j
                    &&& old(self).tabs.cursor.matched is Some
                        && final(self).tabs.cursor.matched is Some ==> is_match(
                        mask_of(tabs@, old(self).input@.text),
                        final(self).tabs.cursor.result_index as int,
                    )
                },
                Event::PaneUpdate(panes) => {
                    &&& outcome.action is None
                    &&& final(self).input == old(self).input
                    &&& final(self).mode == old(self).mode
                    &&& final(self).tabs == old(self).tabs
                    &&& final(self).panes.panes == panes
                    &&& final(self).panes.shows(
                        panes_of(panes@, old(self).current_tab()),
                        old(self).panes.cursor().after_seek(
                            mask_of(
                                panes_of(panes@, old(self).current_tab()),
                                old(self).input@.text,
                            ),
                            old(self).panes.result_index,
                        ),
                    )
                },
                Event::Key(key) => Self::key_step(*old(self), key, *final(self), outcome),
                Event::Other => outcome.action is None && *final(self) == *old(self),
            },
    {
        match event {
            Event::TabUpdate(tabs) => {
                let query = self.input.text();
                self.tabs.update_tabs(tabs, query.as_str());
                Outcome { render: true, action: None }
            },
            Event::PaneUpdate(panes) => {
                let query = self.input.text();
                let tab = self.tabs.cursor.matched;
                self.panes.update_panes(panes, tab, query.as_str());
                Outcome { render: true, action: None }
            },
            Event::Key(key) => self.handle_key(key),
            Event::Other => Outcome { render: true, action: None },
        }
    }

    /// Switches between tab mode and pane mode and empties the query.
    pub fn change_mode(&mut self)
        ensures
            Self::mode_switched(*old(self), *final(self)),
    {
        self.input.clear();
        match self.mode {
            Mode::Tab => {
                self.mode = Mode::Pane;
                let query = self.input.text();
                let tab = self.tabs.cursor.matched;
                self.panes.select_first(tab, query.as_str());
            },
            Mode::Pane => {
                self.mode = Mode::Tab;
                if let Some(i) = self.tabs.cursor.matched {
                    self.tabs.cursor.result_index = i;
                }
            },
        }
    }

    /// What Enter asks of the host.
    pub fn confirm(&self) -> (action: Option<Action>)
        ensures
            action == self.confirmation(),
    {
        match self.mode {
            Mode::Tab => match self.tabs.cursor.matched {
                Some(p) => if p < usize::MAX {
                    Some(Action::SwitchToTab(p + 1))
                } else {
                    None
                },
                None => None,
            },
            Mode::Pane => match self.panes.matched {
                Some(id) => Some(Action::FocusPane(id)),
                None => None,
            },
        }
    }

    /// Has the navigator of the mode look up its best match for the query.
    fn refilter(&mut self)
        ensures
            final(self).input == old(self).input,
            final(self).mode == old(self).mode,
            Self::refiltered(*old(self), *final(self), old(self).input@.text),
    {
        let query = self.input.text();
        match self.mode {
            Mode::Tab => {
                self.tabs.recompute_best_match(query.as_str());
            },
            Mode::Pane => {
                let tab = self.tabs.cursor.matched;
                self.panes.recompute_best_match(tab, query.as_str());
            },
        }
    }

    /// Has the navigator of the mode step to its next match.
    fn step_down(&mut self)
        ensures
            final(self).input == old(self).input,
            final(self).mode == old(self).mode,
            Self::stepped_down(*old(self), *final(self)),
    {
        let query = self.input.text();
        match self.mode {
            Mode::Tab => {
                self.tabs.move_to_next_match(query.as_str());
            },
            Mode::Pane => {
                let tab = self.tabs.cursor.matched;
                self.panes.move_to_next_match(tab, query.as_str());
            },
        }
    }

    /// Has the navigator of the mode step to its previous match.
    fn step_up(&mut self)
        ensures
            final(self).input == old(self).input,
            final(self).mode == old(self).mode,
            Self::stepped_up(*old(self), *final(self)),
    {
        let query = self.input.text();
        match self.mode {
            Mode::Tab => {
                self.tabs.move_to_previous_match(query.as_str());
            },
            Mode::Pane => {
                let tab = self.tabs.cursor.matched;
                self.panes.move_to_previous_match(tab, query.as_str());
            },
        }
    }
}

impl Default for SelectorState {
    /// The picker at its start.
    fn default() -> (state: Self)
        ensures
            state.is_initial(),
    {
        SelectorState::new()
    }
}

} // verus!
