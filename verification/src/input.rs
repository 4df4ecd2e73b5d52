//! The query text and its edit cursor.

use vstd::prelude::*;

verus! {

/// Builds a `String` from characters with `String::from_iter`: the result
/// holds exactly the given characters, in their order.
#[verifier::external_body]
fn string_from_chars(chars: &[char]) -> (s: String)
    ensures
        s@ == chars@,
{
    String::from_iter(chars)
}

/// A line of text with a cursor between its characters, as a mathematical
/// value: what an [`InputBuffer`] stands for.
pub struct Line {
    pub text: Seq<char>,
    /// The number of characters in front of the cursor.
    pub cursor: nat,
}

impl Line {
    /// The cursor stands inside the text or at one of its ends.
    pub open spec fn wf(self) -> bool {
        self.cursor <= self.text.len()
    }

    /// The empty line.
    pub open spec fn empty() -> Line {
        Line { text: Seq::empty(), cursor: 0 }
    }

    /// The line after `c` has been typed: `c` stands at the cursor and the
    /// cursor behind it.
    pub open spec fn insert(self, c: char) -> Line {
        Line { text: self.text.insert(self.cursor as int, c), cursor: self.cursor + 1 }
    }

    /// Whether typing into this line calls for a new search. It does, except
    /// at the very front of text that is already there.
    pub open spec fn insert_reports(self) -> bool {
        self.text.len() == 0 || self.cursor > 0
    }

    /// The line after a backspace: the character in front of the cursor is
    /// gone. With the cursor at the very front the first character goes
    /// instead; an empty line stays as it is.
    pub open spec fn delete(self) -> Line {
        if self.text.len() == 0 {
            self
        } else if self.cursor > 0 {
            Line { text: self.text.remove(self.cursor - 1), cursor: (self.cursor - 1) as nat }
        } else {
            Line { text: self.text.remove(0), cursor: 0 }
        }
    }

    /// Whether a backspace in this line calls for a new search. It does where
    /// it removes the character in front of the cursor, not at the very front.
    pub open spec fn delete_reports(self) -> bool {
        self.text.len() > 0 && self.cursor > 0
    }

    /// The line after the cursor has moved one character left, if it can.
    pub open spec fn left(self) -> Line {
        Line {
            text: self.text,
            cursor: if self.cursor > 0 {
                (self.cursor - 1) as nat
            } else {
                0
            },
        }
    }

    /// The line after the cursor has moved one character right, if it can.
    pub open spec fn right(self) -> Line {
        Line {
            text: self.text,
            cursor: if self.cursor < self.text.len() {
                self.cursor + 1
            } else {
                self.cursor
            },
        }
    }

    /// The text in front of the cursor.
    pub open spec fn before_cursor(self) -> Seq<char> {
        self.text.subrange(0, self.cursor as int)
    }

    /// The text behind the cursor.
    pub open spec fn after_cursor(self) -> Seq<char> {
        self.text.subrange(self.cursor as int, self.text.len() as int)
    }
}

/// No edit and no cursor movement takes the cursor out of the text.
pub proof fn lemma_cursor_stays_in_text(line: Line, c: char)
    requires
        line.wf(),
    ensures
        line.insert(c).wf(),
        line.delete().wf(),
        line.left().wf(),
        line.right().wf(),
        Line::empty().wf(),
{
}

/// The query as the user types it: a single line of text with a cursor.
///
/// The cursor counts characters and never leaves `0..=len`.
///
/// Known quirk: an edit with the cursor at the very front of text that is
/// already there changes the text and still reports no change, so it does not
/// trigger a new search. The reports are kept as they are; see
/// [`Line::insert_reports`] and [`Line::delete_reports`].
pub struct InputBuffer {
    chars: Vec<char>,
    cursor: usize,
}

impl View for InputBuffer {
    type V = Line;

    closed spec fn view(&self) -> Line {
        Line { text: self.chars@, cursor: self.cursor as nat }
    }
}

impl InputBuffer {
    #[verifier::type_invariant]
    spec fn cursor_in_text(&self) -> bool {
        self.cursor <= self.chars.len()
    }

    /// Moves the characters out and leaves an empty buffer behind.
    fn take_chars(&mut self) -> (chars: Vec<char>)
        ensures
            chars == old(self).chars,
            final(self).chars@ == Seq::<char>::empty(),
            final(self).cursor == 0,
    {
        let mut chars: Vec<char> = Vec::new();
        self.cursor = 0;
        core::mem::swap(&mut self.chars, &mut chars);
        chars
    }

    /// An empty buffer, cursor at 0.
    pub fn new() -> (buffer: Self)
        ensures
            buffer@ == Line::empty(),
    {
        InputBuffer { chars: Vec::new(), cursor: 0 }
    }

    /// Inserts `c` at the cursor and moves the cursor behind it.
    ///
    /// Reports whether the search has to run again. An insertion at the very
    /// front of a non-empty buffer changes the text but reports `false`: such
    /// an edit does not trigger a new search.
    pub fn insert(&mut self, c: char) -> (changed: bool)
        ensures
            old(self)@.wf(),
            final(self)@ == old(self)@.insert(c),
            final(self)@.wf(),
            changed == old(self)@.insert_reports(),
    {
        proof {
            use_type_invariant(&*self);
        }
        let at: usize = self.cursor;
        let mut chars = self.take_chars();
        let at_front_of_text = at == 0 && chars.len() > 0;
        chars.insert(at, c);
        assert(at < chars.len());
        *self = InputBuffer { chars, cursor: at + 1 };
        !at_front_of_text
    }

    /// Backspace: removes the character in front of the cursor.
    ///
    /// On an empty buffer nothing happens. With the cursor at 0 on a non-empty
    /// buffer the first character is removed, the cursor stays, and the result
    /// is `false` all the same: such an edit does not trigger a new search.
    pub fn delete(&mut self) -> (changed: bool)
        ensures
            old(self)@.wf(),
            final(self)@ == old(self)@.delete(),
            final(self)@.wf(),
            changed == old(self)@.delete_reports(),
    {
        proof {
            use_type_invariant(&*self);
        }
        let at: usize = self.cursor;
        let mut chars = self.take_chars();
        if chars.len() == 0 {
            assert(self.chars@ =~= chars@);
            false
        } else if at > 0 {
            chars.remove(at - 1);
            *self = InputBuffer { chars, cursor: at - 1 };
            true
        } else {
            chars.remove(0);
            *self = InputBuffer { chars, cursor: 0 };
            false
        }
    }

    /// Moves the cursor one character to the left; stays at 0.
    pub fn move_cursor_left(&mut self)
        ensures
            final(self)@ == old(self)@.left(),
            final(self)@.wf(),
    {
        proof {
            use_type_invariant(&*self);
        }
        if self.cursor > 0 {
            self.cursor = self.cursor - 1;
        }
    }

    /// Moves the cursor one character to the right; stays at the end.
    pub fn move_cursor_right(&mut self)
        ensures
            final(self)@ == old(self)@.right(),
            final(self)@.wf(),
    {
        proof {
            use_type_invariant(&*self);
        }
        if self.cursor < self.chars.len() {
            self.cursor = self.cursor + 1;
        }
    }

    /// Empties the buffer and puts the cursor back to 0.
    pub fn clear(&mut self)
        ensures
            final(self)@ == Line::empty(),
    {
        *self = InputBuffer { chars: Vec::new(), cursor: 0 };
    }

    /// The cursor position, in characters.
    pub fn cursor(&self) -> (position: usize)
        ensures
            position == self@.cursor,
            self@.wf(),
    {
        proof {
            use_type_invariant(self);
        }
        self.cursor
    }

    /// Number of characters in the buffer.
    pub fn len(&self) -> (n: usize)
        ensures
            n == self@.text.len(),
    {
        self.chars.len()
    }

    /// Whether the buffer holds no character.
    pub fn is_empty(&self) -> (empty: bool)
        ensures
            empty == (self@.text.len() == 0),
    {
        self.chars.len() == 0
    }

    /// The text as a `String`.
    pub fn text(&self) -> (text: String)
        ensures
            text@ == self@.text,
    {
        string_from_chars(self.chars.as_slice())
    }

    /// The text in front of the cursor and the text behind it.
    pub fn split_at_cursor(&self) -> (parts: (String, String))
        ensures
            parts.0@ == self@.before_cursor(),
            parts.1@ == self@.after_cursor(),
            parts.0@ + parts.1@ == self@.text,
    {
        proof {
            use_type_invariant(self);
        }
        let (before, after) = self.chars.as_slice().split_at(self.cursor);
        assert(before@ + after@ =~= self.chars@);
        (string_from_chars(before), string_from_chars(after))
    }
}

} // verus!
