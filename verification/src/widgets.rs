//! The text field behind every input line: a buffer of characters and a
//! cursor that always stands between two of them.

use crate::text::push_char;
use vstd::prelude::*;
use vstd::string::*;

verus! {

/// What a [`TextEntry`] holds: its characters, the cursor as a count of
/// characters before it, and the longest text that typing may produce.
pub struct TextEntryView {
    pub text: Seq<char>,
    pub cursor: nat,
    pub max_len: nat,
}

impl TextEntryView {
    /// The cursor stands inside the text or at its end.
    pub open spec fn wf(self) -> bool {
        self.cursor <= self.text.len()
    }

    /// Typing `c`: nothing once the text is `max_len` long, else `c` goes in
    /// at the cursor and the cursor moves behind it.
    pub open spec fn insert(self, c: char) -> TextEntryView {
        if self.text.len() < self.max_len {
            TextEntryView {
                text: self.text.insert(self.cursor as int, c),
                cursor: self.cursor + 1,
                ..self
            }
        } else {
            self
        }
    }

    /// Backspace: nothing at the start of the text, else the character
    /// before the cursor goes and the cursor moves one to the left.
    pub open spec fn remove(self) -> TextEntryView {
        if self.cursor == 0 {
            self
        } else {
            TextEntryView {
                text: self.text.remove(self.cursor - 1),
                cursor: (self.cursor - 1) as nat,
                ..self
            }
        }
    }

    pub open spec fn move_cursor_left(self) -> TextEntryView {
        TextEntryView { cursor: if self.cursor > 0 { (self.cursor - 1) as nat } else { 0 }, ..self }
    }

    pub open spec fn move_cursor_right(self) -> TextEntryView {
        TextEntryView {
            cursor: if self.cursor < self.text.len() {
                self.cursor + 1
            } else {
                self.cursor
            },
            ..self
        }
    }

    pub open spec fn move_cursor_home(self) -> TextEntryView {
        TextEntryView { cursor: 0, ..self }
    }

    pub open spec fn move_cursor_end(self) -> TextEntryView {
        TextEntryView { cursor: self.text.len(), ..self }
    }

    /// The field with `text` in it and the cursor at its end.
    pub open spec fn set_text(self, text: Seq<char>) -> TextEntryView {
        TextEntryView { text, cursor: text.len(), ..self }
    }

    /// The emptied field.
    pub open spec fn clear(self) -> TextEntryView {
        TextEntryView { text: Seq::empty(), cursor: 0, ..self }
    }
}

/// An editable line of text with a cursor.
pub struct TextEntry {
    text: String,
    cursor_pos: usize,
    max_len: usize,
}

impl View for TextEntry {
    type V = TextEntryView;

    closed spec fn view(&self) -> TextEntryView {
        TextEntryView {
            text: self.text@,
            cursor: self.cursor_pos as nat,
            max_len: self.max_len as nat,
        }
    }
}

impl TextEntry {
    #[verifier::type_invariant]
    spec fn cursor_in_text(self) -> bool {
        self.cursor_pos <= self.text@.len()
    }

    /// An empty field without a length limit.
    pub fn new() -> (r: TextEntry)
        ensures
            r@ == (TextEntryView { text: Seq::empty(), cursor: 0, max_len: usize::MAX as nat }),
    {
        TextEntry { text: String::new(), cursor_pos: 0, max_len: usize::MAX }
    }

    /// A field that holds `text`, the cursor at its end, without a length limit.
    pub fn with_text(text: String) -> (r: TextEntry)
        ensures
            r@ == (TextEntryView {
                text: text@,
                cursor: text@.len(),
                max_len: usize::MAX as nat,
            }),
    {
        let cursor_pos = text.as_str().unicode_len();
        TextEntry { text, cursor_pos, max_len: usize::MAX }
    }

    /// The same field with the length limit `len`.
    pub fn with_max(self, len: usize) -> (r: TextEntry)
        ensures
            r@ == (TextEntryView { max_len: len as nat, ..self@ }),
    {
        proof {
            use_type_invariant(&self);
        }
        TextEntry { text: self.text, cursor_pos: self.cursor_pos, max_len: len }
    }

    /// Hands the text out and leaves the field empty.
    pub fn take(&mut self) -> (r: String)
        ensures
            r@ == old(self)@.text,
            final(self)@ == old(self)@.clear(),
    {
        self.cursor_pos = 0;
        let mut taken = String::new();
        core::mem::swap(&mut self.text, &mut taken);
        taken
    }

    /// Replaces the text and puts the cursor at its end.
    pub fn set_text(&mut self, new_text: String)
        ensures
            final(self)@ == old(self)@.set_text(new_text@),
    {
        let len = new_text.as_str().unicode_len();
        self.cursor_pos = 0;
        self.text = new_text;
        self.cursor_pos = len;
    }

    /// Empties the field.
    pub fn clear(&mut self)
        ensures
            final(self)@ == old(self)@.clear(),
    {
        self.cursor_pos = 0;
        self.text = String::new();
    }

    /// The text.
    pub fn get_str(&self) -> (r: &str)
        ensures
            r@ == self@.text,
            self@.wf(),
    {
        proof {
            use_type_invariant(self);
        }
        self.text.as_str()
    }

    /// The number of characters before the cursor.
    pub fn get_cursor_pos(&self) -> (r: usize)
        ensures
            r == self@.cursor,
            self@.wf(),
    {
        proof {
            use_type_invariant(self);
        }
        self.cursor_pos
    }

    pub fn move_cursor_home(&mut self)
        ensures
            final(self)@ == old(self)@.move_cursor_home(),
    {
        self.cursor_pos = 0;
    }

    /// One character to the left, staying at the start.
    pub fn move_cursor_left(&mut self)
        ensures
            final(self)@ == old(self)@.move_cursor_left(),
    {
        proof {
            use_type_invariant(&*self);
        }
        if self.cursor_pos > 0 {
            self.cursor_pos -= 1;
        }
    }

    pub fn move_cursor_end(&mut self)
        ensures
            final(self)@ == old(self)@.move_cursor_end(),
    {
        self.cursor_pos = self.text.as_str().unicode_len();
    }

    /// One character to the right, staying at the end.
    pub fn move_cursor_right(&mut self)
        ensures
            final(self)@ == old(self)@.move_cursor_right(),
    {
        proof {
            use_type_invariant(&*self);
        }
        if self.cursor_pos < self.text.as_str().unicode_len() {
            self.cursor_pos += 1;
        }
    }

    /// Types `c` at the cursor, unless the text has reached its length limit.
    pub fn insert(&mut self, c: char)
        ensures
            final(self)@ == old(self)@.insert(c),
    {
        proof {
            use_type_invariant(&*self);
        }
        let len = self.text.as_str().unicode_len();
        if len < self.max_len {
            let mut text = String::from_str(self.text.as_str().substring_char(0, self.cursor_pos));
            push_char(&mut text, c);
            text.append(self.text.as_str().substring_char(self.cursor_pos, len));
            assert(text@ =~= self.text@.insert(self.cursor_pos as int, c));
            self.text = text;
            self.cursor_pos += 1;
        }
    }

    /// Deletes the character before the cursor, if there is one.
    pub fn remove(&mut self)
        ensures
            final(self)@ == old(self)@.remove(),
    {
        proof {
            use_type_invariant(&*self);
        }
        if self.cursor_pos == 0 {
            return ;
        }
        let len = self.text.as_str().unicode_len();
        let mut text = String::from_str(
            self.text.as_str().substring_char(0, self.cursor_pos - 1),
        );
        text.append(self.text.as_str().substring_char(self.cursor_pos, len));
        assert(text@ =~= self.text@.remove(self.cursor_pos - 1));
        self.cursor_pos -= 1;
        self.text = text;
    }
}

impl Default for TextEntry {
    fn default() -> (r: TextEntry)
        ensures
            r@ == (TextEntryView { text: Seq::empty(), cursor: 0, max_len: usize::MAX as nat }),
    {
        TextEntry::new()
    }
}

} // verus!
