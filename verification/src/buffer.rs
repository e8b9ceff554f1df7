//! The editable text buffer: a sequence of characters and a cursor offset.
//!
//! The cursor is measured in characters, never in storage units, and every
//! operation keeps it within `0 ..= len(content)`. All operations are total:
//! the edge cases (backspace on an empty buffer, delete at the end, movement
//! at a boundary) are no-ops, never errors. Each operation's effect is
//! stated by a `_step` spec function over [`BufferView`], the mathematical
//! model of the buffer, and the laws at the end of this module are proved
//! over those same functions.

use vstd::prelude::*;
use ropey::Rope;
use crate::storage::{
    rope_chars,
    rope_insert,
    rope_insert_char,
    rope_len_chars,
    rope_new,
    rope_remove,
    rope_to_string,
};

verus! {

/// The mathematical model of a [`TextBuffer`]: its characters and its
/// cursor offset in characters.
pub ghost struct BufferView {
    pub text: Seq<char>,
    pub cursor: int,
}

impl BufferView {
    /// The buffer invariant: the cursor lies within `0 ..= text.len()`.
    pub open spec fn wf(self) -> bool {
        0 <= self.cursor <= self.text.len()
    }
}

/// `content` with `text` inserted at offset `at`.
pub open spec fn insert_at(content: Seq<char>, at: int, text: Seq<char>) -> Seq<char> {
    content.subrange(0, at) + text + content.subrange(at, content.len() as int)
}

/// `content` with the characters in `start..end` removed.
pub open spec fn remove_range(content: Seq<char>, start: int, end: int) -> Seq<char> {
    content.subrange(0, start) + content.subrange(end, content.len() as int)
}

/// Inserting one or more characters at the cursor: the cursor advances by
/// the character count of the inserted text.
pub open spec fn insert_step(v: BufferView, text: Seq<char>) -> BufferView {
    BufferView { text: insert_at(v.text, v.cursor, text), cursor: v.cursor + text.len() }
}

/// Backspace: removes the character before the cursor and retreats the
/// cursor, or does nothing at the start of the buffer.
pub open spec fn backspace_step(v: BufferView) -> BufferView {
    if v.cursor > 0 {
        BufferView { text: remove_range(v.text, v.cursor - 1, v.cursor), cursor: v.cursor - 1 }
    } else {
        v
    }
}

/// Delete forward: removes the character at the cursor and leaves the
/// cursor in place, or does nothing at the end of the buffer.
pub open spec fn delete_forward_step(v: BufferView) -> BufferView {
    if v.cursor < v.text.len() {
        BufferView { text: remove_range(v.text, v.cursor, v.cursor + 1), cursor: v.cursor }
    } else {
        v
    }
}

/// Cursor left, clamped at the start of the buffer.
pub open spec fn move_left_step(v: BufferView) -> BufferView {
    if v.cursor > 0 {
        BufferView { text: v.text, cursor: v.cursor - 1 }
    } else {
        v
    }
}

/// Cursor right, clamped at the end of the buffer.
pub open spec fn move_right_step(v: BufferView) -> BufferView {
    if v.cursor < v.text.len() {
        BufferView { text: v.text, cursor: v.cursor + 1 }
    } else {
        v
    }
}

/// Cursor to the start of the buffer.
pub open spec fn move_home_step(v: BufferView) -> BufferView {
    BufferView { text: v.text, cursor: 0 }
}

/// Cursor to the end of the buffer.
pub open spec fn move_end_step(v: BufferView) -> BufferView {
    BufferView { text: v.text, cursor: v.text.len() as int }
}

/// The editable character sequence and its cursor. Created empty; mutated
/// only by the operations below, each of which preserves [`Self::inv`].
pub struct TextBuffer {
    content: Rope,
    cursor: usize,
}

impl View for TextBuffer {
    type V = BufferView;

    closed spec fn view(&self) -> BufferView {
        BufferView { text: rope_chars(self.content), cursor: self.cursor as int }
    }
}

impl TextBuffer {
    /// The buffer invariant: the cursor offset never leaves
    /// `0 ..= len(content)`.
    pub open spec fn inv(&self) -> bool {
        self@.wf()
    }

    /// An empty buffer with the cursor at offset zero.
    pub fn new() -> (b: TextBuffer)
        ensures
            b.inv(),
            b@.text == Seq::<char>::empty(),
            b@.cursor == 0,
    {
        TextBuffer { content: rope_new(), cursor: 0 }
    }

    /// Inserts the characters of `text` at the cursor as one atomic edit;
    /// the cursor advances by the character count of `text` (not by its
    /// storage length).
    pub fn insert_text(&mut self, text: &str)
        requires
            old(self).inv(),
        ensures
            final(self).inv(),
            final(self)@ == insert_step(old(self)@, text@),
    {
        let before = rope_len_chars(&self.content);
        rope_insert(&mut self.content, self.cursor, text);
        let after = rope_len_chars(&self.content);
        self.cursor = self.cursor + (after - before);
    }

    /// Inserts the single character `c` at the cursor and advances the
    /// cursor by one.
    pub fn insert_char(&mut self, c: char)
        requires
            old(self).inv(),
        ensures
            final(self).inv(),
            final(self)@ == insert_step(old(self)@, seq![c]),
    {
        let before = rope_len_chars(&self.content);
        rope_insert_char(&mut self.content, self.cursor, c);
        let after = rope_len_chars(&self.content);
        self.cursor = self.cursor + (after - before);
    }

    /// Inserts a line break at the cursor.
    pub fn insert_newline(&mut self)
        requires
            old(self).inv(),
        ensures
            final(self).inv(),
            final(self)@ == insert_step(old(self)@, seq!['\n']),
    {
        self.insert_char('\n');
    }

    /// Inserts a space at the cursor.
    pub fn insert_space(&mut self)
        requires
            old(self).inv(),
        ensures
            final(self).inv(),
            final(self)@ == insert_step(old(self)@, seq![' ']),
    {
        self.insert_char(' ');
    }

    /// Removes the character before the cursor and retreats the cursor;
    /// a no-op when the cursor is at the start.
    pub fn backspace(&mut self)
        requires
            old(self).inv(),
        ensures
            final(self).inv(),
            final(self)@ == backspace_step(old(self)@),
    {
        if self.cursor > 0 {
            rope_remove(&mut self.content, self.cursor - 1, self.cursor);
            self.cursor = self.cursor - 1;
        }
    }

    /// Removes the character at the cursor, leaving the cursor in place;
    /// a no-op when the cursor is at the end.
    pub fn delete_forward(&mut self)
        requires
            old(self).inv(),
        ensures
            final(self).inv(),
            final(self)@ == delete_forward_step(old(self)@),
    {
        let len = rope_len_chars(&self.content);
        if self.cursor < len {
            rope_remove(&mut self.content, self.cursor, self.cursor + 1);
        }
    }

    /// Moves the cursor one character left; a no-op at the start.
    pub fn move_left(&mut self)
        requires
            old(self).inv(),
        ensures
            final(self).inv(),
            final(self)@ == move_left_step(old(self)@),
    {
        if self.cursor > 0 {
            self.cursor = self.cursor - 1;
        }
    }

    /// Moves the cursor one character right; a no-op at the end.
    pub fn move_right(&mut self)
        requires
            old(self).inv(),
        ensures
            final(self).inv(),
            final(self)@ == move_right_step(old(self)@),
    {
        let len = rope_len_chars(&self.content);
        if self.cursor < len {
            self.cursor = self.cursor + 1;
        }
    }

    /// Moves the cursor to the start of the buffer.
    pub fn move_home(&mut self)
        requires
            old(self).inv(),
        ensures
            final(self).inv(),
            final(self)@ == move_home_step(old(self)@),
    {
        self.cursor = 0;
    }

    /// Moves the cursor to the end of the buffer.
    pub fn move_end(&mut self)
        requires
            old(self).inv(),
        ensures
            final(self).inv(),
            final(self)@ == move_end_step(old(self)@),
    {
        self.cursor = rope_len_chars(&self.content);
    }

    /// The current content as one contiguous string together with the
    /// cursor offset, for the renderer. Read-only.
    pub fn snapshot(&self) -> (r: (String, usize))
        ensures
            r.0@ == self@.text,
            r.1 == self@.cursor,
    {
        (rope_to_string(&self.content), self.cursor)
    }

    /// The cursor offset, in characters.
    pub fn cursor_position(&self) -> (r: usize)
        ensures
            r == self@.cursor,
    {
        self.cursor
    }
}

/// Law: every operation keeps the cursor within `0 ..= len(content)`.
/// Stated over the transition functions, which every buffer operation's
/// contract uses, so it covers insertion of any text as well as each
/// deletion and movement.
pub proof fn lemma_steps_preserve_wf(v: BufferView, text: Seq<char>)
    requires
        v.wf(),
    ensures
        insert_step(v, text).wf(),
        backspace_step(v).wf(),
        delete_forward_step(v).wf(),
        move_left_step(v).wf(),
        move_right_step(v).wf(),
        move_home_step(v).wf(),
        move_end_step(v).wf(),
{
}

/// Law: backspace on an empty buffer is a no-op; content and cursor are
/// unchanged.
pub proof fn lemma_backspace_on_empty_is_noop(v: BufferView)
    requires
        v.wf(),
        v.text.len() == 0,
    ensures
        backspace_step(v) == v,
{
}

/// Law: delete forward with the cursor at the end of the buffer is a
/// no-op.
pub proof fn lemma_delete_forward_at_end_is_noop(v: BufferView)
    requires
        v.wf(),
        v.cursor == v.text.len(),
    ensures
        delete_forward_step(v) == v,
{
}

/// Law: moving left with the cursor at the start of the buffer is a no-op.
pub proof fn lemma_move_left_at_start_is_noop(v: BufferView)
    requires
        v.wf(),
        v.cursor == 0,
    ensures
        move_left_step(v) == v,
{
}

/// Law: moving right with the cursor at the end of the buffer is a no-op.
pub proof fn lemma_move_right_at_end_is_noop(v: BufferView)
    requires
        v.wf(),
        v.cursor == v.text.len(),
    ensures
        move_right_step(v) == v,
{
}

/// Law: inserting a single character and then backspacing returns content
/// and cursor to their values before the insertion.
pub proof fn lemma_insert_then_backspace_is_identity(v: BufferView, c: char)
    requires
        v.wf(),
    ensures
        backspace_step(insert_step(v, seq![c])) == v,
{
    let w = insert_step(v, seq![c]);
    let u = backspace_step(w);
    assert(u.text =~= v.text);
}

} // verus!
