//! The editable text container: indexed insert and delete, line and
//! coordinate queries, and word-boundary scans, all specified against the
//! buffer's view as a `Seq<char>`.

use vstd::prelude::*;

use crate::rope::{
    rope_char, rope_from_str, rope_insert_char, rope_len_chars, rope_new, rope_remove,
    rope_text, rope_to_string,
};
use crate::text;

verus! {

/// The buffer of the editor: a rope of characters. Lines are implicit,
/// delimited by `'\n'`; every index in `[0, size]` is a valid cursor
/// position.
pub struct Buffer {
    rope: ropey::Rope,
}

/// How a single character is removed relative to the cursor: `Backspace`
/// takes the character before it, `Delete` the character at it.
#[derive(Clone, Copy, Debug, PartialEq, Eq, Structural)]
pub enum DeletionMode {
    Delete,
    Backspace,
}

impl View for Buffer {
    type V = Seq<char>;

    closed spec fn view(&self) -> Seq<char> {
        rope_text(self.rope)
    }
}

impl Default for Buffer {
    /// An empty buffer.
    fn default() -> (b: Buffer)
        ensures
            b@ == Seq::<char>::empty(),
    {
        Buffer { rope: rope_new() }
    }
}

impl Buffer {
    /// Creates a buffer holding the characters of `text`.
    pub fn new(text: &str) -> (b: Buffer)
        ensures
            b@ == text@,
    {
        Buffer { rope: rope_from_str(text) }
    }

    /// The number of characters in the buffer.
    pub fn size(&self) -> (n: usize)
        ensures
            n == self@.len(),
    {
        rope_len_chars(&self.rope)
    }

    /// The character at position `index`.
    pub fn char_at(&self, index: usize) -> (c: char)
        requires
            index < self@.len(),
        ensures
            c == self@[index as int],
    {
        rope_char(&self.rope, index)
    }

    /// Copies the buffer's content into an owned `String`: the snapshot that
    /// is handed off for persistence.
    pub fn to_text(&self) -> (s: String)
        ensures
            s@ == self@,
    {
        rope_to_string(&self.rope)
    }

    /// Inserts `character` before position `index`, shifting all subsequent
    /// positions forward by one. An `index` outside `[0, size]` is a contract
    /// violation: the caller must clamp first.
    pub fn insert(&mut self, index: usize, character: char)
        requires
            index <= old(self)@.len(),
        ensures
            final(self)@ == old(self)@.insert(index as int, character),
    {
        rope_insert_char(&mut self.rope, index, character);
    }

    /// The screen coordinate `(col, row)` of buffer position `index`: `row`
    /// counts the newlines strictly before `index`, `col` is the distance
    /// from the start of its line. `None` exactly when `index` is past the
    /// end of the buffer.
    pub fn cursor_coord(&self, index: usize) -> (r: Option<(usize, usize)>)
        ensures
            (match r {
                Some(coord) => index <= self@.len() && coord.0 == text::col_of(
                    self@,
                    index as int,
                ) && coord.1 == text::newlines_before(self@, index as int),
                None => index > self@.len(),
            }),
    {
        let ghost s = self@;
        if index > self.size() {
            return None;
        }
        let mut row: usize = 0;
        let mut line_start_pos: usize = 0;
        let mut j: usize = 0;
        while j < index
            invariant
                s == self@,
                j <= index,
                index <= s.len(),
                row == text::newlines_before(s, j as int),
                line_start_pos == text::line_start_before(s, j as int),
                row <= j,
                line_start_pos <= j,
            decreases index - j,
        {
            let c = self.char_at(j);
            if c == '\n' {
                row = row + 1;
                line_start_pos = j + 1;
            }
            j = j + 1;
        }
        Some((index - line_start_pos, row))
    }

    /// The number of lines in the buffer: one more than its newline count.
    pub fn line_count(&self) -> (n: usize)
        requires
            self@.len() < usize::MAX,
        ensures
            n == text::line_count(self@),
    {
        let ghost s = self@;
        let size = self.size();
        let mut count: usize = 0;
        let mut j: usize = 0;
        while j < size
            invariant
                s == self@,
                j <= size,
                size == s.len(),
                count == text::newlines_before(s, j as int),
                count <= j,
            decreases size - j,
        {
            if self.char_at(j) == '\n' {
                count = count + 1;
            }
            j = j + 1;
        }
        count + 1
    }

    /// The buffer position where line `line` starts.
    pub fn line_start_index(&self, line: usize) -> (r: usize)
        requires
            (line as int) < text::line_count(self@),
        ensures
            r == text::line_start(self@, line as int),
            r <= self@.len(),
    {
        let ghost s = self@;
        let size = self.size();
        let mut count: usize = 0;
        let mut j: usize = 0;
        while count < line
            invariant
                s == self@,
                size == s.len(),
                j <= size,
                count <= line,
                (line as int) < text::line_count(s),
                count == text::newlines_before(s, j as int),
                j == 0 || s[j as int - 1] == '\n' || count < line,
            decreases size - j,
        {
            proof {
                // There are still newlines ahead, so `j` has not hit the end.
                text::lemma_newlines_before_monotone(s, j as int, s.len() as int);
            }
            if self.char_at(j) == '\n' {
                count = count + 1;
            }
            j = j + 1;
        }
        proof {
            text::lemma_line_start_of_row(s, j as int);
        }
        j
    }

    /// The length of line `line`, excluding its terminating newline (if any).
    /// A `line` at or past `line_count` is a contract violation: the caller
    /// must bound-check first.
    pub fn line_len(&self, line: usize) -> (n: usize)
        requires
            (line as int) < text::line_count(self@),
        ensures
            n == text::line_len(self@, line as int),
    {
        let ghost s = self@;
        let start = self.line_start_index(line);
        let size = self.size();
        let mut j: usize = start;
        while j < size && self.char_at(j) != '\n'
            invariant
                s == self@,
                size == s.len(),
                start <= j <= size,
                start == text::line_start(s, line as int),
                forall|k: int| start <= k < j ==> s[k] != '\n',
            decreases size - j,
        {
            j = j + 1;
        }
        proof {
            text::lemma_next_newline_unique(s, start as int, j as int);
        }
        j - start
    }

    /// The buffer position of the first character of the word ending at or
    /// before `index`: scanning backward, the whitespace run immediately
    /// before `index` is skipped, then the word before it.
    pub fn start_of_word(&self, index: usize) -> (r: usize)
        requires
            index <= self@.len(),
        ensures
            r == text::start_of_word(self@, index as int),
    {
        let ghost s = self@;
        let mut j: usize = index;
        while j > 0 && text::check_whitespace(self.char_at(j - 1))
            invariant
                s == self@,
                j <= index,
                index <= s.len(),
                text::skip_whitespace_back(s, j as int) == text::skip_whitespace_back(
                    s,
                    index as int,
                ),
            decreases j,
        {
            j = j - 1;
        }
        while j > 0 && !text::check_whitespace(self.char_at(j - 1))
            invariant
                s == self@,
                j <= index,
                index <= s.len(),
                text::skip_word_back(s, j as int) == text::skip_word_back(
                    s,
                    text::skip_whitespace_back(s, index as int),
                ),
            decreases j,
        {
            j = j - 1;
        }
        j
    }

    /// The buffer position just after the word starting at or after `index`:
    /// scanning forward, the whitespace run at `index` is skipped, then the
    /// word, landing on the first whitespace character after it or on the
    /// end of the buffer. An `index` at or past the end is returned
    /// unchanged.
    pub fn end_of_word(&self, index: usize) -> (r: usize)
        ensures
            r == text::end_of_word(self@, index as int),
    {
        let ghost s = self@;
        let size = self.size();
        if index >= size {
            return index;
        }
        let mut j: usize = index;
        while j < size && text::check_whitespace(self.char_at(j))
            invariant
                s == self@,
                size == s.len(),
                index <= j <= size,
                text::skip_whitespace_fwd(s, j as int) == text::skip_whitespace_fwd(
                    s,
                    index as int,
                ),
            decreases size - j,
        {
            j = j + 1;
        }
        while j < size && !text::check_whitespace(self.char_at(j))
            invariant
                s == self@,
                size == s.len(),
                index <= j <= size,
                text::skip_word_fwd(s, j as int) == text::skip_word_fwd(
                    s,
                    text::skip_whitespace_fwd(s, index as int),
                ),
            decreases size - j,
        {
            j = j + 1;
        }
        j
    }

    /// Removes the characters of `range`, shifting subsequent positions back
    /// by the range's length. A range that is empty, reversed, or not fully
    /// inside `[0, size]` is a no-op.
    pub fn delete(&mut self, range: core::ops::Range<usize>)
        ensures
            final(self)@ == text::remove_range(old(self)@, range.start as int, range.end as int),
            range.start >= range.end || range.end > old(self)@.len() ==> final(self)@ == old(
                self,
            )@,
    {
        let start = range.start;
        let end = range.end;
        if start < end && end <= self.size() {
            rope_remove(&mut self.rope, start, end);
        }
    }
}

/// Round trip of the two edit operations: inserting a character before a
/// valid position `i` and then deleting the range `i..i + 1` restores the
/// buffer content, for any content `s`, position `i`, and character `c`.
pub proof fn lemma_insert_then_delete_round_trip(s: Seq<char>, i: int, c: char)
    requires
        0 <= i <= s.len(),
    ensures
        text::remove_range(s.insert(i, c), i, i + 1) == s,
{
    let inserted = s.insert(i, c);
    assert(text::remove_range(inserted, i, i + 1) =~= s);
}

} // verus!
