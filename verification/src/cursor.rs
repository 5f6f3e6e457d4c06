//! The cursor: a canonical buffer index together with the screen coordinate
//! derived from it. Every movement command recomputes the coordinate, so
//! between calls the triple is always consistent with the buffer it tracks.

use vstd::prelude::*;

use crate::buffer::Buffer;
use crate::text;

verus! {

/// The position of the cursor: `buffer_index` is canonical, `(x, y)` is the
/// derived column and row.
pub struct CursorPosition {
    buffer_index: usize,
    x: usize,
    y: usize,
}

impl Default for CursorPosition {
    /// The cursor at the start of the buffer.
    fn default() -> (c: CursorPosition)
        ensures
            c.spec_index() == 0,
            c.spec_col() == 0,
            c.spec_row() == 0,
    {
        CursorPosition { buffer_index: 0, x: 0, y: 0 }
    }
}

impl CursorPosition {
    /// The canonical buffer index.
    pub closed spec fn spec_index(&self) -> int {
        self.buffer_index as int
    }

    /// The derived column.
    pub closed spec fn spec_col(&self) -> int {
        self.x as int
    }

    /// The derived row.
    pub closed spec fn spec_row(&self) -> int {
        self.y as int
    }

    /// The cursor's invariant against the buffer content `s`: the index is a
    /// valid position and the coordinate is the one derived from it.
    pub open spec fn valid_for(&self, s: Seq<char>) -> bool {
        &&& 0 <= self.spec_index() <= s.len()
        &&& self.spec_row() == text::newlines_before(s, self.spec_index())
        &&& self.spec_col() == text::col_of(s, self.spec_index())
    }

    /// Returns the cursor's buffer index.
    pub fn index(&self) -> (i: usize)
        ensures
            i == self.spec_index(),
    {
        self.buffer_index
    }

    /// Returns the cursor's column.
    pub fn col(&self) -> (c: usize)
        ensures
            c == self.spec_col(),
    {
        self.x
    }

    /// Returns the cursor's row.
    pub fn row(&self) -> (r: usize)
        ensures
            r == self.spec_row(),
    {
        self.y
    }

    /// Recomputes the derived coordinate from the current buffer index.
    fn update_coords(&mut self, buffer: &Buffer)
        requires
            old(self).spec_index() <= buffer@.len(),
        ensures
            final(self).spec_index() == old(self).spec_index(),
            final(self).valid_for(buffer@),
    {
        match buffer.cursor_coord(self.buffer_index) {
            Some(coord) => {
                self.x = coord.0;
                self.y = coord.1;
            },
            None => {
                proof {
                    assert(false);
                }
            },
        }
    }

    /// Places the cursor at `index` and recomputes its coordinate.
    pub fn set_index(&mut self, buffer: &Buffer, index: usize)
        requires
            index <= buffer@.len(),
        ensures
            final(self).spec_index() == index,
            final(self).valid_for(buffer@),
    {
        self.buffer_index = index;
        self.update_coords(buffer);
    }

    /// Moves the cursor one position left, clamped to the buffer start.
    pub fn move_left(&mut self, buffer: &Buffer)
        requires
            old(self).spec_index() <= buffer@.len(),
        ensures
            final(self).valid_for(buffer@),
            final(self).spec_index() == if old(self).spec_index() > 0 {
                old(self).spec_index() - 1
            } else {
                0int
            },
    {
        if self.buffer_index > 0 {
            self.buffer_index = self.buffer_index - 1;
        }
        self.update_coords(buffer);
    }

    /// Moves the cursor one position right, clamped to the buffer end.
    pub fn move_right(&mut self, buffer: &Buffer)
        requires
            old(self).spec_index() <= buffer@.len(),
        ensures
            final(self).valid_for(buffer@),
            final(self).spec_index() == if old(self).spec_index() < buffer@.len() {
                old(self).spec_index() + 1
            } else {
                old(self).spec_index()
            },
    {
        if self.buffer_index < buffer.size() {
            self.buffer_index = self.buffer_index + 1;
        }
        self.update_coords(buffer);
    }

    /// Moves the cursor one row up, keeping the column when the row above is
    /// long enough, else moving to that row's end. On row 0 this is a no-op.
    pub fn move_up(&mut self, buffer: &Buffer)
        requires
            old(self).valid_for(buffer@),
        ensures
            final(self).valid_for(buffer@),
            final(self).spec_index() == text::index_after_up(buffer@, old(self).spec_index()),
    {
        let ghost s = buffer@;
        if self.y == 0 {
            return;
        }
        let target = self.y - 1;
        proof {
            text::lemma_newlines_before_monotone(s, self.spec_index(), s.len() as int);
        }
        let size = buffer.size();
        let target_start = buffer.line_start_index(target);
        let target_len = buffer.line_len(target);
        proof {
            text::lemma_line_len_bounds(s, target as int);
            assert(target_start + target_len <= size);
        }
        let new_index = if self.x <= target_len {
            target_start + self.x
        } else {
            target_start + target_len
        };
        self.buffer_index = new_index;
        self.update_coords(buffer);
    }

    /// Moves the cursor one row down, keeping the column when the row below
    /// is long enough, else moving to that row's end. On the last row this
    /// is a no-op.
    pub fn move_down(&mut self, buffer: &Buffer)
        requires
            old(self).valid_for(buffer@),
            buffer@.len() < usize::MAX,
        ensures
            final(self).valid_for(buffer@),
            final(self).spec_index() == text::index_after_down(buffer@, old(self).spec_index()),
    {
        let ghost s = buffer@;
        let count = buffer.line_count();
        proof {
            text::lemma_newlines_before_monotone(s, self.spec_index(), s.len() as int);
        }
        if self.y >= count - 1 {
            return;
        }
        let target = self.y + 1;
        let target_start = buffer.line_start_index(target);
        let target_len = buffer.line_len(target);
        proof {
            text::lemma_line_len_bounds(s, target as int);
        }
        let new_index = if self.x <= target_len {
            target_start + self.x
        } else {
            target_start + target_len
        };
        self.buffer_index = new_index;
        self.update_coords(buffer);
    }

    /// Moves the cursor to the start of the word ending at or before it.
    pub fn move_word_left(&mut self, buffer: &Buffer)
        requires
            old(self).spec_index() <= buffer@.len(),
        ensures
            final(self).valid_for(buffer@),
            final(self).spec_index() == text::start_of_word(buffer@, old(self).spec_index()),
    {
        let ghost s = buffer@;
        if self.buffer_index > 0 {
            let w = buffer.start_of_word(self.buffer_index);
            proof {
                text::lemma_start_of_word_bounds(s, self.spec_index());
            }
            self.buffer_index = w;
        }
        self.update_coords(buffer);
    }

    /// Moves the cursor past the end of the word starting at or after it.
    pub fn move_word_right(&mut self, buffer: &Buffer)
        requires
            old(self).spec_index() <= buffer@.len(),
        ensures
            final(self).valid_for(buffer@),
            final(self).spec_index() == text::end_of_word(buffer@, old(self).spec_index()),
    {
        let ghost s = buffer@;
        if self.buffer_index < buffer.size() {
            let w = buffer.end_of_word(self.buffer_index);
            proof {
                text::lemma_end_of_word_bounds(s, self.spec_index());
            }
            self.buffer_index = w;
        }
        self.update_coords(buffer);
    }
}

} // verus!
