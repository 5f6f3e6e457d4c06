//! The editing session: the buffer and the cursor tracking it, and the
//! dispatch from logical commands (as decoded from key presses) to edits and
//! movements, each with its exact effect on buffer and cursor.

use vstd::prelude::*;

use crate::buffer::{Buffer, DeletionMode};
use crate::cursor::CursorPosition;
use crate::text;

verus! {

/// A logical editing command, as the event dispatcher decodes it from a key
/// press.
#[derive(Clone, Copy, Debug)]
pub enum Command {
    MoveUp,
    MoveDown,
    MoveLeft,
    MoveRight,
    MoveWordLeft,
    MoveWordRight,
    Insert(char),
    Backspace,
    Delete,
    DeleteWord,
    Save,
    Exit,
}

/// What the shell around the editor must do after a command was applied.
#[derive(Debug)]
pub enum Action {
    /// Only the cursor moved: reposition it on screen.
    CursorMoved,
    /// The buffer changed: redraw the frame and the cursor.
    Edited,
    /// Write this snapshot of the buffer to stable storage.
    Persist(String),
    /// Close the terminal and end the session.
    Quit,
}

/// The state of the editing session. There is one instance per open
/// document; every command mutates it in place.
pub struct Editor {
    buffer: Buffer,
    cursor: CursorPosition,
}

impl Editor {
    /// The buffer content.
    pub closed spec fn text(&self) -> Seq<char> {
        self.buffer@
    }

    /// The cursor's buffer index.
    pub closed spec fn cursor_at(&self) -> int {
        self.cursor.spec_index()
    }

    /// The cursor as a value, for contracts over its coordinate.
    pub closed spec fn spec_cursor(&self) -> CursorPosition {
        self.cursor
    }

    /// The session invariant: the editor's index is the cursor's own, and
    /// the cursor is consistent with the buffer.
    pub open spec fn wf(&self) -> bool {
        &&& self.cursor_at() == self.spec_cursor().spec_index()
        &&& self.spec_cursor().valid_for(self.text())
    }

    /// Opens a session on `content`, with the cursor at the start: index 0,
    /// column 0, row 0.
    pub fn new(content: &str) -> (e: Editor)
        ensures
            e.wf(),
            e.text() == content@,
            e.cursor_at() == 0,
            e.spec_cursor().spec_col() == 0,
            e.spec_cursor().spec_row() == 0,
    {
        let buffer = Buffer::new(content);
        let cursor = CursorPosition::default();
        Editor { buffer, cursor }
    }

    /// Returns the cursor.
    pub fn cursor(&self) -> (c: &CursorPosition)
        ensures
            *c == self.spec_cursor(),
    {
        &self.cursor
    }

    /// Returns the cursor's buffer index.
    pub fn cursor_index(&self) -> (i: usize)
        ensures
            i == self.cursor_at(),
    {
        self.cursor.index()
    }

    /// The number of characters in the buffer.
    pub fn text_size(&self) -> (n: usize)
        ensures
            n == self.text().len(),
    {
        self.buffer.size()
    }

    /// Copies the buffer content into an owned `String`: the immutable
    /// snapshot handed off for persistence or drawing.
    pub fn snapshot(&self) -> (s: String)
        ensures
            s@ == self.text(),
    {
        self.buffer.to_text()
    }

    /// Inserts `character` at the cursor and advances the cursor past it.
    pub fn insert_char(&mut self, character: char)
        requires
            old(self).wf(),
            old(self).text().len() < usize::MAX,
        ensures
            final(self).wf(),
            final(self).text() == old(self).text().insert(old(self).cursor_at(), character),
            final(self).cursor_at() == old(self).cursor_at() + 1,
    {
        let idx = self.cursor.index();
        self.buffer.insert(idx, character);
        self.cursor.move_right(&self.buffer);
    }

    /// Removes one character next to the cursor: for `Backspace` the one
    /// before it (a no-op at the buffer start), for `Delete` the one at it
    /// (a no-op at the buffer end).
    pub fn remove_char(&mut self, deletion_mode: DeletionMode)
        requires
            old(self).wf(),
            old(self).text().len() < usize::MAX,
        ensures
            final(self).wf(),
            deletion_mode == DeletionMode::Backspace && old(self).cursor_at() == 0 ==> final(self).text()
                == old(self).text() && final(self).spec_cursor() == old(self).spec_cursor(),
            deletion_mode == DeletionMode::Backspace && old(self).cursor_at() > 0 ==> final(self).text()
                == text::remove_range(
                old(self).text(),
                old(self).cursor_at() - 1,
                old(self).cursor_at(),
            ) && final(self).cursor_at() == old(self).cursor_at() - 1,
            deletion_mode == DeletionMode::Delete ==> final(self).text() == text::remove_range(
                old(self).text(),
                old(self).cursor_at(),
                old(self).cursor_at() + 1,
            ) && final(self).cursor_at() == old(self).cursor_at(),
    {
        let idx = self.cursor.index();
        match deletion_mode {
            DeletionMode::Backspace => {
                if idx == 0 {
                    return;
                }
                self.buffer.delete(idx - 1..idx);
                self.cursor.set_index(&self.buffer, idx - 1);
            },
            DeletionMode::Delete => {
                self.buffer.delete(idx..idx + 1);
                self.cursor.set_index(&self.buffer, idx);
            },
        }
    }

    /// Removes the word ending at the cursor (with any whitespace run
    /// between it and the cursor) and leaves the cursor at its start.
    pub fn remove_word(&mut self)
        requires
            old(self).wf(),
        ensures
            final(self).wf(),
            final(self).text() == text::remove_range(
                old(self).text(),
                text::start_of_word(old(self).text(), old(self).cursor_at()),
                old(self).cursor_at(),
            ),
            final(self).cursor_at() == text::start_of_word(old(self).text(), old(self).cursor_at()),
    {
        let ghost s = self.text();
        let idx = self.cursor.index();
        let word_start = self.buffer.start_of_word(idx);
        proof {
            text::lemma_start_of_word_bounds(s, idx as int);
        }
        self.buffer.delete(word_start..idx);
        self.cursor.set_index(&self.buffer, word_start);
    }

    /// Applies one logical command and reports what the shell must do next.
    /// Movement commands leave the text unchanged; edits change it exactly
    /// as the corresponding method does; `Save` hands out a snapshot and
    /// `Exit` asks the shell to close, neither touching the session.
    pub fn handle_command(&mut self, command: Command) -> (action: Action)
        requires
            old(self).wf(),
            old(self).text().len() < usize::MAX,
        ensures
            final(self).wf(),
            command is MoveUp ==> final(self).text() == old(self).text() && final(self).cursor_at()
                == text::index_after_up(old(self).text(), old(self).cursor_at()) && action is CursorMoved,
            command is MoveDown ==> final(self).text() == old(self).text() && final(self).cursor_at() == text::index_after_down(old(self).text(), old(self).cursor_at())
                && action is CursorMoved,
            command is MoveLeft ==> final(self).text() == old(self).text() && final(self).cursor_at() == (if old(self).cursor_at() > 0 {
                old(self).cursor_at() - 1
            } else {
                0int
            }) && action is CursorMoved,
            command is MoveRight ==> final(self).text() == old(self).text() && final(self).cursor_at() == (if old(self).cursor_at() < old(self).text().len() {
                old(self).cursor_at() + 1
            } else {
                old(self).cursor_at()
            }) && action is CursorMoved,
            command is MoveWordLeft ==> final(self).text() == old(self).text() && final(self).cursor_at() == text::start_of_word(old(self).text(), old(self).cursor_at())
                && action is CursorMoved,
            command is MoveWordRight ==> final(self).text() == old(self).text() && final(self).cursor_at() == text::end_of_word(old(self).text(), old(self).cursor_at())
                && action is CursorMoved,
            command matches Command::Insert(c) ==> final(self).text() == old(self).text().insert(
                old(self).cursor_at(),
                c,
            ) && final(self).cursor_at() == old(self).cursor_at() + 1 && action is Edited,
            command is Backspace && old(self).cursor_at() == 0 ==> final(self).text() == old(self).text() && final(self).cursor_at() == old(self).cursor_at() && action is Edited,
            command is Backspace && old(self).cursor_at() > 0 ==> final(self).text()
                == text::remove_range(
                old(self).text(),
                old(self).cursor_at() - 1,
                old(self).cursor_at(),
            ) && final(self).cursor_at() == old(self).cursor_at() - 1 && action is Edited,
            command is Delete ==> final(self).text() == text::remove_range(
                old(self).text(),
                old(self).cursor_at(),
                old(self).cursor_at() + 1,
            ) && final(self).cursor_at() == old(self).cursor_at() && action is Edited,
            command is DeleteWord ==> final(self).text() == text::remove_range(
                old(self).text(),
                text::start_of_word(old(self).text(), old(self).cursor_at()),
                old(self).cursor_at(),
            ) && final(self).cursor_at() == text::start_of_word(
                old(self).text(),
                old(self).cursor_at(),
            ) && action is Edited,
            command is Save ==> final(self).text() == old(self).text() && final(self).spec_cursor()
                == old(self).spec_cursor() && (action matches Action::Persist(snap)
                && snap@ == old(self).text()),
            command is Exit ==> final(self).text() == old(self).text() && final(self).spec_cursor()
                == old(self).spec_cursor() && action is Quit,
    {
        match command {
            Command::MoveUp => {
                self.cursor.move_up(&self.buffer);
                Action::CursorMoved
            },
            Command::MoveDown => {
                self.cursor.move_down(&self.buffer);
                Action::CursorMoved
            },
            Command::MoveLeft => {
                self.cursor.move_left(&self.buffer);
                Action::CursorMoved
            },
            Command::MoveRight => {
                self.cursor.move_right(&self.buffer);
                Action::CursorMoved
            },
            Command::MoveWordLeft => {
                self.cursor.move_word_left(&self.buffer);
                Action::CursorMoved
            },
            Command::MoveWordRight => {
                self.cursor.move_word_right(&self.buffer);
                Action::CursorMoved
            },
            Command::Insert(c) => {
                self.insert_char(c);
                Action::Edited
            },
            Command::Backspace => {
                self.remove_char(DeletionMode::Backspace);
                Action::Edited
            },
            Command::Delete => {
                self.remove_char(DeletionMode::Delete);
                Action::Edited
            },
            Command::DeleteWord => {
                self.remove_word();
                Action::Edited
            },
            Command::Save => Action::Persist(self.snapshot()),
            Command::Exit => Action::Quit,
        }
    }
}

} // verus!
