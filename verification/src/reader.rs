//! A cursor over source text.
//!
//! The reader owns a buffer of characters and a state: the char offset of the
//! cursor and the line/column position. The state is a plain value with
//! snapshot semantics: a parser may save it and later restore it exactly,
//! undoing all consumption.

use vstd::prelude::*;

use crate::error::Pos;

verus! {

/// The saved position of a reader: char offset plus line/column.
#[derive(Clone, Copy, PartialEq, Eq, Structural, Debug)]
pub struct ReaderState {
    pub cursor: usize,
    pub pos: Pos,
}

/// A reader state is valid for an input when the cursor is in bounds and the
/// line/column counters are consistent with the number of characters read, so
/// that advancing them can never overflow.
pub open spec fn valid_state(st: ReaderState, input: Seq<char>) -> bool {
    &&& st.cursor <= input.len()
    &&& input.len() + 2 <= usize::MAX
    &&& st.pos.line >= 1
    &&& st.pos.column >= 1
    &&& st.pos.line + st.pos.column <= st.cursor + 2
}

/// The state after consuming one character: the cursor advances by one, and
/// the position moves to the next line or the next column.
pub open spec fn advanced(st: ReaderState, c: char) -> ReaderState {
    ReaderState {
        cursor: (st.cursor + 1) as usize,
        pos: if c == '\n' {
            Pos { line: (st.pos.line + 1) as usize, column: 1 }
        } else {
            Pos { line: st.pos.line, column: (st.pos.column + 1) as usize }
        },
    }
}

/// A cursor over source text.
pub struct Reader {
    pub buffer: Vec<char>,
    pub state: ReaderState,
}

impl Reader {
    /// The reader is well formed: its state is valid for its buffer.
    pub open spec fn wf(&self) -> bool {
        valid_state(self.state, self.buffer@)
    }

    /// A fresh reader at offset 0, line 1, column 1.
    pub fn new(buffer: Vec<char>) -> (r: Reader)
        requires
            buffer@.len() + 2 <= usize::MAX,
        ensures
            r.wf(),
            r.buffer@ == buffer@,
            r.state == (ReaderState { cursor: 0, pos: Pos { line: 1, column: 1 } }),
    {
        Reader { buffer, state: ReaderState { cursor: 0, pos: Pos { line: 1, column: 1 } } }
    }

    /// Whether the cursor is at (or past) the end of the input.
    pub fn is_eof(&self) -> (r: bool)
        ensures
            r == (self.state.cursor >= self.buffer@.len()),
    {
        self.state.cursor >= self.buffer.len()
    }

    /// The character at the cursor, without consuming it.
    pub fn peek(&self) -> (c: char)
        requires
            self.state.cursor < self.buffer@.len(),
        ensures
            c == self.buffer@[self.state.cursor as int],
    {
        self.buffer[self.state.cursor]
    }

    /// Consumes and returns the character at the cursor.
    pub fn read(&mut self) -> (c: char)
        requires
            old(self).wf(),
            old(self).state.cursor < old(self).buffer@.len(),
        ensures
            final(self).wf(),
            final(self).buffer@ == old(self).buffer@,
            c == old(self).buffer@[old(self).state.cursor as int],
            final(self).state == advanced(old(self).state, c),
    {
        let c = self.buffer[self.state.cursor];
        self.state.cursor = self.state.cursor + 1;
        if c == '\n' {
            self.state.pos.line = self.state.pos.line + 1;
            self.state.pos.column = 1;
        } else {
            self.state.pos.column = self.state.pos.column + 1;
        }
        c
    }
}

} // verus!
