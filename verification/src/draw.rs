//! Drawing operations and the text that carries them to the terminal.

use vstd::prelude::*;
use vstd::string::StringExecFns;
use crate::ansi;

verus! {

/// One drawing operation.
pub enum Op {
    /// Erase the whole screen.
    ClearAll,
    /// Erase from the cursor to the end of the screen.
    ClearAfterCursor,
    /// Erase the row of the cursor.
    ClearCurrentLine,
    /// Remember the cursor position.
    SaveCursor,
    /// Move the cursor to a column and a row, both counted from one.
    Goto { col: u16, row: u16 },
    /// Scroll the screen up by one row.
    ScrollUp,
    /// Move the cursor left by one cell.
    CursorLeft,
    /// Write text at the cursor.
    Text(Seq<char>),
}

/// The text that carries `op`.
pub open spec fn encode(op: Op) -> Seq<char> {
    match op {
        Op::ClearAll => ansi::clear_all_text(),
        Op::ClearAfterCursor => ansi::clear_after_cursor_text(),
        Op::ClearCurrentLine => ansi::clear_current_line_text(),
        Op::SaveCursor => ansi::save_cursor_text(),
        Op::Goto { col, row } => ansi::goto_text(col, row),
        Op::ScrollUp => ansi::scroll_up_text(1),
        Op::CursorLeft => ansi::cursor_left_text(1),
        Op::Text(text) => text,
    }
}

/// The text that carries `ops`, one after the other.
pub open spec fn encode_all(ops: Seq<Op>) -> Seq<char>
    decreases ops.len(),
{
    if ops.len() == 0 {
        Seq::empty()
    } else {
        encode_all(ops.drop_last()) + encode(ops.last())
    }
}

/// Adding one operation adds its text.
pub proof fn lemma_encode_push(ops: Seq<Op>, op: Op)
    ensures
        encode_all(ops.push(op)) == encode_all(ops) + encode(op),
{
    assert(ops.push(op).drop_last() == ops);
}

/// The text of two runs of operations is the text of the first followed by
/// the text of the second.
pub proof fn lemma_encode_concat(first: Seq<Op>, second: Seq<Op>)
    ensures
        encode_all(first + second) == encode_all(first) + encode_all(second),
    decreases second.len(),
{
    if second.len() == 0 {
        assert(first + second == first);
        assert(encode_all(first) + Seq::<char>::empty() == encode_all(first));
    } else {
        lemma_encode_concat(first, second.drop_last());
        assert((first + second).drop_last() == first + second.drop_last());
        assert((first + second).last() == second.last());
        assert(encode_all(first) + encode_all(second.drop_last()) + encode(second.last())
            == encode_all(first) + (encode_all(second.drop_last()) + encode(second.last())));
    }
}

/// Text under construction, together with the operations it carries.
pub(crate) struct Draw {
    pub(crate) out: String,
    pub(crate) ops: Ghost<Seq<Op>>,
}

impl Draw {
    /// The text is that of the operations.
    pub(crate) open spec fn wf(&self) -> bool {
        self.out@ == encode_all(self.ops@)
    }

    /// Nothing drawn yet.
    pub(crate) fn new() -> (d: Draw)
        ensures
            d.wf(),
            d.ops@ == Seq::<Op>::empty(),
    {
        Draw { out: String::new(), ops: Ghost(Seq::empty()) }
    }

    /// Adds `op`, which `piece` carries.
    fn emit(&mut self, piece: &str, Ghost(op): Ghost<Op>)
        requires
            old(self).wf(),
            piece@ == encode(op),
        ensures
            final(self).wf(),
            final(self).ops@ == old(self).ops@.push(op),
    {
        proof {
            lemma_encode_push(self.ops@, op);
        }
        self.out.append(piece);
        self.ops = Ghost(self.ops@.push(op));
    }

    /// Adds `Op::ClearAll`.
    pub(crate) fn clear_all(&mut self)
        requires
            old(self).wf(),
        ensures
            final(self).wf(),
            final(self).ops@ == old(self).ops@.push(Op::ClearAll),
    {
        let piece = ansi::clear_all();
        self.emit(piece.as_str(), Ghost(Op::ClearAll));
    }

    /// Adds `Op::ClearAfterCursor`.
    pub(crate) fn clear_after_cursor(&mut self)
        requires
            old(self).wf(),
        ensures
            final(self).wf(),
            final(self).ops@ == old(self).ops@.push(Op::ClearAfterCursor),
    {
        let piece = ansi::clear_after_cursor();
        self.emit(piece.as_str(), Ghost(Op::ClearAfterCursor));
    }

    /// Adds `Op::ClearCurrentLine`.
    pub(crate) fn clear_current_line(&mut self)
        requires
            old(self).wf(),
        ensures
            final(self).wf(),
            final(self).ops@ == old(self).ops@.push(Op::ClearCurrentLine),
    {
        let piece = ansi::clear_current_line();
        self.emit(piece.as_str(), Ghost(Op::ClearCurrentLine));
    }

    /// Adds `Op::SaveCursor`.
    pub(crate) fn save_cursor(&mut self)
        requires
            old(self).wf(),
        ensures
            final(self).wf(),
            final(self).ops@ == old(self).ops@.push(Op::SaveCursor),
    {
        let piece = ansi::save_cursor();
        self.emit(piece.as_str(), Ghost(Op::SaveCursor));
    }

    /// Adds `Op::Goto`.
    pub(crate) fn goto(&mut self, col: u16, row: u16)
        requires
            old(self).wf(),
            col != 0 || row != 0,
        ensures
            final(self).wf(),
            final(self).ops@ == old(self).ops@.push(Op::Goto { col, row }),
    {
        let piece = ansi::goto(col, row);
        self.emit(piece.as_str(), Ghost(Op::Goto { col, row }));
    }

    /// Adds `Op::ScrollUp`.
    pub(crate) fn scroll_up(&mut self)
        requires
            old(self).wf(),
        ensures
            final(self).wf(),
            final(self).ops@ == old(self).ops@.push(Op::ScrollUp),
    {
        let piece = ansi::scroll_up(1);
        self.emit(piece.as_str(), Ghost(Op::ScrollUp));
    }

    /// Adds `Op::CursorLeft`.
    pub(crate) fn cursor_left(&mut self)
        requires
            old(self).wf(),
        ensures
            final(self).wf(),
            final(self).ops@ == old(self).ops@.push(Op::CursorLeft),
    {
        let piece = ansi::cursor_left(1);
        self.emit(piece.as_str(), Ghost(Op::CursorLeft));
    }

    /// Adds `Op::Text`.
    pub(crate) fn text(&mut self, text: &str)
        requires
            old(self).wf(),
        ensures
            final(self).wf(),
            final(self).ops@ == old(self).ops@.push(Op::Text(text@)),
    {
        self.emit(text, Ghost(Op::Text(text@)));
    }

    /// The finished text.
    pub(crate) fn finish(self) -> (out: String)
        requires
            self.wf(),
        ensures
            out@ == encode_all(self.ops@),
    {
        self.out
    }
}

} // verus!
