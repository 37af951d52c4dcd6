//! The widget: a log that scrolls above one input row.

use vstd::prelude::*;
use crate::buffer::InputBuffer;
use crate::draw::{Draw, Op, encode_all};
use crate::error::ScrollerError;
use crate::key::{all_printable, is_printable, Key};
use crate::session::{TerminalSession, MIN_ROWS};

verus! {

/// What is drawn when the widget takes over the terminal: the screen is
/// erased and the cursor goes to the start of the bottom row.
pub open spec fn prepare_ops(rows: u16) -> Seq<Op> {
    Seq::empty().push(Op::ClearAll).push(Op::Goto { col: 1, row: rows })
}

/// What is drawn to append `line` to the log while `buffer` is the line in
/// progress: the screen scrolls up by one row, `line` is written into the
/// row above the bottom row, what the scroll left behind it is erased, and
/// `buffer` is written again into the bottom row.
pub open spec fn write_ops(rows: u16, buffer: Seq<char>, line: Seq<char>) -> Seq<Op> {
    Seq::empty()
        .push(Op::SaveCursor)
        .push(Op::ScrollUp)
        .push(Op::Goto { col: 1, row: (rows - 1) as u16 })
        .push(Op::Text(line))
        .push(Op::ClearAfterCursor)
        .push(Op::Goto { col: 1, row: rows })
        .push(Op::Text(buffer))
}

/// What is drawn for `key` while `buffer` is the line in progress.
///
/// - Enter erases the bottom row and leaves the cursor at its start.
/// - A printable character is written at the cursor.
/// - Backspace, if there is a character to remove, moves the cursor one cell
///   to the left and erases from there on.
/// - Any other key, and Backspace on an empty line, draws nothing.
pub open spec fn key_ops(rows: u16, buffer: Seq<char>, key: Key) -> Seq<Op> {
    if key.submits() {
        Seq::empty().push(Op::Goto { col: 1, row: rows }).push(Op::ClearCurrentLine)
    } else if key.types() {
        Seq::empty().push(Op::Text(seq![key->Char_0]))
    } else if key is Backspace && buffer.len() > 0 {
        Seq::empty().push(Op::CursorLeft).push(Op::ClearAfterCursor)
    } else {
        Seq::empty()
    }
}

/// The line in progress after `key`, if it was `buffer` before.
///
/// - Enter empties it.
/// - A printable character is added at the end.
/// - Backspace removes the last character, if there is one.
/// - Any other key, the interrupt key among them, leaves it as it is.
pub open spec fn key_edit(buffer: Seq<char>, key: Key) -> Seq<char> {
    if key.submits() {
        Seq::empty()
    } else if key.types() {
        buffer.push(key->Char_0)
    } else if key is Backspace && buffer.len() > 0 {
        buffer.drop_last()
    } else {
        buffer
    }
}

/// The line in progress after `keys`, pressed one after the other.
pub open spec fn keys_edit(buffer: Seq<char>, keys: Seq<Key>) -> Seq<char>
    decreases keys.len(),
{
    if keys.len() == 0 {
        buffer
    } else {
        key_edit(keys_edit(buffer, keys.drop_last()), keys.last())
    }
}

/// What is drawn for `keys`, pressed one after the other.
pub open spec fn keys_ops(rows: u16, buffer: Seq<char>, keys: Seq<Key>) -> Seq<Op>
    decreases keys.len(),
{
    if keys.len() == 0 {
        Seq::empty()
    } else {
        keys_ops(rows, buffer, keys.drop_last()) + key_ops(
            rows,
            keys_edit(buffer, keys.drop_last()),
            keys.last(),
        )
    }
}

/// Whether a read that is handed `keys` takes exactly the first `n` of them:
/// it takes key after key, and stops behind the first one that ends the read,
/// or when none is left.
pub open spec fn takes(keys: Seq<Key>, n: nat) -> bool {
    &&& n <= keys.len()
    &&& forall|i: int| 0 <= i < n - 1 ==> !(#[trigger] keys[i]).stops()
    &&& n < keys.len() ==> n > 0 && keys[n - 1].stops()
}

/// How a key press, or a run of them, ends.
#[derive(Debug, PartialEq, Eq)]
pub enum Outcome {
    /// The line is not complete yet.
    Pending,
    /// Enter was pressed: the completed line.
    Line(String),
    /// The interrupt key was pressed.
    Interrupted,
}

impl Outcome {
    /// Whether the line is not complete yet.
    pub fn is_pending(&self) -> (p: bool)
        ensures
            p == (self is Pending),
    {
        match self {
            Outcome::Pending => true,
            _ => false,
        }
    }
}

/// What a run of key presses came to.
#[derive(Debug, PartialEq, Eq)]
pub struct ReadStep {
    /// How many of the keys were taken.
    pub consumed: usize,
    /// The text to send to the terminal.
    pub draw: String,
    /// How the run ended.
    pub outcome: Outcome,
}

/// The state of a widget.
pub struct ScrollerView {
    /// The number of rows of the terminal.
    pub rows: u16,
    /// The line in progress.
    pub buffer: Seq<char>,
    /// Whether the terminal is still held.
    pub open: bool,
}

impl ScrollerView {
    /// The state after the terminal was given up: nothing but the hold on
    /// the terminal changes.
    pub open spec fn closed(self) -> ScrollerView {
        ScrollerView { open: false, ..self }
    }
}

/// A log that scrolls in the upper rows of a terminal, above one row in
/// which a line is typed.
pub struct Scroller {
    session: TerminalSession,
    buffer: InputBuffer,
}

impl View for Scroller {
    type V = ScrollerView;

    closed spec fn view(&self) -> ScrollerView {
        ScrollerView {
            rows: self.session.rows(),
            buffer: self.buffer@,
            open: self.session.is_open(),
        }
    }
}

impl Scroller {
    /// What holds of every widget: the terminal has a row for the log above
    /// the input row, and the line in progress holds printable characters
    /// only.
    pub open spec fn wf(&self) -> bool {
        self@.rows >= MIN_ROWS && all_printable(self@.buffer)
    }

    /// A widget for a terminal of `rows` rows, with an empty line in
    /// progress. A terminal of fewer than two rows is refused.
    pub fn new(rows: u16) -> (r: Result<Scroller, ScrollerError>)
        ensures
            rows < MIN_ROWS <==> r is Err,
            r matches Err(e) ==> e is IO,
            r matches Ok(s) ==> s@.rows == rows && s@.buffer == Seq::<char>::empty() && s@.open
                && s.wf(),
    {
        match TerminalSession::open(rows) {
            Ok(session) => Ok(Scroller { session, buffer: InputBuffer::new() }),
            Err(e) => Err(e),
        }
    }

    /// The number of rows of the terminal, which is never below two.
    pub fn rows(&self) -> (rows: u16)
        ensures
            rows == self@.rows,
            rows >= MIN_ROWS,
    {
        self.session.rows()
    }

    /// The line in progress.
    pub fn buffer(&self) -> (buffer: &InputBuffer)
        ensures
            buffer@ == self@.buffer,
    {
        &self.buffer
    }

    /// Whether the terminal is still held.
    pub fn is_open(&self) -> (open: bool)
        ensures
            open == self@.open,
    {
        self.session.is_open()
    }

    /// The text that takes over the terminal: see `prepare_ops`.
    pub fn prepare(&self) -> (out: String)
        ensures
            out@ == encode_all(prepare_ops(self@.rows)),
    {
        let mut d = Draw::new();
        d.clear_all();
        d.goto(1, self.session.rows());
        assert(d.ops@ == prepare_ops(self@.rows));
        d.finish()
    }

    /// The text that appends `line` to the log: see `write_ops`. The widget
    /// itself does not change.
    pub fn write(&self, line: &str) -> (out: String)
        ensures
            out@ == encode_all(write_ops(self@.rows, self@.buffer, line@)),
    {
        let rows: u16 = self.session.rows();
        let typed = self.buffer.snapshot();
        let mut d = Draw::new();
        d.save_cursor();
        d.scroll_up();
        d.goto(1, rows - 1);
        d.text(line);
        d.clear_after_cursor();
        d.goto(1, rows);
        d.text(typed.as_str());
        assert(d.ops@ == write_ops(self@.rows, self@.buffer, line@));
        d.finish()
    }

    /// Adds to `d` what is drawn for `key`.
    fn echo_into(&self, d: &mut Draw, key: Key)
        requires
            old(d).wf(),
        ensures
            final(d).wf(),
            final(d).ops@ == old(d).ops@ + key_ops(self@.rows, self@.buffer, key),
    {
        let ghost drawn = key_ops(self@.rows, self@.buffer, key);
        match key {
            Key::Char(c) => {
                if c == '\n' {
                    d.goto(1, self.session.rows());
                    d.clear_current_line();
                } else if is_printable(c) {
                    let mut cell = String::new();
                    cell.push(c);
                    d.text(cell.as_str());
                }
            },
            Key::Backspace => {
                if !self.buffer.is_empty() {
                    d.cursor_left();
                    d.clear_after_cursor();
                }
            },
            _ => {},
        }
        assert(d.ops@ =~= old(d).ops@ + drawn);
    }

    /// The text that shows `key` on the screen: see `key_ops`. The widget
    /// itself does not change; `press` makes the edit.
    pub fn echo(&self, key: Key) -> (out: String)
        ensures
            out@ == encode_all(key_ops(self@.rows, self@.buffer, key)),
    {
        let mut d = Draw::new();
        self.echo_into(&mut d, key);
        assert(d.ops@ == key_ops(self@.rows, self@.buffer, key));
        d.finish()
    }

    /// Makes the edit that `key` asks for, see `key_edit`, and says how the
    /// key ends the read: Enter hands out the line as it was and leaves the
    /// widget with an empty line; the interrupt key ends the read and keeps
    /// the line; after every other key the read goes on.
    ///
    /// Between key presses the editor is idle while the line in progress is
    /// empty, and editing otherwise. A submission takes it back to idle; an
    /// interrupt leaves it where it was.
    pub fn press(&mut self, key: Key) -> (outcome: Outcome)
        ensures
            final(self)@.rows == old(self)@.rows,
            final(self)@.open == old(self)@.open,
            final(self)@.buffer == key_edit(old(self)@.buffer, key),
            old(self).wf() ==> final(self).wf(),
            key.submits() <==> outcome is Line,
            key.interrupts() <==> outcome is Interrupted,
            outcome matches Outcome::Line(line) ==> line@ == old(self)@.buffer,
            outcome is Line ==> final(self)@.buffer == Seq::<char>::empty(),
            outcome is Interrupted ==> final(self)@.buffer == old(self)@.buffer,
    {
        match key {
            Key::Char(c) => {
                if c == '\n' {
                    let line = self.buffer.drain();
                    Outcome::Line(line)
                } else if is_printable(c) {
                    self.buffer.push(c);
                    Outcome::Pending
                } else {
                    Outcome::Pending
                }
            },
            Key::Backspace => {
                let _ = self.buffer.pop();
                Outcome::Pending
            },
            Key::Ctrl(c) => {
                if c == 'c' {
                    Outcome::Interrupted
                } else {
                    Outcome::Pending
                }
            },
            Key::Other => Outcome::Pending,
        }
    }

    /// Takes keys from `keys`, one after the other, until one of them ends
    /// the read or none is left; each key is echoed and pressed as `echo`
    /// and `press` do it. The result holds the number of keys taken, the
    /// text that echoes them, and how the read ended: with the completed
    /// line if the last key taken was Enter, interrupted if it was the
    /// interrupt key, and pending if the keys ran out first.
    pub fn read(&mut self, keys: &[Key]) -> (step: ReadStep)
        ensures
            final(self)@.rows == old(self)@.rows,
            final(self)@.open == old(self)@.open,
            old(self).wf() ==> final(self).wf(),
            takes(keys@, step.consumed as nat),
            step.outcome is Line <==> step.consumed > 0 && keys@[step.consumed - 1].submits(),
            step.outcome is Interrupted <==> step.consumed > 0 && keys@[step.consumed
                - 1].interrupts(),
            step.outcome matches Outcome::Line(line) ==> line@ == keys_edit(
                old(self)@.buffer,
                keys@.take(step.consumed - 1),
            ),
            final(self)@.buffer == keys_edit(old(self)@.buffer, keys@.take(step.consumed as int)),
            step.draw@ == encode_all(
                keys_ops(old(self)@.rows, old(self)@.buffer, keys@.take(step.consumed as int)),
            ),
    {
        let ghost rows = self@.rows;
        let ghost start = self@.buffer;
        let n: usize = keys.len();
        let mut d = Draw::new();
        let mut outcome = Outcome::Pending;
        let mut i: usize = 0;
        while i < n && outcome.is_pending()
            invariant
                n == keys@.len(),
                i <= n,
                d.wf(),
                self@.rows == rows,
                self@.open == old(self)@.open,
                old(self).wf() ==> self.wf(),
                forall|j: int| 0 <= j < i - 1 ==> !(#[trigger] keys@[j]).stops(),
                outcome is Pending && i > 0 ==> !keys@[i - 1].stops(),
                outcome is Line <==> i > 0 && keys@[i - 1].submits(),
                outcome is Interrupted <==> i > 0 && keys@[i - 1].interrupts(),
                outcome matches Outcome::Line(line) ==> line@ == keys_edit(
                    start,
                    keys@.take(i - 1),
                ),
                self@.buffer == keys_edit(start, keys@.take(i as int)),
                d.ops@ == keys_ops(rows, start, keys@.take(i as int)),
            decreases n - i,
        {
            let key = keys[i];
            self.echo_into(&mut d, key);
            outcome = self.press(key);
            i = i + 1;
            proof {
                assert(keys@.take(i as int).drop_last() == keys@.take(i - 1));
                assert(keys@.take(i as int).last() == key);
            }
        }
        ReadStep { consumed: i, draw: d.finish(), outcome }
    }

    /// Gives the terminal up. The result says whether the terminal has to be
    /// put back into its normal mode now: it does the first time, and never
    /// again. Closing a closed widget changes nothing.
    pub fn close(&mut self) -> (restore: bool)
        ensures
            restore == old(self)@.open,
            final(self)@ == old(self)@.closed(),
            old(self).wf() ==> final(self).wf(),
            !old(self)@.open ==> !restore && final(self)@ == old(self)@,
    {
        self.session.close()
    }
}

} // verus!
