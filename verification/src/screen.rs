//! A model of what the terminal shows.
//!
//! The model is a grid of rows without a right edge. Every printable
//! character fills one cell and moves the cursor one cell to the right. How
//! a terminal treats control characters inside text is not modelled: once
//! such text is written, the screen counts as garbled and nothing more is
//! said of it.

use vstd::prelude::*;
use crate::draw::Op;
use crate::key::all_printable;

verus! {

/// The state of the screen.
pub struct Screen {
    /// The rows from top to bottom, each with the cells written in it.
    pub lines: Seq<Seq<char>>,
    /// The column of the cursor, counted from one.
    pub col: nat,
    /// The row of the cursor, counted from one.
    pub row: nat,
    /// The cursor position that was saved last.
    pub saved: Option<(nat, nat)>,
    /// Whether text with control characters has been written.
    pub garbled: bool,
}

/// `n` rows with nothing in them.
pub open spec fn blank(n: nat) -> Seq<Seq<char>> {
    Seq::new(n, |i: int| Seq::<char>::empty())
}

/// The cells of a row that held `cells`, after `text` was written from the
/// cell at index `at` on: cells before `at` stay (a gap is filled with
/// spaces), `text` replaces what was under it, and cells behind it stay.
pub open spec fn overwrite(cells: Seq<char>, at: nat, text: Seq<char>) -> Seq<char> {
    let before = if cells.len() < at {
        cells + Seq::new((at - cells.len()) as nat, |i: int| ' ')
    } else {
        cells.take(at as int)
    };
    let behind = if cells.len() > at + text.len() {
        cells.skip((at + text.len()) as int)
    } else {
        Seq::empty()
    };
    before + text + behind
}

impl Screen {
    /// The number of rows.
    pub open spec fn rows(self) -> nat {
        self.lines.len()
    }

    /// The model follows the terminal: the cursor is on the screen and no
    /// control character has been written as text.
    pub open spec fn intact(self) -> bool {
        &&& !self.garbled
        &&& 1 <= self.row <= self.rows()
        &&& 1 <= self.col
    }

    /// The bottom row, where the line in progress is shown.
    pub open spec fn input_row(self) -> Seq<char> {
        self.lines.last()
    }

    /// The rows above the bottom row, where appended lines scroll.
    pub open spec fn log(self) -> Seq<Seq<char>> {
        self.lines.drop_last()
    }

    /// The screen after one drawing operation.
    pub open spec fn apply(self, op: Op) -> Screen {
        let here = self.row - 1;
        match op {
            Op::ClearAll => Screen { lines: blank(self.rows()), ..self },
            Op::ClearAfterCursor => Screen {
                lines: Seq::new(
                    self.rows(),
                    |i: int|
                        if i < here {
                            self.lines[i]
                        } else if i == here && self.col - 1 < self.lines[i].len() {
                            self.lines[i].take(self.col - 1)
                        } else if i == here {
                            self.lines[i]
                        } else {
                            Seq::empty()
                        },
                ),
                ..self
            },
            Op::ClearCurrentLine => Screen {
                lines: self.lines.update(here, Seq::empty()),
                ..self
            },
            Op::SaveCursor => Screen { saved: Some((self.col, self.row)), ..self },
            Op::Goto { col, row } => Screen {
                col: if col == 0 {
                    1
                } else {
                    col as nat
                },
                row: if row == 0 {
                    1
                } else if row > self.rows() {
                    self.rows()
                } else {
                    row as nat
                },
                ..self
            },
            Op::ScrollUp => Screen {
                lines: if self.rows() == 0 {
                    self.lines
                } else {
                    self.lines.skip(1).push(Seq::empty())
                },
                ..self
            },
            Op::CursorLeft => Screen {
                col: if self.col <= 1 {
                    1
                } else {
                    (self.col - 1) as nat
                },
                ..self
            },
            Op::Text(text) => if all_printable(text) {
                Screen {
                    lines: self.lines.update(
                        here,
                        overwrite(self.lines[here], (self.col - 1) as nat, text),
                    ),
                    col: self.col + text.len(),
                    ..self
                }
            } else {
                Screen { garbled: true, ..self }
            },
        }
    }

    /// The screen after a run of drawing operations.
    pub open spec fn apply_all(self, ops: Seq<Op>) -> Screen
        decreases ops.len(),
    {
        if ops.len() == 0 {
            self
        } else {
            self.apply_all(ops.drop_last()).apply(ops.last())
        }
    }

    /// The screen shows `buffer` as the line in progress: it stands alone in
    /// the bottom row, and the cursor stands right behind it.
    pub open spec fn shows(self, buffer: Seq<char>) -> bool {
        &&& self.intact()
        &&& self.row == self.rows()
        &&& self.col == buffer.len() + 1
        &&& self.input_row() == buffer
    }
}

/// Applying one more operation.
pub proof fn lemma_apply_push(screen: Screen, ops: Seq<Op>, op: Op)
    ensures
        screen.apply_all(ops.push(op)) == screen.apply_all(ops).apply(op),
{
    assert(ops.push(op).drop_last() == ops);
}

/// Applying two runs of operations is applying the first, then the second.
pub proof fn lemma_apply_concat(screen: Screen, first: Seq<Op>, second: Seq<Op>)
    ensures
        screen.apply_all(first + second) == screen.apply_all(first).apply_all(second),
    decreases second.len(),
{
    if second.len() == 0 {
        assert(first + second == first);
    } else {
        lemma_apply_concat(screen, first, second.drop_last());
        assert((first + second).drop_last() == first + second.drop_last());
        assert((first + second).last() == second.last());
    }
}

} // verus!
