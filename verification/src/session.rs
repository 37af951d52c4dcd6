//! The hold on the terminal.

use vstd::prelude::*;
use crate::error::{invalid_input, ScrollerError};

verus! {

/// The fewest rows a terminal must have: one for the log and one for input.
pub const MIN_ROWS: u16 = 2;

/// The hold on one terminal: its row count, taken once, and whether the
/// terminal is still held.
pub struct TerminalSession {
    rows: u16,
    open: bool,
}

impl TerminalSession {
    #[verifier::type_invariant]
    spec fn inv(self) -> bool {
        self.rows >= MIN_ROWS
    }

    /// The number of rows of the terminal.
    pub closed spec fn spec_rows(&self) -> u16 {
        self.rows
    }

    /// Whether the terminal is still held.
    pub closed spec fn spec_is_open(&self) -> bool {
        self.open
    }

    /// Takes hold of a terminal of `rows` rows. A terminal of fewer than two
    /// rows is refused.
    pub fn open(rows: u16) -> (r: Result<TerminalSession, ScrollerError>)
        ensures
            rows < MIN_ROWS <==> r is Err,
            r matches Err(e) ==> e is IO,
            r matches Ok(s) ==> s.rows() == rows && s.is_open(),
    {
        if rows < MIN_ROWS {
            return Err(ScrollerError::IO(invalid_input("the terminal has fewer than two rows")));
        }
        Ok(TerminalSession { rows, open: true })
    }

    /// The number of rows of the terminal, which is never below two.
    #[verifier::when_used_as_spec(spec_rows)]
    pub fn rows(&self) -> (rows: u16)
        ensures
            rows == self.rows(),
            rows >= MIN_ROWS,
    {
        proof {
            use_type_invariant(self);
        }
        self.rows
    }

    /// Whether the terminal is still held.
    #[verifier::when_used_as_spec(spec_is_open)]
    pub fn is_open(&self) -> (open: bool)
        ensures
            open == self.is_open(),
    {
        self.open
    }

    /// Gives the terminal up. The result says whether the terminal has to be
    /// put back into its normal mode now: it does the first time, and never
    /// again. Closing a closed session changes nothing.
    pub fn close(&mut self) -> (restore: bool)
        ensures
            restore == old(self).is_open(),
            !final(self).is_open(),
            final(self).rows() == old(self).rows(),
            !old(self).is_open() ==> *final(self) == *old(self),
    {
        proof {
            use_type_invariant(&*self);
        }
        let restore: bool = self.open;
        self.open = false;
        restore
    }
}

} // verus!
