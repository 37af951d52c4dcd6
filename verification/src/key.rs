//! Key presses, as the editor reads them.

use vstd::prelude::*;

verus! {

/// A key press, reduced to what the editor tells apart.
#[derive(Clone, Copy, Debug, PartialEq, Eq, Structural)]
pub enum Key {
    /// A character key; `'\n'` is Enter.
    Char(char),
    /// Backspace.
    Backspace,
    /// A character pressed together with Ctrl.
    Ctrl(char),
    /// Any other key: arrows, function keys and the like.
    Other,
}

/// Whether `c` is shown in one cell of its own: every character except the
/// control characters U+0000..=U+001F and U+007F..=U+009F.
pub open spec fn printable(c: char) -> bool {
    !(c as u32 <= 0x1f) && !(0x7f <= c as u32 <= 0x9f)
}

/// Whether all of `text` is printable.
pub open spec fn all_printable(text: Seq<char>) -> bool {
    forall|i: int| 0 <= i < text.len() ==> printable(#[trigger] text[i])
}

/// Decides `printable`.
pub fn is_printable(c: char) -> (p: bool)
    ensures
        p == printable(c),
{
    let n: u32 = c as u32;
    !(n <= 0x1f) && !(0x7f <= n && n <= 0x9f)
}

impl Key {
    /// Enter: submits the line.
    pub open spec fn submits(self) -> bool {
        self == Key::Char('\n')
    }

    /// Ctrl-C: interrupts the read.
    pub open spec fn interrupts(self) -> bool {
        self == Key::Ctrl('c')
    }

    /// Whether the key ends a read, by submission or by interrupt.
    pub open spec fn stops(self) -> bool {
        self.submits() || self.interrupts()
    }

    /// A character key that is added to the line.
    pub open spec fn types(self) -> bool {
        self matches Key::Char(c) && printable(c)
    }
}

} // verus!
