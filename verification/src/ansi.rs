//! The control sequences that the widget sends, as termion writes them.
//!
//! The executable functions of this module are trusted: the body of each
//! asks termion for the text of one sequence, and its contract states that
//! text. Nothing else in the crate names termion.

use vstd::prelude::*;

verus! {

/// The control sequence introducer, ESC `[`.
pub open spec fn csi() -> Seq<char> {
    seq!['\x1b', '[']
}

/// The digit for `d`, where `d` is below ten.
pub open spec fn digit(d: nat) -> char {
    if d == 0 {
        '0'
    } else if d == 1 {
        '1'
    } else if d == 2 {
        '2'
    } else if d == 3 {
        '3'
    } else if d == 4 {
        '4'
    } else if d == 5 {
        '5'
    } else if d == 6 {
        '6'
    } else if d == 7 {
        '7'
    } else if d == 8 {
        '8'
    } else {
        '9'
    }
}

/// `n` in decimal, without sign or leading zeros.
pub open spec fn decimal(n: nat) -> Seq<char>
    decreases n,
{
    if n < 10 {
        seq![digit(n)]
    } else {
        decimal(n / 10).push(digit(n % 10))
    }
}

/// Erase the whole screen: CSI `2J`.
pub open spec fn clear_all_text() -> Seq<char> {
    csi() + seq!['2', 'J']
}

/// Erase from the cursor to the end of the screen: CSI `J`.
pub open spec fn clear_after_cursor_text() -> Seq<char> {
    csi() + seq!['J']
}

/// Erase the row of the cursor: CSI `2K`.
pub open spec fn clear_current_line_text() -> Seq<char> {
    csi() + seq!['2', 'K']
}

/// Remember the cursor position: CSI `s`.
pub open spec fn save_cursor_text() -> Seq<char> {
    csi() + seq!['s']
}

/// Move the cursor to column `col` of row `row`, both counted from one:
/// CSI row `;` col `H`.
pub open spec fn goto_text(col: u16, row: u16) -> Seq<char> {
    csi() + decimal(row as nat) + seq![';'] + decimal(col as nat) + seq!['H']
}

/// Scroll the screen up by `n` rows: CSI n `S`.
pub open spec fn scroll_up_text(n: u16) -> Seq<char> {
    csi() + decimal(n as nat) + seq!['S']
}

/// Move the cursor left by `n` cells: CSI n `D`.
pub open spec fn cursor_left_text(n: u16) -> Seq<char> {
    csi() + decimal(n as nat) + seq!['D']
}

/// `termion::clear::All`, formatted. Trusted: termion writes the fixed
/// sequence CSI `2J`.
#[verifier::external_body]
pub(crate) fn clear_all() -> (s: String)
    ensures
        s@ == clear_all_text(),
{
    format!("{}", termion::clear::All)
}

/// `termion::clear::AfterCursor`, formatted. Trusted: termion writes the
/// fixed sequence CSI `J`.
#[verifier::external_body]
pub(crate) fn clear_after_cursor() -> (s: String)
    ensures
        s@ == clear_after_cursor_text(),
{
    format!("{}", termion::clear::AfterCursor)
}

/// `termion::clear::CurrentLine`, formatted. Trusted: termion writes the
/// fixed sequence CSI `2K`.
#[verifier::external_body]
pub(crate) fn clear_current_line() -> (s: String)
    ensures
        s@ == clear_current_line_text(),
{
    format!("{}", termion::clear::CurrentLine)
}

/// `termion::cursor::Save`, formatted. Trusted: termion writes the fixed
/// sequence CSI `s`.
#[verifier::external_body]
pub(crate) fn save_cursor() -> (s: String)
    ensures
        s@ == save_cursor_text(),
{
    format!("{}", termion::cursor::Save)
}

/// `termion::cursor::Goto(col, row)`, formatted. Trusted: termion writes
/// CSI, the row in decimal, `;`, the column in decimal and `H`; in a debug
/// build it refuses the position (0, 0), which is left out here.
#[verifier::external_body]
pub(crate) fn goto(col: u16, row: u16) -> (s: String)
    requires
        col != 0 || row != 0,
    ensures
        s@ == goto_text(col, row),
{
    format!("{}", termion::cursor::Goto(col, row))
}

/// `termion::scroll::Up(n)`, formatted. Trusted: termion writes CSI, `n` in
/// decimal and `S`.
#[verifier::external_body]
pub(crate) fn scroll_up(n: u16) -> (s: String)
    ensures
        s@ == scroll_up_text(n),
{
    format!("{}", termion::scroll::Up(n))
}

/// `termion::cursor::Left(n)`, formatted. Trusted: termion writes CSI, `n`
/// in decimal and `D`.
#[verifier::external_body]
pub(crate) fn cursor_left(n: u16) -> (s: String)
    ensures
        s@ == cursor_left_text(n),
{
    format!("{}", termion::cursor::Left(n))
}

} // verus!
