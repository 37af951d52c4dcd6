//! What holds of the widget on every terminal that the screen model
//! describes.

use vstd::prelude::*;
use crate::draw::{encode_all, lemma_encode_concat, Op};
use crate::key::{all_printable, printable, Key};
use crate::screen::{blank, lemma_apply_concat, lemma_apply_push, Screen};
use crate::widget::{
    key_edit, key_ops, keys_edit, keys_ops, prepare_ops, write_ops, ScrollerView,
};
use crate::session::MIN_ROWS;

verus! {

/// Giving the terminal up twice is giving it up once: the second time finds
/// the widget closed, asks for nothing, and changes nothing.
pub proof fn law_close_is_idempotent(state: ScrollerView)
    ensures
        !state.closed().open,
        state.closed().closed() == state.closed(),
{
}

/// Taking over the terminal leaves every row empty and the cursor at the
/// start of the bottom row: the screen shows an empty line in progress.
pub proof fn law_prepare_shows_empty_line(screen: Screen, rows: u16)
    requires
        screen.intact(),
        screen.rows() == rows,
    ensures
        screen.apply_all(prepare_ops(rows)).shows(Seq::empty()),
        screen.apply_all(prepare_ops(rows)).lines == blank(rows as nat),
{
    let o0 = Seq::<Op>::empty();
    let o1 = o0.push(Op::ClearAll);
    lemma_apply_push(screen, o0, Op::ClearAll);
    lemma_apply_push(screen, o1, Op::Goto { col: 1, row: rows });
}

/// A key press keeps the screen and the line in progress together: if the
/// screen showed the line before the key, then what is drawn for the key
/// makes it show the line as the key leaves it. The log above the bottom row
/// is not touched.
pub proof fn law_key_keeps_line_shown(screen: Screen, rows: u16, buffer: Seq<char>, key: Key)
    requires
        screen.shows(buffer),
        screen.rows() == rows,
    ensures
        screen.apply_all(key_ops(rows, buffer, key)).shows(key_edit(buffer, key)),
        screen.apply_all(key_ops(rows, buffer, key)).log() == screen.log(),
        screen.apply_all(key_ops(rows, buffer, key)).rows() == rows,
{
    let o0 = Seq::<Op>::empty();
    let after = screen.apply_all(key_ops(rows, buffer, key));
    if key.submits() {
        let o1 = o0.push(Op::Goto { col: 1, row: rows });
        lemma_apply_push(screen, o0, Op::Goto { col: 1, row: rows });
        lemma_apply_push(screen, o1, Op::ClearCurrentLine);
        assert(after.log() == screen.log());
    } else if key.types() {
        let cell = seq![key->Char_0];
        lemma_apply_push(screen, o0, Op::Text(cell));
        assert(all_printable(cell));
        assert(after.input_row() == buffer.push(key->Char_0));
        assert(after.log() == screen.log());
    } else if key is Backspace && buffer.len() > 0 {
        let o1 = o0.push(Op::CursorLeft);
        lemma_apply_push(screen, o0, Op::CursorLeft);
        lemma_apply_push(screen, o1, Op::ClearAfterCursor);
        assert(after.input_row() == buffer.drop_last());
        assert(after.log() == screen.log());
    } else {
    }
}

/// Backspace at the start of the line does nothing: nothing is drawn, so
/// the cursor stays where it is, and the line stays empty.
pub proof fn law_backspace_on_empty_line(screen: Screen, rows: u16)
    ensures
        screen.apply_all(key_ops(rows, Seq::empty(), Key::Backspace)) == screen,
        key_edit(Seq::empty(), Key::Backspace) == Seq::<char>::empty(),
{
}

/// Appending a line redraws the line in progress: whatever the screen held,
/// afterwards it shows the line in progress, character for character, and
/// the log has moved up by one row with the appended line as its last row.
pub proof fn law_write_shows_line_and_buffer(
    screen: Screen,
    rows: u16,
    buffer: Seq<char>,
    line: Seq<char>,
)
    requires
        screen.intact(),
        screen.rows() == rows,
        rows >= MIN_ROWS,
        all_printable(buffer),
        all_printable(line),
    ensures
        screen.apply_all(write_ops(rows, buffer, line)).shows(buffer),
        screen.apply_all(write_ops(rows, buffer, line)).log() == screen.log().skip(1).push(line),
        screen.apply_all(write_ops(rows, buffer, line)).rows() == rows,
{
    let up = (rows - 1) as u16;
    let o0 = Seq::<Op>::empty();
    let o1 = o0.push(Op::SaveCursor);
    let o2 = o1.push(Op::ScrollUp);
    let o3 = o2.push(Op::Goto { col: 1, row: up });
    let o4 = o3.push(Op::Text(line));
    let o5 = o4.push(Op::ClearAfterCursor);
    let o6 = o5.push(Op::Goto { col: 1, row: rows });
    lemma_apply_push(screen, o0, Op::SaveCursor);
    lemma_apply_push(screen, o1, Op::ScrollUp);
    lemma_apply_push(screen, o2, Op::Goto { col: 1, row: up });
    lemma_apply_push(screen, o3, Op::Text(line));
    lemma_apply_push(screen, o4, Op::ClearAfterCursor);
    lemma_apply_push(screen, o5, Op::Goto { col: 1, row: rows });
    lemma_apply_push(screen, o6, Op::Text(buffer));
    let s2 = screen.apply_all(o2);
    let s4 = screen.apply_all(o4);
    let s5 = screen.apply_all(o5);
    let after = screen.apply_all(write_ops(rows, buffer, line));
    assert(s2.lines.len() == rows);
    assert(s4.col == line.len() + 1 && s4.row == rows - 1);
    assert(s4.lines[rows - 2].take(line.len() as int) == line);
    assert(s5.lines[rows - 2] == line);
    assert(s5.lines[rows - 1] == Seq::<char>::empty());
    assert(after.input_row() == buffer);
    assert(after.log() == screen.log().skip(1).push(line));
}

/// The line in progress holds printable characters only, whatever key is
/// pressed.
pub proof fn law_key_keeps_line_printable(buffer: Seq<char>, key: Key)
    requires
        all_printable(buffer),
    ensures
        all_printable(key_edit(buffer, key)),
{
}

/// A run of key presses keeps the screen and the line in progress together,
/// and does not touch the log.
pub proof fn law_keys_keep_line_shown(screen: Screen, rows: u16, buffer: Seq<char>, keys: Seq<Key>)
    requires
        screen.shows(buffer),
        screen.rows() == rows,
    ensures
        screen.apply_all(keys_ops(rows, buffer, keys)).shows(keys_edit(buffer, keys)),
        screen.apply_all(keys_ops(rows, buffer, keys)).log() == screen.log(),
        screen.apply_all(keys_ops(rows, buffer, keys)).rows() == rows,
    decreases keys.len(),
{
    if keys.len() > 0 {
        let before = keys.drop_last();
        law_keys_keep_line_shown(screen, rows, buffer, before);
        let mid = screen.apply_all(keys_ops(rows, buffer, before));
        let typed = keys_edit(buffer, before);
        lemma_apply_concat(screen, keys_ops(rows, buffer, before), key_ops(rows, typed, keys.last()));
        law_key_keeps_line_shown(mid, rows, typed, keys.last());
    }
}

/// A run of key presses is echoed key by key: the text for the whole run is
/// the text for the run without its last key, followed by the text that
/// echoes the last key on the line as the keys before it left it.
pub proof fn law_keys_are_echoed_in_turn(rows: u16, buffer: Seq<char>, keys: Seq<Key>, key: Key)
    ensures
        encode_all(keys_ops(rows, buffer, keys.push(key))) == encode_all(
            keys_ops(rows, buffer, keys),
        ) + encode_all(key_ops(rows, keys_edit(buffer, keys), key)),
        keys_edit(buffer, keys.push(key)) == key_edit(keys_edit(buffer, keys), key),
{
    assert(keys.push(key).drop_last() == keys);
    lemma_encode_concat(keys_ops(rows, buffer, keys), key_ops(rows, keys_edit(buffer, keys), key));
}

/// The key that types `c`.
pub open spec fn char_key(c: char) -> Key {
    Key::Char(c)
}

/// The keys that type `text`, character by character.
pub open spec fn typing(text: Seq<char>) -> Seq<Key> {
    Seq::new(text.len(), |i: int| char_key(text[i]))
}

/// What is typed is what the line holds: typing printable text adds it to
/// the line in progress, character for character, and none of these keys
/// ends the read. Enter then hands out the line so typed.
pub proof fn law_typed_text_is_the_line(buffer: Seq<char>, text: Seq<char>)
    requires
        all_printable(text),
    ensures
        forall|i: int| 0 <= i < text.len() ==> !(#[trigger] typing(text)[i]).stops(),
        keys_edit(buffer, typing(text)) == buffer + text,
    decreases text.len(),
{
    if text.len() == 0 {
        assert(buffer + text == buffer);
    } else {
        let before = text.drop_last();
        law_typed_text_is_the_line(buffer, before);
        assert(typing(text).drop_last() == typing(before));
        assert(printable(text.last()));
        assert((buffer + before).push(text.last()) == buffer + text);
        assert forall|i: int| 0 <= i < text.len() implies !(#[trigger] typing(text)[i]).stops() by {
            assert(printable(text[i]));
        }
    }
}

/// Something that happens to the widget: a key is pressed, or a line is
/// appended to the log.
pub enum Event {
    Key(Key),
    Line(Seq<char>),
}

/// What is drawn for `event` while `buffer` is the line in progress.
pub open spec fn event_ops(rows: u16, buffer: Seq<char>, event: Event) -> Seq<Op> {
    match event {
        Event::Key(key) => key_ops(rows, buffer, key),
        Event::Line(line) => write_ops(rows, buffer, line),
    }
}

/// The line in progress after `event`, if it was `buffer` before.
pub open spec fn event_edit(buffer: Seq<char>, event: Event) -> Seq<char> {
    match event {
        Event::Key(key) => key_edit(buffer, key),
        Event::Line(_) => buffer,
    }
}

/// The line in progress after `events`, one after the other.
pub open spec fn events_edit(buffer: Seq<char>, events: Seq<Event>) -> Seq<char>
    decreases events.len(),
{
    if events.len() == 0 {
        buffer
    } else {
        event_edit(events_edit(buffer, events.drop_last()), events.last())
    }
}

/// What is drawn for `events`, one after the other.
pub open spec fn events_ops(rows: u16, buffer: Seq<char>, events: Seq<Event>) -> Seq<Op>
    decreases events.len(),
{
    if events.len() == 0 {
        Seq::empty()
    } else {
        events_ops(rows, buffer, events.drop_last()) + event_ops(
            rows,
            events_edit(buffer, events.drop_last()),
            events.last(),
        )
    }
}

/// The lines that `events` append, in the order in which they come.
pub open spec fn lines_of(events: Seq<Event>) -> Seq<Seq<char>>
    decreases events.len(),
{
    if events.len() == 0 {
        Seq::empty()
    } else {
        match events.last() {
            Event::Key(_) => lines_of(events.drop_last()),
            Event::Line(line) => lines_of(events.drop_last()).push(line),
        }
    }
}

/// Whether every line that `events` append is printable.
pub open spec fn lines_printable(events: Seq<Event>) -> bool {
    forall|i: int|
        0 <= i < events.len() ==> ((#[trigger] events[i]) matches Event::Line(line)
            ==> all_printable(line))
}

/// Appended lines come out in the order in which they were appended, however
/// key presses fall between them: after any run of key presses and appended
/// lines, the log shows its old rows followed by the appended lines, in that
/// order, less the rows that have scrolled off the top; and the screen still
/// shows the line in progress.
pub proof fn law_lines_stay_in_order(
    screen: Screen,
    rows: u16,
    buffer: Seq<char>,
    events: Seq<Event>,
)
    requires
        screen.shows(buffer),
        screen.rows() == rows,
        rows >= MIN_ROWS,
        all_printable(buffer),
        lines_printable(events),
    ensures
        screen.apply_all(events_ops(rows, buffer, events)).shows(events_edit(buffer, events)),
        screen.apply_all(events_ops(rows, buffer, events)).log() == (screen.log() + lines_of(
            events,
        )).skip(lines_of(events).len() as int),
        screen.apply_all(events_ops(rows, buffer, events)).rows() == rows,
        all_printable(events_edit(buffer, events)),
    decreases events.len(),
{
    if events.len() == 0 {
        assert((screen.log() + lines_of(events)).skip(0) == screen.log());
    } else {
        let before = events.drop_last();
        assert(lines_printable(before));
        law_lines_stay_in_order(screen, rows, buffer, before);
        let mid = screen.apply_all(events_ops(rows, buffer, before));
        let typed = events_edit(buffer, before);
        let after = screen.apply_all(events_ops(rows, buffer, events));
        lemma_apply_concat(
            screen,
            events_ops(rows, buffer, before),
            event_ops(rows, typed, events.last()),
        );
        match events.last() {
            Event::Key(key) => {
                law_key_keeps_line_shown(mid, rows, typed, key);
                law_key_keeps_line_printable(typed, key);
            },
            Event::Line(line) => {
                assert(all_printable(line));
                law_write_shows_line_and_buffer(mid, rows, typed, line);
                let old_log = screen.log();
                let earlier = lines_of(before);
                assert(old_log.len() == rows - 1);
                assert(after.log() == (old_log + earlier).skip(earlier.len() as int).skip(1).push(
                    line,
                ));
                assert(after.log() == (old_log + earlier.push(line)).skip(earlier.len() as int + 1));
            },
        }
    }
}

} // verus!
