use scroller::{Key, Outcome, ReadStep, Scroller, ScrollerError};

fn scroller(rows: u16) -> Scroller {
    Scroller::new(rows).unwrap()
}

fn typed(s: &mut Scroller, text: &str) {
    for c in text.chars() {
        assert_eq!(s.press(Key::Char(c)), Outcome::Pending);
    }
}

#[test]
fn new_refuses_a_terminal_without_rows() {
    match Scroller::new(0) {
        Err(ScrollerError::IO(e)) => assert_eq!(e.kind(), std::io::ErrorKind::InvalidInput),
        _ => panic!("a terminal of no rows was accepted"),
    }
}

#[test]
fn new_refuses_a_terminal_of_one_row() {
    match Scroller::new(1) {
        Err(ScrollerError::IO(e)) => assert_eq!(e.kind(), std::io::ErrorKind::InvalidInput),
        _ => panic!("a terminal of one row was accepted"),
    }
}

#[test]
fn new_accepts_two_rows_and_starts_empty() {
    let s = scroller(2);
    assert_eq!(s.rows(), 2);
    assert!(s.is_open());
    assert!(s.buffer().is_empty());
    assert_eq!(s.buffer().snapshot(), "");
}

#[test]
fn new_accepts_the_largest_terminal() {
    let s = scroller(u16::MAX);
    assert_eq!(s.rows(), 65535);
    assert_eq!(s.prepare(), "\x1b[2J\x1b[65535;1H");
}

#[test]
fn prepare_clears_and_goes_to_the_bottom_row() {
    assert_eq!(scroller(24).prepare(), "\x1b[2J\x1b[24;1H");
}

#[test]
fn prepare_on_two_rows() {
    assert_eq!(scroller(2).prepare(), "\x1b[2J\x1b[2;1H");
}

#[test]
fn prepare_writes_row_numbers_in_decimal() {
    assert_eq!(scroller(9).prepare(), "\x1b[2J\x1b[9;1H");
    assert_eq!(scroller(10).prepare(), "\x1b[2J\x1b[10;1H");
    assert_eq!(scroller(100).prepare(), "\x1b[2J\x1b[100;1H");
    assert_eq!(scroller(1001).prepare(), "\x1b[2J\x1b[1001;1H");
    assert_eq!(scroller(60309).prepare(), "\x1b[2J\x1b[60309;1H");
}

#[test]
fn write_with_an_empty_line_in_progress() {
    let s = scroller(24);
    assert_eq!(s.write("hello"), "\x1b[s\x1b[1S\x1b[23;1Hhello\x1b[J\x1b[24;1H");
}

#[test]
fn write_redraws_the_line_in_progress() {
    let mut s = scroller(24);
    typed(&mut s, "he");
    assert_eq!(s.write("news"), "\x1b[s\x1b[1S\x1b[23;1Hnews\x1b[J\x1b[24;1Hhe");
    assert_eq!(s.buffer().snapshot(), "he");
}

#[test]
fn write_on_two_rows_puts_the_line_in_the_first_row() {
    let s = scroller(2);
    assert_eq!(s.write("x"), "\x1b[s\x1b[1S\x1b[1;1Hx\x1b[J\x1b[2;1H");
}

#[test]
fn write_of_an_empty_line() {
    let s = scroller(10);
    assert_eq!(s.write(""), "\x1b[s\x1b[1S\x1b[9;1H\x1b[J\x1b[10;1H");
}

#[test]
fn write_keeps_text_beyond_ascii() {
    let mut s = scroller(30);
    typed(&mut s, "né");
    assert_eq!(s.write("grüß dich"), "\x1b[s\x1b[1S\x1b[29;1Hgrüß dich\x1b[J\x1b[30;1Hné");
}

#[test]
fn write_does_not_change_the_widget() {
    let mut s = scroller(24);
    typed(&mut s, "abc");
    let first = s.write("one");
    let second = s.write("one");
    assert_eq!(first, second);
    assert_eq!(s.buffer().snapshot(), "abc");
    assert_eq!(s.rows(), 24);
    assert!(s.is_open());
}

#[test]
fn writes_come_out_in_the_order_of_the_calls() {
    let s = scroller(5);
    let drawn: Vec<String> = ["A", "B", "C"].iter().map(|line| s.write(line)).collect();
    assert_eq!(drawn[0], "\x1b[s\x1b[1S\x1b[4;1HA\x1b[J\x1b[5;1H");
    assert_eq!(drawn[1], "\x1b[s\x1b[1S\x1b[4;1HB\x1b[J\x1b[5;1H");
    assert_eq!(drawn[2], "\x1b[s\x1b[1S\x1b[4;1HC\x1b[J\x1b[5;1H");
}

#[test]
fn redraw_after_pushes_and_pops_shows_the_buffer() {
    let mut s = scroller(24);
    typed(&mut s, "hello");
    assert_eq!(s.press(Key::Backspace), Outcome::Pending);
    assert_eq!(s.press(Key::Backspace), Outcome::Pending);
    typed(&mut s, "p!");
    assert_eq!(s.buffer().snapshot(), "help!");
    let drawn = s.write("log");
    assert!(drawn.ends_with("\x1b[24;1Hhelp!"));
}

#[test]
fn echo_of_a_character_is_the_character() {
    let s = scroller(24);
    assert_eq!(s.echo(Key::Char('a')), "a");
    assert_eq!(s.echo(Key::Char(' ')), " ");
    assert_eq!(s.echo(Key::Char('~')), "~");
    assert_eq!(s.echo(Key::Char('é')), "é");
    assert_eq!(s.echo(Key::Char('\u{a0}')), "\u{a0}");
}

#[test]
fn echo_does_not_change_the_widget() {
    let s = scroller(24);
    assert_eq!(s.echo(Key::Char('a')), "a");
    assert!(s.buffer().is_empty());
}

#[test]
fn echo_of_enter_clears_the_bottom_row() {
    let mut s = scroller(24);
    typed(&mut s, "hi");
    assert_eq!(s.echo(Key::Char('\n')), "\x1b[24;1H\x1b[2K");
}

#[test]
fn echo_of_backspace_steps_left_and_clears() {
    let mut s = scroller(24);
    typed(&mut s, "hi");
    assert_eq!(s.echo(Key::Backspace), "\x1b[1D\x1b[J");
}

#[test]
fn backspace_on_an_empty_line_does_nothing() {
    let mut s = scroller(24);
    assert_eq!(s.echo(Key::Backspace), "");
    assert_eq!(s.press(Key::Backspace), Outcome::Pending);
    assert_eq!(s.buffer().len(), 0);
    assert_eq!(s.echo(Key::Backspace), "");
}

#[test]
fn other_keys_are_ignored() {
    let mut s = scroller(24);
    typed(&mut s, "ab");
    for key in [Key::Other, Key::Ctrl('a'), Key::Ctrl('d'), Key::Ctrl('C')] {
        assert_eq!(s.echo(key), "");
        assert_eq!(s.press(key), Outcome::Pending);
        assert_eq!(s.buffer().snapshot(), "ab");
    }
}

#[test]
fn control_characters_are_not_typed() {
    let mut s = scroller(24);
    typed(&mut s, "ab");
    for c in ['\t', '\r', '\0', '\x1b', '\x1f', '\x7f', '\u{80}', '\u{9f}'] {
        assert_eq!(s.echo(Key::Char(c)), "");
        assert_eq!(s.press(Key::Char(c)), Outcome::Pending);
        assert_eq!(s.buffer().snapshot(), "ab");
    }
}

#[test]
fn press_adds_and_removes_characters() {
    let mut s = scroller(24);
    assert_eq!(s.press(Key::Char('a')), Outcome::Pending);
    assert_eq!(s.press(Key::Char('b')), Outcome::Pending);
    assert_eq!(s.buffer().snapshot(), "ab");
    assert_eq!(s.press(Key::Backspace), Outcome::Pending);
    assert_eq!(s.buffer().snapshot(), "a");
    assert_eq!(s.press(Key::Backspace), Outcome::Pending);
    assert_eq!(s.buffer().snapshot(), "");
}

#[test]
fn enter_hands_out_the_line_and_empties_the_buffer() {
    let mut s = scroller(24);
    assert_eq!(s.press(Key::Char('h')), Outcome::Pending);
    assert_eq!(s.press(Key::Char('i')), Outcome::Pending);
    assert_eq!(s.press(Key::Char('\n')), Outcome::Line(String::from("hi")));
    assert!(s.buffer().is_empty());
}

#[test]
fn enter_on_an_empty_line_hands_out_an_empty_line() {
    let mut s = scroller(24);
    assert_eq!(s.press(Key::Char('\n')), Outcome::Line(String::new()));
    assert!(s.buffer().is_empty());
}

#[test]
fn interrupt_ends_the_read_and_keeps_the_line() {
    let mut s = scroller(24);
    typed(&mut s, "he");
    assert_eq!(s.echo(Key::Ctrl('c')), "");
    assert_eq!(s.press(Key::Ctrl('c')), Outcome::Interrupted);
    assert_eq!(s.buffer().snapshot(), "he");
}

#[test]
fn read_takes_keys_up_to_enter() {
    let mut s = scroller(24);
    let keys = [Key::Char('h'), Key::Char('i'), Key::Char('\n'), Key::Char('x')];
    let step = s.read(&keys);
    assert_eq!(
        step,
        ReadStep {
            consumed: 3,
            draw: String::from("hi\x1b[24;1H\x1b[2K"),
            outcome: Outcome::Line(String::from("hi")),
        }
    );
    assert!(s.buffer().is_empty());
}

#[test]
fn read_goes_on_where_the_last_one_stopped() {
    let mut s = scroller(24);
    let keys = [Key::Char('a'), Key::Char('\n'), Key::Char('b'), Key::Char('\n')];
    let first = s.read(&keys);
    assert_eq!(first.consumed, 2);
    assert_eq!(first.outcome, Outcome::Line(String::from("a")));
    let second = s.read(&keys[first.consumed..]);
    assert_eq!(second.consumed, 2);
    assert_eq!(second.outcome, Outcome::Line(String::from("b")));
}

#[test]
fn read_is_pending_when_the_keys_run_out() {
    let mut s = scroller(24);
    let step = s.read(&[Key::Char('h'), Key::Other, Key::Char('e')]);
    assert_eq!(step.consumed, 3);
    assert_eq!(step.draw, "he");
    assert_eq!(step.outcome, Outcome::Pending);
    assert_eq!(s.buffer().snapshot(), "he");
    let step = s.read(&[Key::Char('y'), Key::Char('\n')]);
    assert_eq!(step.consumed, 2);
    assert_eq!(step.outcome, Outcome::Line(String::from("hey")));
}

#[test]
fn read_of_no_keys() {
    let mut s = scroller(24);
    typed(&mut s, "x");
    let step = s.read(&[]);
    assert_eq!(step, ReadStep { consumed: 0, draw: String::new(), outcome: Outcome::Pending });
    assert_eq!(s.buffer().snapshot(), "x");
}

#[test]
fn read_stops_at_the_interrupt_key() {
    let mut s = scroller(24);
    let keys = [Key::Char('h'), Key::Char('e'), Key::Ctrl('c'), Key::Char('y'), Key::Char('\n')];
    let step = s.read(&keys);
    assert_eq!(step.consumed, 3);
    assert_eq!(step.draw, "he");
    assert_eq!(step.outcome, Outcome::Interrupted);
    assert_eq!(s.buffer().snapshot(), "he");
}

#[test]
fn read_echoes_backspace_only_while_there_is_something_to_remove() {
    let mut s = scroller(24);
    let keys = [Key::Backspace, Key::Char('a'), Key::Backspace, Key::Backspace];
    let step = s.read(&keys);
    assert_eq!(step.consumed, 4);
    assert_eq!(step.draw, "a\x1b[1D\x1b[J");
    assert_eq!(step.outcome, Outcome::Pending);
    assert!(s.buffer().is_empty());
}

#[test]
fn read_draws_what_echo_draws_key_by_key() {
    let keys = [
        Key::Char('a'),
        Key::Backspace,
        Key::Backspace,
        Key::Char('\t'),
        Key::Char('b'),
        Key::Other,
        Key::Char('c'),
        Key::Char('\n'),
    ];
    let mut one = scroller(7);
    let mut drawn = String::new();
    let mut last = Outcome::Pending;
    for key in keys {
        drawn.push_str(&one.echo(key));
        last = one.press(key);
    }
    let mut all = scroller(7);
    let step = all.read(&keys);
    assert_eq!(step.consumed, keys.len());
    assert_eq!(step.draw, drawn);
    assert_eq!(step.outcome, last);
    assert_eq!(last, Outcome::Line(String::from("bc")));
    assert_eq!(all.buffer().snapshot(), one.buffer().snapshot());
}

#[test]
fn close_restores_once() {
    let mut s = scroller(24);
    typed(&mut s, "he");
    assert!(s.is_open());
    assert!(s.close());
    assert!(!s.is_open());
    assert!(!s.close());
    assert!(!s.close());
    assert!(!s.is_open());
    assert_eq!(s.rows(), 24);
    assert_eq!(s.buffer().snapshot(), "he");
}
