use chai::coords::{TermScreenCoords, TermSize};
use chai::document::Document;
use chai::input::{KeyCode, KeyEvent, KeyModifiers};
use chai::text_block::{Mode, TextBlock};

fn doc_of(lines: &[&str]) -> Document {
    Document::new(None, lines.iter().map(|s| s.to_string()).collect())
}

fn view() -> TextBlock {
    TextBlock::new(
        0,
        TermSize { width: 80, height: 24 },
        TermScreenCoords { x: 0, y: 0 },
        None,
    )
}

fn key(c: char) -> KeyEvent {
    KeyEvent { modifiers: KeyModifiers::Plain, code: KeyCode::Char(c) }
}

fn press(v: &mut TextBlock, d: &mut Document, c: char) {
    v.handle_key(d, &key(c)).unwrap();
}

#[test]
fn right_motion_stops_at_line_length() {
    let mut d = doc_of(&["ab"]);
    let mut v = view();
    press(&mut v, &mut d, 'l');
    assert_eq!(v.cursor.x, 1);
    press(&mut v, &mut d, 'l');
    assert_eq!(v.cursor.x, 2);
    press(&mut v, &mut d, 'l');
    assert_eq!(v.cursor.x, 2);
}

#[test]
fn right_motion_never_decreases() {
    let mut d = doc_of(&["abcde"]);
    let mut v = view();
    let mut last = v.cursor.x;
    for _ in 0..10 {
        press(&mut v, &mut d, 'l');
        assert!(v.cursor.x >= last);
        assert!(v.cursor.x <= 5);
        last = v.cursor.x;
    }
}

#[test]
fn left_motion_saturates_at_zero() {
    let mut d = doc_of(&["abc"]);
    let mut v = view();
    press(&mut v, &mut d, 'h');
    assert_eq!(v.cursor.x, 0);
    press(&mut v, &mut d, 'l');
    press(&mut v, &mut d, 'h');
    assert_eq!(v.cursor.x, 0);
}

#[test]
fn left_motion_clamps_into_the_line() {
    let mut d = doc_of(&["abc", "a"]);
    let mut v = view();
    v.cursor.x = 3;
    v.cursor.y = 1;
    press(&mut v, &mut d, 'h');
    assert_eq!(v.cursor.x, 0);
}

#[test]
fn vertical_motion_stays_in_range() {
    let mut d = doc_of(&["a", "b", "c"]);
    let mut v = view();
    for c in ['j', 'j', 'j', 'j', 'k', 'j', 'k', 'k', 'k', 'k'] {
        press(&mut v, &mut d, c);
        assert!(v.cursor.y < 3);
    }
    press(&mut v, &mut d, 'j');
    press(&mut v, &mut d, 'j');
    press(&mut v, &mut d, 'j');
    assert_eq!(v.cursor.y, 2);
    press(&mut v, &mut d, 'k');
    assert_eq!(v.cursor.y, 1);
}

#[test]
fn arrows_move_in_every_mode() {
    let mut d = doc_of(&["abc", "def"]);
    let mut v = view();
    press(&mut v, &mut d, 'i');
    assert_eq!(v.mode, Mode::Insert);
    let right = KeyEvent { modifiers: KeyModifiers::Plain, code: KeyCode::Right };
    let down = KeyEvent { modifiers: KeyModifiers::Plain, code: KeyCode::Down };
    v.handle_key(&mut d, &right).unwrap();
    v.handle_key(&mut d, &down).unwrap();
    assert_eq!(v.cursor.x, 1);
    assert_eq!(v.cursor.y, 1);
}

#[test]
fn mode_transitions() {
    let mut d = doc_of(&["x"]);
    let mut v = view();
    assert_eq!(v.mode, Mode::Normal);
    press(&mut v, &mut d, 'i');
    assert_eq!(v.mode, Mode::Insert);
    let esc = KeyEvent { modifiers: KeyModifiers::Plain, code: KeyCode::Esc };
    v.handle_key(&mut d, &esc).unwrap();
    assert_eq!(v.mode, Mode::Normal);
    press(&mut v, &mut d, ':');
    assert_eq!(v.mode, Mode::Command);
    v.handle_key(&mut d, &esc).unwrap();
    assert_eq!(v.mode, Mode::Normal);
}

#[test]
fn normal_letters_do_not_edit() {
    let mut d = doc_of(&["abc"]);
    let mut v = view();
    press(&mut v, &mut d, 'x');
    assert_eq!(d.line_text(0), Some("abc".to_string()));
    assert_eq!(v.mode, Mode::Normal);
}

#[test]
fn word_start_motion_on_a_line() {
    let mut d = doc_of(&["foo bar"]);
    let mut v = view();
    press(&mut v, &mut d, 'w');
    assert_eq!(v.cursor.x, 4);
}

#[test]
fn word_end_motion_on_a_line() {
    let mut d = doc_of(&["foo bar"]);
    let mut v = view();
    press(&mut v, &mut d, 'e');
    assert_eq!(v.cursor.x, 2);
}

#[test]
fn word_back_motion_on_a_line() {
    let mut d = doc_of(&["foo bar"]);
    let mut v = view();
    v.cursor.x = 4;
    press(&mut v, &mut d, 'b');
    assert_eq!(v.cursor.x, 0);
}

#[test]
fn word_back_wraps_to_previous_line() {
    let mut d = doc_of(&["one two", "three"]);
    let mut v = view();
    v.cursor.y = 1;
    press(&mut v, &mut d, 'b');
    assert_eq!(v.cursor.y, 0);
    assert_eq!(v.cursor.x, 4);
}

#[test]
fn word_back_on_first_line_start_is_a_noop() {
    let mut d = doc_of(&["one", "two"]);
    let mut v = view();
    press(&mut v, &mut d, 'b');
    assert_eq!(v.cursor.x, 0);
    assert_eq!(v.cursor.y, 0);
}

#[test]
fn word_end_wraps_to_next_line() {
    let mut d = doc_of(&["foo", "barbaz x"]);
    let mut v = view();
    v.cursor.x = 2;
    press(&mut v, &mut d, 'e');
    assert_eq!(v.cursor.y, 1);
    assert_eq!(v.cursor.x, 5);
}

#[test]
fn word_end_wraps_to_an_empty_next_line_at_zero() {
    let mut d = doc_of(&["foo", ""]);
    let mut v = view();
    v.cursor.x = 2;
    press(&mut v, &mut d, 'e');
    assert_eq!(v.cursor.y, 1);
    assert_eq!(v.cursor.x, 0);
}

#[test]
fn word_start_wraps_to_next_line() {
    let mut d = doc_of(&["foo", "  bar"]);
    let mut v = view();
    v.cursor.x = 1;
    press(&mut v, &mut d, 'w');
    assert_eq!(v.cursor.y, 1);
    assert_eq!(v.cursor.x, 2);
}

#[test]
fn word_start_falls_back_to_current_word_end() {
    let mut d = doc_of(&["foo bar"]);
    let mut v = view();
    v.cursor.x = 4;
    press(&mut v, &mut d, 'w');
    assert_eq!(v.cursor.y, 0);
    assert_eq!(v.cursor.x, 6);
}
