use chai::coords::{TermScreenCoords, TermSize};
use chai::document::Document;
use chai::editor::Editor;
use chai::input::{Event, KeyCode, KeyEvent, KeyModifiers};
use chai::text_block::Mode;

fn doc_of(lines: &[&str]) -> Document {
    Document::new(None, lines.iter().map(|s| s.to_string()).collect())
}

fn editor() -> Editor {
    Editor::new(
        0,
        TermSize { width: 40, height: 10 },
        TermScreenCoords { x: 0, y: 0 },
        None,
    )
}

fn key_event(c: char) -> Event {
    Event::Key(KeyEvent { modifiers: KeyModifiers::Plain, code: KeyCode::Char(c) })
}

fn esc_event() -> Event {
    Event::Key(KeyEvent { modifiers: KeyModifiers::Plain, code: KeyCode::Esc })
}

#[test]
fn info_line_shows_the_mode() {
    let d = doc_of(&["hello"]);
    let mut e = editor();
    let (text_rows, info_rows) = e.render(&d, TermSize { width: 80, height: 24 }).unwrap();
    assert_eq!(text_rows[0], "hello");
    assert_eq!(info_rows, vec!["-- NORMAL --"]);
}

#[test]
fn info_line_follows_mode_changes() {
    let mut d = doc_of(&["hello"]);
    let mut e = editor();
    e.update(&mut d, &key_event('i')).unwrap();
    let (_, info_rows) = e.render(&d, TermSize { width: 80, height: 24 }).unwrap();
    assert_eq!(info_rows, vec!["-- INSERT --"]);
    e.update(&mut d, &esc_event()).unwrap();
    e.update(&mut d, &key_event(':')).unwrap();
    let (_, info_rows) = e.render(&d, TermSize { width: 80, height: 24 }).unwrap();
    assert_eq!(info_rows, vec!["-- COMMAND --"]);
}

#[test]
fn editor_forwards_edits_to_the_document() {
    let mut d = doc_of(&[""]);
    let mut e = editor();
    e.update(&mut d, &key_event('i')).unwrap();
    e.update(&mut d, &key_event('o')).unwrap();
    e.update(&mut d, &key_event('k')).unwrap();
    assert_eq!(d.line_text(0), Some("ok".to_string()));
}

#[test]
fn command_mode_ignores_everything_but_escape() {
    let mut d = doc_of(&["abc"]);
    let mut e = editor();
    e.update(&mut d, &key_event(':')).unwrap();
    assert_eq!(e.text_block.mode, Mode::Command);
    e.update(&mut d, &key_event('q')).unwrap();
    assert_eq!(e.text_block.mode, Mode::Command);
    assert_eq!(d.line_text(0), Some("abc".to_string()));
    e.update(&mut d, &esc_event()).unwrap();
    assert_eq!(e.text_block.mode, Mode::Normal);
}

#[test]
fn editor_cursor_term_pos_delegates_to_the_text_view() {
    let mut d = doc_of(&["abc"]);
    let mut e = editor();
    e.update(&mut d, &key_event('l')).unwrap();
    let p = e.get_cursor_term_pos(&d).unwrap();
    assert_eq!(p.x, 1);
    assert_eq!(p.y, 0);
}

#[test]
fn info_line_sits_below_the_text_view() {
    let e = editor();
    assert_eq!(e.info_line.text_block.position.y, 10);
    assert_eq!(e.info_line.text_block.size.height, 1);
}
