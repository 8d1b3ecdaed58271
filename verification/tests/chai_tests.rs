use chai::chai::Chai;
use chai::coords::{TermScreenCoords, TermSize};
use chai::errors::ChaiError;
use chai::input::{Event, KeyCode, KeyEvent, KeyModifiers};
use chai::text_block::TextBlock;

fn editor_with(lines: &[&str]) -> Chai {
    Chai::new(
        None,
        lines.iter().map(|s| s.to_string()).collect(),
        TermSize { width: 80, height: 24 },
    )
}

fn key_event(c: char) -> Event {
    Event::Key(KeyEvent { modifiers: KeyModifiers::Plain, code: KeyCode::Char(c) })
}

#[test]
fn new_editor_has_one_pane_one_view_one_document() {
    let c = editor_with(&["hello"]);
    assert_eq!(c.panes.len(), 1);
    assert_eq!(c.documents.len(), 1);
    assert_eq!(c.panes[0].views.len(), 1);
    // The single view leaves the bottom row free for a status line.
    assert_eq!(c.panes[0].views[0].size.height, 23);
    assert!(!c.should_close());
}

#[test]
fn events_route_to_the_active_view() {
    let mut c = editor_with(&[""]);
    c.handle_event(key_event('i')).unwrap();
    c.handle_event(key_event('h')).unwrap();
    c.handle_event(key_event('i')).unwrap();
    assert_eq!(c.documents[0].line_text(0), Some("hi".to_string()));
    assert_eq!(c.panes[0].views[0].cursor.x, 2);
}

#[test]
fn render_yields_one_frame_per_view() {
    let mut c = editor_with(&["hello", "world"]);
    let frames = c.render().unwrap();
    assert_eq!(frames.len(), 1);
    assert_eq!(frames[0].len(), 1);
    assert_eq!(frames[0][0].position, TermScreenCoords { x: 0, y: 0 });
    assert_eq!(frames[0][0].rows, vec!["hello", "world"]);
}

#[test]
fn an_edit_through_one_view_shows_in_the_sibling_render() {
    // Two views over one document: an insert through the active view is
    // visible in the second view's next render, and the second view's
    // cursor is not moved by the engine.
    let mut c = editor_with(&["shared"]);
    c.panes[0].views.push(TextBlock::new(
        0,
        TermSize { width: 40, height: 10 },
        TermScreenCoords { x: 40, y: 0 },
        Some((3, 0)),
    ));
    let sibling_cursor = c.panes[0].views[1].cursor;
    c.handle_event(key_event('i')).unwrap();
    c.handle_event(key_event('x')).unwrap();
    assert_eq!(c.documents[0].line_text(0), Some("xshared".to_string()));
    let frames = c.render().unwrap();
    assert_eq!(frames[0][1].rows[0], "xshared");
    assert_eq!(c.panes[0].views[1].cursor, sibling_cursor);
}

#[test]
fn a_missing_pane_is_reported() {
    let mut c = editor_with(&["x"]);
    c.active_pane_index = 5;
    assert_eq!(c.handle_event(key_event('i')), Err(ChaiError::NoPane));
    assert!(c.get_active_pane().is_err());
}

#[test]
fn a_missing_view_is_reported() {
    let mut c = editor_with(&["x"]);
    c.panes[0].active_view_index = 3;
    assert_eq!(c.handle_event(key_event('i')), Err(ChaiError::NoView));
    assert!(c.panes[0].get_active_view().is_err());
}

#[test]
fn a_missing_document_is_reported() {
    let mut c = editor_with(&["x"]);
    c.panes[0].views[0].doc_index = 9;
    assert_eq!(c.handle_event(key_event('i')), Err(ChaiError::NoDocument));
}

#[test]
fn a_stale_cursor_row_fails_the_render() {
    let mut c = editor_with(&["x"]);
    c.panes[0].views[0].cursor.y = 10;
    assert_eq!(c.render().err(), Some(ChaiError::NoLine));
}

#[test]
fn closing_every_pane_ends_the_editor() {
    let mut c = editor_with(&["x"]);
    c.panes.clear();
    assert!(c.should_close());
}

#[test]
fn active_accessors_reach_the_active_view() {
    let mut c = editor_with(&["abc"]);
    {
        let p = c.get_active_pane().unwrap();
        let v = p.get_active_view().unwrap();
        assert_eq!(v.cursor.x, 0);
    }
    let p = c.get_current_pane_mut();
    let v = p.get_current_view_mut();
    v.cursor.x = 2;
    assert_eq!(c.panes[0].views[0].cursor.x, 2);
}

#[test]
fn error_messages_name_the_failure() {
    assert_eq!(ChaiError::NoPane.message(), "no pane found");
    assert_eq!(ChaiError::NoLine.message(), "no line at the requested index");
}
