use chai::coords::{TermScreenCoords, TermSize};
use chai::document::Document;
use chai::errors::ChaiError;
use chai::text_block::TextBlock;

fn doc_of(lines: &[&str]) -> Document {
    Document::new(None, lines.iter().map(|s| s.to_string()).collect())
}

fn view_sized(width: u16, height: u16) -> TextBlock {
    TextBlock::new(
        0,
        TermSize { width, height },
        TermScreenCoords { x: 0, y: 0 },
        None,
    )
}

fn window() -> TermSize {
    TermSize { width: 200, height: 60 }
}

#[test]
fn horizontal_offset_formula() {
    // A 100-character line, effective width 20, cursor at column 50:
    // offset.x == min(50 - 20, 100 - 20) == 30.
    let d = doc_of(&["x".repeat(100).as_str()]);
    let mut v = view_sized(20, 10);
    v.cursor.x = 50;
    v.scroll(&d, window()).unwrap();
    assert_eq!(v.offset.x, 30);
}

#[test]
fn horizontal_offset_shows_line_end() {
    // Near the line's end the offset stops at len - width.
    let d = doc_of(&["x".repeat(100).as_str()]);
    let mut v = view_sized(20, 10);
    v.cursor.x = 99;
    v.scroll(&d, window()).unwrap();
    assert_eq!(v.offset.x, 79);
}

#[test]
fn horizontal_offset_zero_when_line_fits() {
    let d = doc_of(&["short"]);
    let mut v = view_sized(20, 10);
    v.cursor.x = 3;
    v.scroll(&d, window()).unwrap();
    assert_eq!(v.offset.x, 0);
}

#[test]
fn vertical_offset_advances_one_per_render() {
    // The vertical follow moves by exactly 1 per pass, never more.
    let lines: Vec<&str> = vec!["a"; 40];
    let d = doc_of(&lines);
    let mut v = view_sized(20, 5);
    v.cursor.y = 12;
    let mut last = 0;
    for _ in 0..20 {
        v.scroll(&d, window()).unwrap();
        assert!(v.offset.y <= last + 1);
        assert!(v.offset.y + 1 >= last);
        last = v.offset.y;
    }
    // Eventually the cursor row is back inside the window.
    assert_eq!(last, 8);
}

#[test]
fn vertical_offset_steps_back_at_the_top() {
    let lines: Vec<&str> = vec!["a"; 40];
    let d = doc_of(&lines);
    let mut v = view_sized(20, 5);
    v.offset.y = 10;
    v.cursor.y = 7;
    v.scroll(&d, window()).unwrap();
    assert_eq!(v.offset.y, 9);
    v.scroll(&d, window()).unwrap();
    assert_eq!(v.offset.y, 8);
    v.scroll(&d, window()).unwrap();
    assert_eq!(v.offset.y, 7);
    v.scroll(&d, window()).unwrap();
    assert_eq!(v.offset.y, 7);
}

#[test]
fn effective_size_is_clipped_at_the_window_edge() {
    let v = TextBlock::new(
        0,
        TermSize { width: 50, height: 20 },
        TermScreenCoords { x: 180, y: 50 },
        None,
    );
    let eff = v.get_effective_size(window()).unwrap();
    assert_eq!(eff.width, 20);
    assert_eq!(eff.height, 10);
}

#[test]
fn effective_size_keeps_a_fitting_view() {
    let v = view_sized(20, 10);
    let eff = v.get_effective_size(window()).unwrap();
    assert_eq!(eff.width, 20);
    assert_eq!(eff.height, 10);
}

#[test]
fn render_yields_bounded_slices() {
    let d = doc_of(&["abcdefgh", "ij", "", "klmnop"]);
    let mut v = view_sized(4, 3);
    let rows = v.render(&d, window()).unwrap();
    assert_eq!(rows, vec!["abcd", "ij", ""]);
}

#[test]
fn render_applies_the_scroll_offset() {
    let d = doc_of(&["abcdefgh", "ij"]);
    let mut v = view_sized(4, 3);
    v.cursor.x = 7;
    let rows = v.render(&d, window()).unwrap();
    assert_eq!(v.offset.x, 3);
    assert_eq!(rows, vec!["defg", ""]);
}

#[test]
fn cursor_term_pos_shifts_by_position_and_offset() {
    let d = doc_of(&["abcdef"]);
    let mut v = TextBlock::new(
        0,
        TermSize { width: 4, height: 2 },
        TermScreenCoords { x: 3, y: 5 },
        None,
    );
    v.cursor.x = 5;
    v.scroll(&d, window()).unwrap();
    let p = v.get_cursor_term_pos(&d).unwrap();
    assert_eq!(v.offset.x, 1);
    assert_eq!(p.x, 7);
    assert_eq!(p.y, 5);
}

#[test]
fn cursor_term_pos_too_large_for_a_terminal_cell_is_reported() {
    let d = doc_of(&["x".repeat(70000).as_str()]);
    let mut v = view_sized(20, 2);
    v.cursor.x = 70000;
    assert_eq!(v.get_cursor_term_pos(&d).err(), Some(ChaiError::CoordsTooLarge));
}

#[test]
fn cursor_term_pos_is_clamped_to_the_visible_line_end() {
    let d = doc_of(&["ab"]);
    let mut v = view_sized(10, 2);
    v.cursor.x = 9;
    let p = v.get_cursor_term_pos(&d).unwrap();
    assert_eq!(p.x, 2);
    assert_eq!(p.y, 0);
}
