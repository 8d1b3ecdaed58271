use chai::document::Document;

fn doc_of(lines: &[&str]) -> Document {
    Document::new(None, lines.iter().map(|s| s.to_string()).collect())
}

#[test]
fn new_from_lines() {
    let d = doc_of(&["hello", "world"]);
    assert_eq!(d.num_lines(), 2);
    assert_eq!(d.line_text(0), Some("hello".to_string()));
    assert_eq!(d.line_text(1), Some("world".to_string()));
    assert_eq!(d.line_text(2), None);
    assert!(!d.dirty);
}

#[test]
fn new_without_lines_holds_one_empty_line() {
    let d = Document::new(None, Vec::new());
    assert_eq!(d.num_lines(), 1);
    assert_eq!(d.line_text(0), Some(String::new()));
    assert_eq!(d.line_len(0), Some(0));
}

#[test]
fn new_keeps_the_file_path() {
    let d = Document::new(Some("notes.txt".to_string()), Vec::new());
    assert_eq!(d.file_path, Some("notes.txt".to_string()));
}

#[test]
fn line_len_counts_characters_not_bytes() {
    let d = doc_of(&["héllo"]);
    assert_eq!(d.line_len(0), Some(5));
}

#[test]
fn line_len_out_of_bounds_is_absent() {
    let d = doc_of(&["x"]);
    assert_eq!(d.line_len(1), None);
}

#[test]
fn insert_char_at_splices() {
    let mut d = doc_of(&["ac"]);
    d.insert_char_at(0, 1, 'b');
    assert_eq!(d.line_text(0), Some("abc".to_string()));
}

#[test]
fn remove_char_at_deletes_one() {
    let mut d = doc_of(&["abc"]);
    d.remove_char_at(0, 1);
    assert_eq!(d.line_text(0), Some("ac".to_string()));
}

#[test]
fn split_line_at_cuts_in_two() {
    let mut d = doc_of(&["abcd", "z"]);
    d.split_line_at(0, 2);
    assert_eq!(d.num_lines(), 3);
    assert_eq!(d.line_text(0), Some("ab".to_string()));
    assert_eq!(d.line_text(1), Some("cd".to_string()));
    assert_eq!(d.line_text(2), Some("z".to_string()));
}

#[test]
fn split_line_at_end_makes_an_empty_line() {
    let mut d = doc_of(&["ab"]);
    d.split_line_at(0, 2);
    assert_eq!(d.num_lines(), 2);
    assert_eq!(d.line_text(0), Some("ab".to_string()));
    assert_eq!(d.line_text(1), Some(String::new()));
}

#[test]
fn join_line_into_prev_concatenates() {
    let mut d = doc_of(&["ab", "cd"]);
    d.join_line_into_prev(1);
    assert_eq!(d.num_lines(), 1);
    assert_eq!(d.line_text(0), Some("abcd".to_string()));
}

#[test]
fn get_content_exposes_the_line_stores() {
    let d = doc_of(&["ab", "cd"]);
    assert_eq!(d.get_content().len(), 2);
}
