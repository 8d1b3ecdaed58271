use chai::words::{
    first_word_end, first_word_start, last_word_start, next_word_end, next_word_start,
    prev_word_start, tokenize,
};

fn chars(s: &str) -> Vec<char> {
    s.chars().collect()
}

fn pairs(s: &str) -> Vec<(usize, usize)> {
    tokenize(&chars(s)).iter().map(|t| (t.start, t.end)).collect()
}

#[test]
fn tokenize_words_and_spaces() {
    assert_eq!(pairs("foo bar"), vec![(0, 3), (4, 7)]);
    assert_eq!(pairs("  foo  "), vec![(2, 5)]);
    assert_eq!(pairs(""), vec![]);
    assert_eq!(pairs("   "), vec![]);
}

#[test]
fn tokenize_punctuation_runs_separately() {
    assert_eq!(pairs("foo,,bar"), vec![(0, 3), (3, 5), (5, 8)]);
    assert_eq!(pairs("a+b"), vec![(0, 1), (1, 2), (2, 3)]);
    assert_eq!(pairs("...)"), vec![(0, 4)]);
}

#[test]
fn tokenize_counts_underscore_as_word() {
    assert_eq!(pairs("foo_bar baz"), vec![(0, 7), (8, 11)]);
}

#[test]
fn word_start_from_line_start() {
    // On "foo bar": `w` from column 0 lands on column 4.
    assert_eq!(next_word_start(&chars("foo bar"), 0), Some(4));
}

#[test]
fn word_end_from_line_start() {
    // On "foo bar": `e` from column 0 lands on column 2.
    assert_eq!(next_word_end(&chars("foo bar"), 0), Some(2));
}

#[test]
fn word_back_from_second_word() {
    // On "foo bar": `b` from column 4 lands on column 0.
    assert_eq!(prev_word_start(&chars("foo bar"), 4), Some(0));
}

#[test]
fn word_end_skips_ahead_when_already_there() {
    // Already on "foo"'s last character: advance to "bar"'s end.
    assert_eq!(next_word_end(&chars("foo bar"), 2), Some(6));
    // On the last word's end there is nothing further.
    assert_eq!(next_word_end(&chars("foo bar"), 6), None);
}

#[test]
fn word_start_skips_ahead_when_already_there() {
    assert_eq!(next_word_start(&chars("ab cd ef"), 3), Some(6));
}

#[test]
fn word_back_mid_word_goes_to_its_start() {
    assert_eq!(prev_word_start(&chars("foo bar"), 5), Some(4));
}

#[test]
fn word_back_with_nothing_left_is_absent() {
    assert_eq!(prev_word_start(&chars("foo bar"), 0), None);
    assert_eq!(prev_word_start(&chars("   foo"), 2), None);
}

#[test]
fn first_and_last_word_offsets() {
    assert_eq!(first_word_start(&chars("  foo bar")), 2);
    assert_eq!(first_word_end(&chars("  foo bar")), 4);
    assert_eq!(last_word_start(&chars("  foo bar")), 6);
}

#[test]
fn first_and_last_default_to_zero_without_tokens() {
    assert_eq!(first_word_start(&chars("   ")), 0);
    assert_eq!(first_word_end(&chars("")), 0);
    assert_eq!(last_word_start(&chars("  ")), 0);
}
