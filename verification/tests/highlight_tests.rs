use fz::highlight::highlight_matches;

fn mark(c: char) -> String {
    format!("\u{1b}[31m{}\u{1b}[0m", c)
}

#[test]
fn empty_index_list_leaves_line_unchanged() {
    assert_eq!(highlight_matches("bar", &[]), "bar");
    assert_eq!(highlight_matches("", &[]), "");
    assert_eq!(highlight_matches("hello world", &[]), "hello world");
}

#[test]
fn marks_first_and_last_of_bar() {
    let expected = format!("{}a{}", mark('b'), mark('r'));
    assert_eq!(highlight_matches("bar", &[0, 2]), expected);
}

#[test]
fn empty_line_highlights_to_empty_string() {
    assert_eq!(highlight_matches("", &[0]), "");
    assert_eq!(highlight_matches("", &[0, 1, 2]), "");
    assert_eq!(highlight_matches("", &[7]), "");
}

#[test]
fn marks_every_position() {
    let expected = format!("{}{}{}", mark('f'), mark('o'), mark('o'));
    assert_eq!(highlight_matches("foo", &[0, 1, 2]), expected);
}

#[test]
fn index_beyond_line_length_is_never_consumed() {
    assert_eq!(highlight_matches("abc", &[5]), "abc");
}

#[test]
fn stale_smaller_index_blocks_later_marks() {
    // After position 2 is marked, the pending index 0 can never match again,
    // so nothing further is marked.
    let expected = format!("ab{}", mark('c'));
    assert_eq!(highlight_matches("abc", &[2, 0]), expected);
}

#[test]
fn duplicate_index_marks_once() {
    let expected = format!("{}bc", mark('a'));
    assert_eq!(highlight_matches("abc", &[0, 0]), expected);
}
