use fz::capability::MatcherHandle;
use fz::dispatch::{do_matching, type_1_matching, MatcherType};
use fz::report::{header_line, render_report, render_row, separator_line};

fn mark(c: char) -> String {
    format!("\u{1b}[31m{}\u{1b}[0m", c)
}

fn marked_foo() -> String {
    format!("{}{}{}", mark('f'), mark('o'), mark('o'))
}

#[test]
fn each_matching_line_gets_a_highlighted_row() {
    let patterns = vec!["foo".to_string()];
    let input = vec!["foobar".to_string(), "bazfoo".to_string()];
    let rows = type_1_matching(&patterns, &input);
    assert!(!rows.is_empty());
    let first_expected = format!("{}bar", marked_foo());
    let second_expected = format!("baz{}", marked_foo());
    assert!(rows.iter().any(|r| r.text == first_expected));
    assert!(rows.iter().any(|r| r.text == second_expected));
}

#[test]
fn at_most_one_row_per_variant_per_pair() {
    let patterns = vec!["foo".to_string()];
    let input = vec!["foobar".to_string()];
    let rows = type_1_matching(&patterns, &input);
    let variants = [
        MatcherType::Fuzzy,
        MatcherType::FuzzyIndices,
        MatcherType::FuzzyGreedy,
        MatcherType::FuzzyGreedyIndices,
        MatcherType::Substring,
        MatcherType::SubstringIndices,
        MatcherType::Exact,
        MatcherType::ExactIndices,
        MatcherType::Prefix,
        MatcherType::PrefixIndices,
        MatcherType::Postfix,
        MatcherType::PostfixIndices,
    ];
    for v in variants.iter() {
        let count = rows.iter().filter(|r| r.variant == *v).count();
        assert!(count <= 1);
    }
    // A row is emitted iff the variant's score is present: the same variant
    // called directly agrees with the dispatcher.
    let mut matcher = MatcherHandle::new();
    let mut buf: Vec<u32> = Vec::new();
    for v in variants.iter() {
        let emitted = rows.iter().any(|r| r.variant == *v);
        let direct = do_matching(&mut matcher, *v, "foobar", "foo", &mut buf);
        assert_eq!(emitted, direct.is_some());
    }
}

#[test]
fn substring_indices_row_on_foobar() {
    let mut matcher = MatcherHandle::new();
    let mut buf: Vec<u32> = Vec::new();
    let row = do_matching(&mut matcher, MatcherType::SubstringIndices, "foobar", "foo", &mut buf);
    let row = row.expect("substring match owed a row");
    assert_eq!(row.variant, MatcherType::SubstringIndices);
    assert_eq!(row.text, format!("{}bar", marked_foo()));
    assert!(row.score > 0);
    assert!(buf.is_empty());
}

#[test]
fn exact_mismatch_gives_no_row() {
    let mut matcher = MatcherHandle::new();
    let mut buf: Vec<u32> = Vec::new();
    let row = do_matching(&mut matcher, MatcherType::Exact, "foobar", "foo", &mut buf);
    assert!(row.is_none());
    let row = do_matching(&mut matcher, MatcherType::Postfix, "foobar", "foo", &mut buf);
    assert!(row.is_none());
}

#[test]
fn non_index_variant_leaves_line_unhighlighted() {
    let mut matcher = MatcherHandle::new();
    let mut buf: Vec<u32> = Vec::new();
    let row = do_matching(&mut matcher, MatcherType::Fuzzy, "foobar", "foo", &mut buf);
    let row = row.expect("fuzzy match owed a row");
    assert_eq!(row.text, "foobar");
}

#[test]
fn variant_names_match_their_tags() {
    assert_eq!(MatcherType::Fuzzy.name(), "Fuzzy");
    assert_eq!(MatcherType::FuzzyGreedyIndices.name(), "FuzzyGreedyIndices");
    assert_eq!(MatcherType::PostfixIndices.name(), "PostfixIndices");
}

#[test]
fn header_and_separator_match_std_formatting() {
    assert_eq!(
        header_line(),
        format!("{:22} | {}\t\t| {:3} | {}", "method", "match", "score", "elapsed")
    );
    assert_eq!(
        separator_line(),
        "-----------------------|----------------|-------|--------"
    );
}

#[test]
fn row_rendering_matches_std_formatting() {
    let mut matcher = MatcherHandle::new();
    let mut buf: Vec<u32> = Vec::new();
    let row = do_matching(&mut matcher, MatcherType::Prefix, "foobar", "foo", &mut buf)
        .expect("prefix match owed a row");
    let rendered = render_row(&row);
    let expected = format!(
        "{:22} | {}\t| {:5} | {}",
        "Prefix", row.text, row.score, row.elapsed
    );
    assert_eq!(rendered, expected);
}

#[test]
fn report_lists_header_then_rows() {
    let patterns = vec!["foo".to_string()];
    let input = vec!["foobar".to_string()];
    let rows = type_1_matching(&patterns, &input);
    let out = render_report(&rows);
    assert_eq!(out.len(), rows.len() + 2);
    assert_eq!(out[0], header_line());
    assert_eq!(out[1], separator_line());
    for (i, row) in rows.iter().enumerate() {
        assert_eq!(out[i + 2], render_row(row));
    }
}

#[test]
fn non_ascii_line_is_matched_and_highlighted() {
    let patterns = vec!["foo".to_string()];
    let input = vec!["\u{a1}foobar".to_string()];
    let rows = type_1_matching(&patterns, &input);
    let expected = format!("\u{a1}{}bar", marked_foo());
    assert!(rows.iter().any(|r| r.text == expected));
}

#[test]
fn no_rows_for_unmatchable_pattern() {
    let patterns = vec!["zzzq".to_string()];
    let input = vec!["foobar".to_string()];
    let rows = type_1_matching(&patterns, &input);
    assert!(rows.is_empty());
}
