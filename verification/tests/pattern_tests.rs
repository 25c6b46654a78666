use fz::cli::usage_lines;
use fz::pattern_run::{render_line_report, render_pattern_report, type_2_matching};

fn mark(c: char) -> String {
    format!("\u{1b}[31m{}\u{1b}[0m", c)
}

#[test]
fn matching_line_is_hit_and_highlighted() {
    let patterns = vec!["foo".to_string()];
    let input = vec!["foobar".to_string(), "bazfoo".to_string()];
    let reports = type_2_matching(&patterns, &input);
    assert_eq!(reports.len(), 2);

    let first = &reports[0];
    assert_eq!(first.line, "foobar");
    assert_eq!(first.hits.len(), 1);
    assert_eq!(first.hits[0].0, "foobar");
    assert!(first.ind_score.is_some());
    assert_eq!(first.indices, vec![0, 1, 2]);
    let expected = format!("{}{}{}bar", mark('f'), mark('o'), mark('o'));
    assert_eq!(first.highlighted, expected);

    let second = &reports[1];
    assert_eq!(second.line, "bazfoo");
    assert_eq!(second.hits.len(), 1);
    assert!(second.ind_score.is_some());
    assert_eq!(second.indices, vec![3, 4, 5]);
}

#[test]
fn unmatched_line_reports_no_hits() {
    let patterns = vec!["zzzq".to_string()];
    let input = vec!["foobar".to_string()];
    let reports = type_2_matching(&patterns, &input);
    assert_eq!(reports.len(), 1);
    let r = &reports[0];
    assert!(r.hits.is_empty());
    assert!(r.ind_score.is_none());
    assert!(r.indices.is_empty());
    assert_eq!(r.highlighted, "foobar");
}

#[test]
fn line_report_prints_like_the_original() {
    let patterns = vec!["foo".to_string()];
    let input = vec!["foobar".to_string()];
    let reports = type_2_matching(&patterns, &input);
    let lines = render_line_report(&reports[0]);
    let r = &reports[0];
    assert_eq!(lines.len(), 4);
    assert_eq!(lines[0], "line: foobar");
    assert_eq!(lines[1], format!("{}: {}", r.hits[0].0, r.hits[0].1));
    assert_eq!(
        lines[2],
        format!(
            "score: {:?}, vec_of_indices: {:?}, matches: {}",
            r.ind_score, r.indices, r.highlighted
        )
    );
    assert_eq!(lines[3], "");
}

#[test]
fn unmatched_line_report_prints_no_matches() {
    let patterns = vec!["zzzq".to_string()];
    let input = vec!["foobar".to_string()];
    let reports = type_2_matching(&patterns, &input);
    let lines = render_line_report(&reports[0]);
    assert_eq!(lines.len(), 4);
    assert_eq!(lines[0], "line: foobar");
    assert_eq!(lines[1], "no matches");
    assert_eq!(
        lines[2],
        "score: None, vec_of_indices: [], matches: foobar"
    );
    assert_eq!(lines[3], "");
}

#[test]
fn whole_pattern_report_concatenates_blocks() {
    let patterns = vec!["foo".to_string()];
    let input = vec!["foobar".to_string(), "bazfoo".to_string()];
    let reports = type_2_matching(&patterns, &input);
    let all = render_pattern_report(&reports);
    let mut expected: Vec<String> = Vec::new();
    expected.extend(render_line_report(&reports[0]));
    expected.extend(render_line_report(&reports[1]));
    assert_eq!(all, expected);
}

#[test]
fn several_patterns_are_joined_for_one_pattern_pass() {
    let patterns = vec!["foo".to_string(), "bar".to_string()];
    let input = vec!["foo-bar".to_string(), "baz-brr".to_string()];
    let reports = type_2_matching(&patterns, &input);
    assert_eq!(reports.len(), 2);
    assert_eq!(reports[0].hits.len(), 1);
    assert!(reports[0].ind_score.is_some());
    assert!(reports[1].hits.is_empty());
}

#[test]
fn list_match_and_index_match_agree_on_presence() {
    let patterns = vec!["foo".to_string(), "bar".to_string()];
    let input = vec![
        "foo-bar".to_string(),
        "baz-brr".to_string(),
        "barfoo".to_string(),
        "".to_string(),
    ];
    let reports = type_2_matching(&patterns, &input);
    for r in reports.iter() {
        assert_eq!(r.hits.is_empty(), r.ind_score.is_none());
    }
}

#[test]
fn failing_atom_keeps_the_leading_atoms_positions() {
    // The first atom matches and appends its positions; the second fails,
    // so the score is absent but the appended positions remain and are what
    // the line is highlighted at.
    let patterns = vec!["foo".to_string(), "zzzq".to_string()];
    let input = vec!["foobar".to_string()];
    let reports = type_2_matching(&patterns, &input);
    let r = &reports[0];
    assert!(r.hits.is_empty());
    assert!(r.ind_score.is_none());
    assert_eq!(r.indices, vec![0, 1, 2]);
    let expected = format!("{}{}{}bar", mark('f'), mark('o'), mark('o'));
    assert_eq!(r.highlighted, expected);
}

#[test]
fn non_ascii_line_is_matched_in_pattern_pass() {
    let patterns = vec!["foo".to_string()];
    let input = vec!["\u{a1}foobar".to_string()];
    let reports = type_2_matching(&patterns, &input);
    let r = &reports[0];
    assert_eq!(r.hits.len(), 1);
    assert!(r.ind_score.is_some());
    assert_eq!(r.indices, vec![1, 2, 3]);
    assert_eq!(
        r.highlighted,
        format!("\u{a1}{}{}{}bar", mark('f'), mark('o'), mark('o'))
    );
}

#[test]
fn non_ascii_pattern_is_matched() {
    let patterns = vec!["caf\u{e9}".to_string()];
    let input = vec!["un caf\u{e9}".to_string()];
    let reports = type_2_matching(&patterns, &input);
    assert_eq!(reports[0].hits.len(), 1);
    assert!(reports[0].ind_score.is_some());
}

#[test]
fn usage_message_matches_the_cli() {
    let lines = usage_lines();
    assert_eq!(lines.len(), 3);
    assert_eq!(lines[0], "Usage: echo <piped_input> | fz <pattern>");
    assert_eq!(lines[1], "    For Nushell try this:");
    assert_eq!(lines[2], r#"    ["foo-bar", "baz-brr"] | to text | fz foo bar"#);
}
