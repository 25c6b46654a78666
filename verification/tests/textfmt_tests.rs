use fz::textfmt::{fmt_opt_u32, fmt_vec_u32, join_with, pad_left, pad_right, u32_dec};

#[test]
fn decimal_rendering() {
    assert_eq!(u32_dec(0), "0");
    assert_eq!(u32_dec(7), "7");
    assert_eq!(u32_dec(10), "10");
    assert_eq!(u32_dec(12345), "12345");
    assert_eq!(u32_dec(u32::MAX), "4294967295");
}

#[test]
fn padding_matches_std_formatting() {
    assert_eq!(pad_left("7", 5), format!("{:5}", 7));
    assert_eq!(pad_left("140", 5), format!("{:5}", 140));
    assert_eq!(pad_right("Fuzzy", 22), format!("{:22}", "Fuzzy"));
    assert_eq!(pad_right("method", 22), format!("{:22}", "method"));
}

#[test]
fn padding_never_truncates() {
    assert_eq!(pad_left("123456", 5), "123456");
    assert_eq!(pad_right("123456", 5), "123456");
}

#[test]
fn join_matches_std_join() {
    let parts = vec!["foo".to_string(), "bar".to_string(), "baz".to_string()];
    assert_eq!(join_with(&parts, " "), parts.join(" "));
    let one = vec!["solo".to_string()];
    assert_eq!(join_with(&one, " "), "solo");
    let none: Vec<String> = vec![];
    assert_eq!(join_with(&none, " "), "");
}

#[test]
fn optional_score_rendering_matches_debug() {
    assert_eq!(fmt_opt_u32(&None), format!("{:?}", Option::<u32>::None));
    assert_eq!(fmt_opt_u32(&Some(42)), format!("{:?}", Some(42u32)));
    assert_eq!(fmt_opt_u32(&Some(0)), "Some(0)");
}

#[test]
fn index_list_rendering_matches_debug() {
    let empty: Vec<u32> = vec![];
    assert_eq!(fmt_vec_u32(&empty), format!("{:?}", empty));
    let few: Vec<u32> = vec![0, 1, 2];
    assert_eq!(fmt_vec_u32(&few), format!("{:?}", few));
    let one: Vec<u32> = vec![9];
    assert_eq!(fmt_vec_u32(&one), format!("{:?}", one));
}
