use collection_bot::text::{parse_u64, split_file_names, string_eq_str};

#[test]
fn parses_plain_numerals() {
    assert_eq!(parse_u64("0"), Some(0));
    assert_eq!(parse_u64("123"), Some(123));
    assert_eq!(parse_u64("1558871120929771521"), Some(1558871120929771521));
    assert_eq!(parse_u64("18446744073709551615"), Some(u64::MAX));
}

#[test]
fn rejects_non_numerals() {
    assert_eq!(parse_u64(""), None);
    assert_eq!(parse_u64("12a"), None);
    assert_eq!(parse_u64("-3"), None);
    assert_eq!(parse_u64(" 1"), None);
    assert_eq!(parse_u64("18446744073709551616"), None);
}

#[test]
fn splits_on_commas() {
    assert_eq!(split_file_names("a.png,b.jpg"), vec!["a.png", "b.jpg"]);
    assert_eq!(split_file_names("single.webm"), vec!["single.webm"]);
    assert_eq!(split_file_names(""), vec![""]);
    assert_eq!(split_file_names("a,,b"), vec!["a", "", "b"]);
    assert_eq!(split_file_names(",x,"), vec!["", "x", ""]);
}

#[test]
fn string_comparison_matches_content() {
    assert!(string_eq_str(&String::from("succeeded"), "succeeded"));
    assert!(!string_eq_str(&String::from("pending"), "succeeded"));
}
