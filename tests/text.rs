use waybar_hovermenu::text::{
    contains, join_from, matches_at, parse_number, replace_all, split_lines, split_words, starts_with, str_eq,
    to_decimal, trim,
};

#[test]
fn replace_all_replaces_every_occurrence() {
    assert_eq!(replace_all("{a}-{a}", "{a}", "x"), "x-x");
    assert_eq!(replace_all("aaa", "aa", "b"), "ba");
    assert_eq!(replace_all("none", "{a}", "x"), "none");
}

#[test]
fn substring_tests() {
    assert!(contains("hello world", "o w"));
    assert!(!contains("hi", "hello"));
    assert!(starts_with("WAYBAR-MENU: x", "WAYBAR-MENU:"));
    assert!(!starts_with("x", "xy"));
    assert!(matches_at("abcd", "cd", 2));
    assert!(!matches_at("abcd", "cd", 3));
    assert!(str_eq("é", "é"));
    assert!(!str_eq("a", "b"));
}

#[test]
fn trims_and_splits() {
    assert_eq!(trim("\u{a0} x y \n"), "x y");
    assert_eq!(split_words("  a b\tc  "), vec!["a", "b", "c"]);
    assert_eq!(split_lines("a\r\n\nb\r"), vec!["a", "", "b\r"]);
    assert_eq!(split_lines("x\n"), vec!["x"]);
    let w: Vec<String> = vec!["p".into(), "q".into(), "r".into()];
    assert_eq!(join_from(&w, 1, "-"), "q-r");
}

#[test]
fn numbers_read_and_written() {
    assert_eq!(parse_number("+42", u64::MAX), Some(42));
    assert_eq!(parse_number("4294967296", 0xffff_ffff), None);
    assert_eq!(parse_number("18446744073709551615", u64::MAX), Some(u64::MAX));
    assert_eq!(parse_number("18446744073709551616", u64::MAX), None);
    assert_eq!(parse_number("", 10), None);
    assert_eq!(parse_number("+", 10), None);
    assert_eq!(parse_number("1a", 10), None);
    assert_eq!(to_decimal(0), "0");
    assert_eq!(to_decimal(1234567890), "1234567890");
}
