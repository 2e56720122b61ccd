use midetor::text::{
    chars_to_string, contains_chars, eq_chars, find_sub_from, rfind_sub_before, starts_with,
    str_to_chars,
};

#[test]
fn string_conversion_round_trips_multibyte_text() {
    let original = "mixed a\u{e9}\u{6f22}z text";
    let v = str_to_chars(original);
    assert_eq!(v.len(), original.chars().count());
    assert_eq!(chars_to_string(&v), original);
}

#[test]
fn substring_search_finds_first_and_last_occurrences() {
    let hay = str_to_chars("ab [[x]] cd [[y]]");
    let needle = str_to_chars("[[");
    assert_eq!(find_sub_from(&hay, &needle, 0), Some(3));
    assert_eq!(find_sub_from(&hay, &needle, 4), Some(12));
    assert_eq!(find_sub_from(&hay, &needle, 13), None);
    assert_eq!(rfind_sub_before(&hay, &needle, hay.len()), Some(12));
    assert_eq!(rfind_sub_before(&hay, &needle, 12), Some(3));
    assert_eq!(rfind_sub_before(&hay, &needle, 3), None);
}

#[test]
fn containment_and_prefix_checks() {
    let hay = str_to_chars("hello world");
    assert!(contains_chars(&hay, &str_to_chars("lo wo")));
    assert!(!contains_chars(&hay, &str_to_chars("low")));
    assert!(contains_chars(&hay, &str_to_chars("")));
    assert!(starts_with(&hay, &str_to_chars("hell")));
    assert!(!starts_with(&hay, &str_to_chars("world")));
    assert!(eq_chars(&hay, &str_to_chars("hello world")));
    assert!(!eq_chars(&hay, &str_to_chars("hello worl")));
}
