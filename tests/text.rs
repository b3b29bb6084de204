use codex_autonomy::text::{decimal_chars, find_chars, replace_all, same_text, signed_decimal_chars, trim};

fn chars(s: &str) -> Vec<char> {
    s.chars().collect()
}

#[test]
fn trim_removes_unicode_white_space() {
    assert_eq!(trim("\u{3000} a b \t\n"), "a b");
    assert_eq!(trim("   "), "");
}

#[test]
fn find_gives_first_occurrence() {
    assert_eq!(find_chars(&chars("a - b - c"), &chars(" - ")), Some(1));
    assert_eq!(find_chars(&chars("abc"), &chars("x")), None);
}

#[test]
fn replace_is_left_to_right_and_non_overlapping() {
    let r: String = replace_all(&chars("aaa"), &chars("aa"), &chars("b")).into_iter().collect();
    assert_eq!(r, "ba");
}

#[test]
fn decimal_numerals() {
    let s: String = decimal_chars(1234567890).into_iter().collect();
    assert_eq!(s, "1234567890");
    let s: String = decimal_chars(0).into_iter().collect();
    assert_eq!(s, "0");
    let s: String = signed_decimal_chars(-42).into_iter().collect();
    assert_eq!(s, "-42");
    let s: String = signed_decimal_chars(i64::MIN).into_iter().collect();
    assert_eq!(s, "-9223372036854775808");
}

#[test]
fn same_text_compares_characters() {
    assert!(same_text("abc", "abc"));
    assert!(!same_text("abc", "abd"));
    assert!(!same_text("ab", "abc"));
}
