use grengin_api::text::{
    char_vec, i64_text, is_whitespace, push_decimal, same_text, starts_with, str_contains, trim,
    trim_start, u64_text,
};

#[test]
fn text_trim_uses_unicode_whitespace() {
    assert_eq!(trim("  a b \n"), "a b");
    assert_eq!(trim("\u{3000}x\u{2003}"), "x");
    assert_eq!(trim("   "), "");
    assert_eq!(trim(""), "");
    assert_eq!(trim_start("\t x "), "x ");
    assert!(is_whitespace('\u{85}'));
    assert!(!is_whitespace('x'));
    assert!(!is_whitespace('\u{200B}'));
}

#[test]
fn text_search_and_compare() {
    assert!(str_contains("my_web_search_tool", "web_search"));
    assert!(!str_contains("web", "web_search"));
    assert!(str_contains("abc", ""));
    assert!(starts_with("[DONE]", "[D"));
    assert!(!starts_with("x", "xy"));
    assert!(same_text("é", "é"));
    assert!(!same_text("a", "A"));
    assert_eq!(char_vec("héllo"), vec!['h', 'é', 'l', 'l', 'o']);
}

#[test]
fn text_decimals() {
    assert_eq!(u64_text(0), "0");
    assert_eq!(u64_text(1234567890), "1234567890");
    assert_eq!(u64_text(u64::MAX), u64::MAX.to_string());
    assert_eq!(i64_text(-42), "-42");
    assert_eq!(i64_text(i64::MIN), i64::MIN.to_string());
    assert_eq!(i64_text(7), "7");
    let mut s = String::from("tool_");
    push_decimal(&mut s, 305);
    assert_eq!(s, "tool_305");
}
