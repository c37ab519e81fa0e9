use erp_ai::text::{chars_of, decimal_text, replace_char, str_eq, string_from_chars, substring, trim};

#[test]
fn trim_removes_surrounding_whitespace() {
    assert_eq!(trim("  Hello World \t\n"), "Hello World");
    assert_eq!(trim("   "), "");
    assert_eq!(trim(""), "");
    assert_eq!(trim("\u{3000}x\u{3000}"), "x");
    assert_eq!(trim("a b"), "a b");
}

#[test]
fn replace_char_replaces_every_occurrence() {
    assert_eq!(replace_char("a b c", ' ', '_'), "a_b_c");
    assert_eq!(replace_char("abc", ' ', '_'), "abc");
}

#[test]
fn decimal_text_prints_numbers() {
    assert_eq!(decimal_text(0), "0");
    assert_eq!(decimal_text(7), "7");
    assert_eq!(decimal_text(10), "10");
    assert_eq!(decimal_text(1234567890), "1234567890");
    assert_eq!(decimal_text(u64::MAX), u64::MAX.to_string());
}

#[test]
fn chars_and_substrings() {
    let cs = chars_of("Đà Nẵng");
    assert_eq!(cs.len(), 7);
    assert_eq!(string_from_chars(&cs), "Đà Nẵng");
    assert_eq!(substring(&cs, 3, 7), "Nẵng");
    assert_eq!(substring(&cs, 2, 2), "");
}

#[test]
fn str_eq_compares_contents() {
    assert!(str_eq("abc", "abc"));
    assert!(!str_eq("abc", "abd"));
    assert!(!str_eq("abc", "ab"));
}
