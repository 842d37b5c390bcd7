use pls::text::{append_decimal, chars_of, starts_with, str_eq, string_of, trim_chars};

#[test]
fn decimal_text() {
    for n in [0i64, 7, 10, 42, -1, -305, i64::MAX, i64::MIN] {
        let mut s = String::from("x");
        append_decimal(&mut s, n);
        assert_eq!(s, format!("x{}", n));
    }
}

#[test]
fn trimming() {
    let v = chars_of(" \t a b \u{2003}\n");
    assert_eq!(string_of(&trim_chars(&v)), "a b");
    let v = chars_of("   ");
    assert!(trim_chars(&v).is_empty());
    let v = chars_of("x");
    assert_eq!(string_of(&trim_chars(&v)), "x");
    let once = trim_chars(&chars_of("  q  "));
    assert_eq!(trim_chars(&once), once);
}

#[test]
fn prefixes_and_equality() {
    let v = chars_of("alias x");
    assert!(starts_with(&v, "alias "));
    assert!(starts_with(&v, ""));
    assert!(!starts_with(&v, "alias x y"));
    assert!(!starts_with(&v, "Alias"));
    assert!(str_eq("héllo", "héllo"));
    assert!(!str_eq("a", "ab"));
}
