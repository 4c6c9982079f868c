use opencodex_desktop::text::{
    find_text, has_char, hex_lower, push_decimal, starts_with_text, substring, text_eq,
    text_eq_ignore_ascii_case,
};

#[test]
fn decimal_rendering() {
    let mut s = String::from("n=");
    push_decimal(&mut s, 0);
    assert_eq!(s, "n=0");
    let mut s = String::new();
    push_decimal(&mut s, 58195);
    assert_eq!(s, "58195");
    let mut s = String::new();
    push_decimal(&mut s, u64::MAX);
    assert_eq!(s, "18446744073709551615");
}

#[test]
fn hex_rendering_is_two_lower_case_digits_per_byte() {
    assert_eq!(hex_lower(&vec![0x00, 0x0f, 0xa5, 0xff]), "000fa5ff");
    assert_eq!(hex_lower(&vec![]), "");
}

#[test]
fn searching_and_comparing_text() {
    assert_eq!(find_text("ab\r\n\r\ncd\r\n\r\n", "\r\n\r\n"), Some(2));
    assert_eq!(find_text("abc", ""), Some(0));
    assert_eq!(find_text("abc", "abcd"), None);
    assert_eq!(find_text("ééx", "x"), Some(2));
    assert!(has_char("::1", ':'));
    assert!(!has_char("127.0.0.1", ':'));
    assert!(starts_with_text("HTTP/1.1 200 OK", "HTTP/1.1 200"));
    assert!(!starts_with_text("HTTP/1.1", "HTTP/1.1 200"));
    assert!(text_eq("opencodex", "opencodex"));
    assert!(!text_eq("opencodex", "opencodex "));
    assert!(text_eq_ignore_ascii_case("LOCALhost", "localhost"));
    assert!(!text_eq_ignore_ascii_case("localhosts", "localhost"));
    assert!(!text_eq_ignore_ascii_case("ΛOCALHOST", "λocalhost"));
    assert_eq!(substring("héllo", 1, 3), "él");
}
