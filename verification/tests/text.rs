use cosmic_applet_docker::text::{decimal_text, push_decimal, same_text, trim_leading};

#[test]
fn same_text_compares_characters() {
    assert!(same_text("die", "die"));
    assert!(!same_text("die", "died"));
    assert!(!same_text("Die", "die"));
    assert!(same_text("", ""));
}

#[test]
fn decimal_text_writes_numbers_without_leading_zeros() {
    assert_eq!(decimal_text(0), "0");
    assert_eq!(decimal_text(7), "7");
    assert_eq!(decimal_text(10), "10");
    assert_eq!(decimal_text(8080), "8080");
    assert_eq!(decimal_text(65535), "65535");
    assert_eq!(decimal_text(u64::MAX), "18446744073709551615");
}

#[test]
fn decimal_text_writes_each_digit() {
    let digits: Vec<String> = (0..10).map(decimal_text).collect();
    assert_eq!(digits.concat(), "0123456789");
    assert_eq!(decimal_text(1234567890), "1234567890");
}

#[test]
fn push_decimal_appends_to_what_is_there() {
    assert_eq!(push_decimal("port ".to_string(), 443), "port 443");
}

#[test]
fn trim_leading_removes_the_whole_run() {
    assert_eq!(trim_leading("/web", '/'), "web");
    assert_eq!(trim_leading("//web", '/'), "web");
    assert_eq!(trim_leading("web/", '/'), "web/");
    assert_eq!(trim_leading("we/b", '/'), "we/b");
    assert_eq!(trim_leading("///", '/'), "");
    assert_eq!(trim_leading("", '/'), "");
    assert_eq!(trim_leading("/é/x", '/'), "é/x");
}
