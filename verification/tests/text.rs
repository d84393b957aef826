use docker_monitor::text::{is_text, join, shorten, trim_start, write_decimal};

#[test]
fn decimal_numbers() {
    assert_eq!(write_decimal(0), "0");
    assert_eq!(write_decimal(9), "9");
    assert_eq!(write_decimal(10), "10");
    assert_eq!(write_decimal(65535), "65535");
    assert_eq!(write_decimal(u128::MAX), u128::MAX.to_string());
}

#[test]
fn joining_texts() {
    let parts = |texts: &[&str]| texts.iter().map(|t| t.to_string()).collect::<Vec<String>>();
    assert_eq!(join(&parts(&[]), ", "), "");
    assert_eq!(join(&parts(&["a"]), ", "), "a");
    assert_eq!(join(&parts(&["a", "", "b"]), ", "), "a, , b");
}

#[test]
fn trimming_texts() {
    assert_eq!(trim_start("/web", '/'), "web");
    assert_eq!(trim_start("///a/b", '/'), "a/b");
    assert_eq!(trim_start("web/", '/'), "web/");
    assert_eq!(trim_start("//", '/'), "");
    assert_eq!(trim_start("/ä/ö", '/'), "ä/ö");
}

#[test]
fn shortening_texts() {
    assert_eq!(shorten("0123456789abcdef", 12), "0123456789ab");
    assert_eq!(shorten("abc", 12), "abc");
    assert_eq!(shorten("äöüß", 2), "äö");
    assert_eq!(shorten("abc", 0), "");
}

#[test]
fn comparing_texts() {
    assert!(is_text(&"running".to_string(), "running"));
    assert!(!is_text(&"Running".to_string(), "running"));
}
