use client_server::text::{contains, decimal_string, split_once, str_equal, trim};

#[test]
fn decimal_of_small_and_large_numbers() {
    assert_eq!(decimal_string(0), "0");
    assert_eq!(decimal_string(7), "7");
    assert_eq!(decimal_string(10), "10");
    assert_eq!(decimal_string(1000), "1000");
    assert_eq!(decimal_string(u64::MAX), u64::MAX.to_string());
}

#[test]
fn trim_drops_surrounding_whitespace() {
    assert_eq!(trim("  1234\r\n"), "1234");
    assert_eq!(trim("\t a b \u{3000}"), "a b");
    assert_eq!(trim("   "), "");
    assert_eq!(trim(""), "");
    assert_eq!(trim("x"), "x");
    for s in ["\u{85}LISTAR\u{a0}", " \u{2009}y\u{2028}", "plain"] {
        assert_eq!(trim(s), s.trim());
    }
}

#[test]
fn trim_twice_is_trim_once() {
    for s in ["  pw  ", "pw", " \n ", "a \t b"] {
        let once = trim(s);
        assert_eq!(trim(&once), once);
    }
}

#[test]
fn contains_finds_pieces() {
    assert!(contains("Please send the SENHA:\n", "Please send the SENHA"));
    assert!(contains("Thank you! You are now connected.\n", "You are now connected"));
    assert!(!contains("You are now DESconnected.\n", "You are now connected"));
    assert!(contains("abc", ""));
    assert!(!contains("ab", "abc"));
    assert!(contains("aaab", "aab"));
}

#[test]
fn split_once_at_first_colon() {
    assert_eq!(
        split_once("127.0.0.1:5555", ':'),
        Some(("127.0.0.1".to_string(), "5555".to_string()))
    );
    assert_eq!(split_once("[::1]:80", ':'), Some(("[".to_string(), ":1]:80".to_string())));
    assert_eq!(split_once("no-colon", ':'), None);
    assert_eq!(split_once(":x", ':'), Some((String::new(), "x".to_string())));
}

#[test]
fn str_equal_compares_text() {
    assert!(str_equal("LISTAR", "LISTAR"));
    assert!(!str_equal("LISTAR", "listar"));
}
