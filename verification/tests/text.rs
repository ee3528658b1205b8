use rumbledome::text::{append_decimal, append_hex, append_signed, message_with_number, str_contains, str_ends_with, str_equal};

#[test]
fn decimal_and_hex_formatting() {
    let mut s = String::from("n=");
    append_decimal(&mut s, 0);
    append_decimal(&mut s, 1_234_567);
    assert_eq!(s, "n=01234567");
    let mut h = String::new();
    append_hex(&mut h, 0xBEEF, 8);
    assert_eq!(h, "0000beef");
    let mut g = String::new();
    append_signed(&mut g, -50);
    append_signed(&mut g, 7);
    assert_eq!(g, "-507");
    assert_eq!(message_with_number("a ", 42, " b"), "a 42 b");
}

#[test]
fn substring_tests() {
    assert!(str_contains("manifold pressure", "fold"));
    assert!(!str_contains("dome", "domes"));
    assert!(str_contains("x", ""));
    assert!(str_ends_with("backup.bak", ".bak"));
    assert!(!str_ends_with("bak", ".bak"));
    assert!(str_equal("0.1.0", "0.1.0"));
    assert!(!str_equal("0.1.0", "0.1"));
}

#[test]
fn signed_extremes() {
    let mut s = String::new();
    append_signed(&mut s, i64::MIN);
    assert_eq!(s, "-9223372036854775808");
    let mut t = String::new();
    append_signed(&mut t, i64::MAX);
    assert_eq!(t, "9223372036854775807");
    let mut z = String::new();
    append_signed(&mut z, 0);
    assert_eq!(z, "0");
}
