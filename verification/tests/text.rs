use chmod_bpf::text::{decimal_string, has_prefix, signed_decimal_string};

#[test]
fn decimal_string_writes_single_digits() {
    for n in 0..10u32 {
        assert_eq!(decimal_string(n), n.to_string());
    }
}

#[test]
fn decimal_string_writes_without_leading_zeros() {
    assert_eq!(decimal_string(10), "10");
    assert_eq!(decimal_string(100), "100");
    assert_eq!(decimal_string(502), "502");
    assert_eq!(decimal_string(1_000_000), "1000000");
    assert_eq!(decimal_string(u32::MAX), "4294967295");
}

#[test]
fn decimal_string_agrees_with_the_standard_library() {
    let mut n: u32 = 1;
    for _ in 0..2000 {
        assert_eq!(decimal_string(n), n.to_string());
        n = n.wrapping_mul(2_654_435_761).wrapping_add(12_345);
    }
}

#[test]
fn signed_decimal_string_writes_the_sign() {
    assert_eq!(signed_decimal_string(0), "0");
    assert_eq!(signed_decimal_string(1), "1");
    assert_eq!(signed_decimal_string(-1), "-1");
    assert_eq!(signed_decimal_string(255), "255");
    assert_eq!(signed_decimal_string(i32::MAX), "2147483647");
    assert_eq!(signed_decimal_string(i32::MIN), "-2147483648");
}

#[test]
fn has_prefix_compares_the_beginning() {
    assert!(has_prefix("bpf0", "bpf"));
    assert!(has_prefix("bpf", "bpf"));
    assert!(has_prefix("anything", ""));
    assert!(has_prefix("", ""));
    assert!(!has_prefix("bp", "bpf"));
    assert!(!has_prefix("", "bpf"));
    assert!(!has_prefix("Bpf0", "bpf"));
    assert!(!has_prefix("xbpf0", "bpf"));
}

#[test]
fn has_prefix_counts_characters_not_bytes() {
    assert!(has_prefix("\u{e9}t\u{e9}", "\u{e9}t"));
    assert!(!has_prefix("\u{e9}t\u{e9}", "\u{e8}"));
    assert!(!has_prefix("e", "\u{e9}"));
}
