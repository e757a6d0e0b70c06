use kommunikationszentrum::text::{contains_char, i64_to_string, same_text, u64_to_string};

#[test]
fn unsigned_numbers_are_written_in_decimal() {
    assert_eq!(u64_to_string(0), "0");
    assert_eq!(u64_to_string(9), "9");
    assert_eq!(u64_to_string(10), "10");
    assert_eq!(u64_to_string(999999), "999999");
    assert_eq!(u64_to_string(1234567890), "1234567890");
    assert_eq!(u64_to_string(u64::MAX), "18446744073709551615");
    for n in [1u64, 19, 100, 101, 4096, 1700000000] {
        assert_eq!(u64_to_string(n), n.to_string());
    }
}

#[test]
fn signed_numbers_are_written_in_decimal() {
    assert_eq!(i64_to_string(0), "0");
    assert_eq!(i64_to_string(-1), "-1");
    assert_eq!(i64_to_string(-10), "-10");
    assert_eq!(i64_to_string(1700000000), "1700000000");
    assert_eq!(i64_to_string(i64::MAX), "9223372036854775807");
    assert_eq!(i64_to_string(i64::MIN), "-9223372036854775808");
}

#[test]
fn contains_char_finds_a_character_anywhere() {
    assert!(contains_char("a@b", '@'));
    assert!(contains_char("@", '@'));
    assert!(contains_char("ab@", '@'));
    assert!(!contains_char("", '@'));
    assert!(!contains_char("not-an-email", '@'));
    assert!(contains_char("grüße", 'ü'));
    assert!(!contains_char("grüße", 'u'));
}

#[test]
fn same_text_compares_character_by_character() {
    assert!(same_text("", ""));
    assert!(same_text("upsert", "upsert"));
    assert!(!same_text("upsert", "upsert "));
    assert!(!same_text("upsert", "upserT"));
    assert!(!same_text("", "a"));
    assert!(!same_text("a", ""));
    assert!(same_text("grüße", "grüße"));
    assert!(!same_text("grüße", "grusse"));
}
