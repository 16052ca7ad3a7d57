use cat_database_server::text::{
    characters, contains_text, decimal_text, same_text, signed_decimal_text,
};

#[test]
fn decimal_of_zero_is_one_digit() {
    assert_eq!(decimal_text(0), "0");
}

#[test]
fn decimal_of_single_digits() {
    let expected = ["0", "1", "2", "3", "4", "5", "6", "7", "8", "9"];
    for (n, text) in expected.iter().enumerate() {
        assert_eq!(decimal_text(n as u64), *text);
    }
}

#[test]
fn decimal_has_no_leading_zeros() {
    assert_eq!(decimal_text(10), "10");
    assert_eq!(decimal_text(100), "100");
    assert_eq!(decimal_text(999), "999");
    assert_eq!(decimal_text(1005), "1005");
}

#[test]
fn decimal_of_the_largest_number() {
    assert_eq!(decimal_text(u64::MAX), "18446744073709551615");
}

#[test]
fn decimal_agrees_with_the_standard_formatter() {
    for n in [0u64, 7, 42, 4294967295, 4294967296, 9999999999, 12345678901234567] {
        assert_eq!(decimal_text(n), n.to_string());
    }
}

#[test]
fn signed_decimal_of_negative_numbers() {
    assert_eq!(signed_decimal_text(-1), "-1");
    assert_eq!(signed_decimal_text(-5), "-5");
    assert_eq!(signed_decimal_text(-120), "-120");
}

#[test]
fn signed_decimal_of_the_extremes() {
    assert_eq!(signed_decimal_text(i64::MIN), "-9223372036854775808");
    assert_eq!(signed_decimal_text(i64::MAX), "9223372036854775807");
}

#[test]
fn signed_decimal_of_non_negative_numbers() {
    assert_eq!(signed_decimal_text(0), "0");
    assert_eq!(signed_decimal_text(31), "31");
}

#[test]
fn characters_are_the_text_in_order() {
    assert_eq!(characters("cat"), vec!['c', 'a', 't']);
    assert_eq!(characters(""), Vec::<char>::new());
    assert_eq!(characters("ねこ"), vec!['ね', 'こ']);
}

#[test]
fn same_text_compares_character_for_character() {
    assert!(same_text("id", "id"));
    assert!(same_text("", ""));
    assert!(!same_text("id", "ID"));
    assert!(!same_text("id", "id "));
    assert!(!same_text("breed", "bread"));
}

#[test]
fn contains_text_finds_a_part_anywhere() {
    assert!(contains_text("Orange tabby", "Orange"));
    assert!(contains_text("Orange tabby", "tabby"));
    assert!(contains_text("Orange tabby", "ge ta"));
    assert!(contains_text("Persian", "Persian"));
}

#[test]
fn contains_text_is_case_sensitive() {
    assert!(!contains_text("Persian", "persian"));
    assert!(!contains_text("Black cat", "Cat"));
}

#[test]
fn contains_text_has_no_wildcards() {
    assert!(!contains_text("Persian", "Pers.an"));
    assert!(!contains_text("Persian", "P*"));
    assert!(contains_text("a.b", "."));
}

#[test]
fn contains_text_with_the_empty_needle() {
    assert!(contains_text("Calico", ""));
    assert!(contains_text("", ""));
}

#[test]
fn contains_text_with_a_needle_longer_than_the_text() {
    assert!(!contains_text("cat", "cats"));
    assert!(!contains_text("", "a"));
}

#[test]
fn contains_text_needs_the_whole_needle() {
    assert!(!contains_text("aab", "abb"));
    assert!(contains_text("aaab", "aab"));
    assert!(!contains_text("Calico", "Calicoo"));
}

#[test]
fn contains_text_agrees_with_the_standard_search() {
    let texts = ["", "a", "ab", "aba", "Calico", "Black cat", "ねこ cat"];
    for hay in texts {
        for needle in texts {
            assert_eq!(contains_text(hay, needle), hay.contains(needle));
        }
    }
}
