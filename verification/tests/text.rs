use lfm::paths::{is_absolute, join};
use lfm::text::{
    char_len, chars_eq, chars_less, chars_of, contains_chars, count_lines, decimal,
    ends_with_chars, signed_decimal, slice_chars, starts_with_chars, string_of, to_ascii_lower,
};

#[test]
fn decimal_writes_every_digit() {
    assert_eq!(decimal(0), "0");
    assert_eq!(decimal(7), "7");
    assert_eq!(decimal(1234567890), "1234567890");
    assert_eq!(decimal(u64::MAX), "18446744073709551615");
}

#[test]
fn signed_decimal_puts_the_sign_in_front() {
    assert_eq!(signed_decimal(0), "0");
    assert_eq!(signed_decimal(42), "42");
    assert_eq!(signed_decimal(-42), "-42");
    assert_eq!(signed_decimal(i64::MIN), "-9223372036854775808");
}

#[test]
fn count_lines_matches_str_lines() {
    for s in ["", "a", "a\nb", "a\nb\n", "\n\n", "\nx", "é\nü\n\nz"] {
        assert_eq!(count_lines(s), s.lines().count(), "{s:?}");
    }
}

#[test]
fn chars_round_trip_through_a_string() {
    let v = chars_of("héllo");
    assert_eq!(v, vec!['h', 'é', 'l', 'l', 'o']);
    assert_eq!(string_of(&v), "héllo");
    assert_eq!(char_len(&"héllo".to_string()), 5);
}

#[test]
fn slice_chars_counts_characters_not_bytes() {
    assert_eq!(slice_chars("héllo", 1, 3), "él");
    assert_eq!(slice_chars("héllo", 5, 5), "");
}

#[test]
fn ascii_lowering_leaves_other_letters_alone() {
    assert_eq!(to_ascii_lower('A'), 'a');
    assert_eq!(to_ascii_lower('z'), 'z');
    assert_eq!(to_ascii_lower('É'), 'É');
    assert_eq!(to_ascii_lower('['), '[');
}

#[test]
fn searching_inside_character_runs() {
    let hay = chars_of("archive.tar.gz");
    assert!(contains_chars(&hay, &chars_of("tar")));
    assert!(contains_chars(&hay, &chars_of("")));
    assert!(!contains_chars(&hay, &chars_of("zip")));
    assert!(ends_with_chars(&hay, &chars_of(".tar.gz")));
    assert!(!ends_with_chars(&hay, &chars_of(".zip")));
    assert!(starts_with_chars(&hay, &chars_of("arch")));
    assert!(!starts_with_chars(&chars_of("ar"), &chars_of("arch")));
}

#[test]
fn comparing_character_runs() {
    assert!(chars_eq(&chars_of("abc"), &chars_of("abc")));
    assert!(!chars_eq(&chars_of("abc"), &chars_of("abd")));
    assert!(chars_less(&chars_of("abc"), &chars_of("abd")));
    assert!(chars_less(&chars_of("ab"), &chars_of("abc")));
    assert!(!chars_less(&chars_of("abc"), &chars_of("abc")));
    assert!(chars_less(&chars_of("B"), &chars_of("a")));
    assert_eq!(chars_less(&chars_of("é"), &chars_of("z")), "é" < "z");
}

#[test]
fn joining_paths_follows_the_unix_rules() {
    assert_eq!(join("/tmp", "a"), "/tmp/a");
    assert_eq!(join("/tmp/", "a"), "/tmp/a");
    assert_eq!(join("/tmp", "/etc"), "/etc");
    assert_eq!(join("", "a"), "a");
    assert_eq!(join("/", "a"), "/a");
    assert!(is_absolute("/x"));
    assert!(!is_absolute("x/y"));
    assert!(!is_absolute(""));
}
