use chat_application::decimal::push_decimal;
use chat_application::decimal::read_decimal;
use chat_application::matching::contains_ignoring_case;
use chat_application::matching::contains_lowered;
use chat_application::text::char_is_white_space;
use chat_application::text::collect_chars;
use chat_application::text::string_from_chars;
use chat_application::text::trim_chars;

fn chars(s: &str) -> Vec<char> {
    s.chars().collect()
}

fn trimmed(s: &str) -> String {
    trim_chars(&chars(s)).into_iter().collect()
}

fn decimal(n: u64) -> String {
    let mut out = String::new();
    push_decimal(&mut out, n);
    out
}

fn number(s: &str) -> Option<u64> {
    read_decimal(&chars(s), 0)
}

#[test]
fn white_space_is_what_the_standard_library_calls_white_space() {
    for code in 0..=0x10FFFFu32 {
        if let Some(c) = char::from_u32(code) {
            assert_eq!(char_is_white_space(c), c.is_whitespace(), "U+{:04X}", code);
        }
    }
}

#[test]
fn white_space_examples() {
    assert!(char_is_white_space(' '));
    assert!(char_is_white_space('\t'));
    assert!(char_is_white_space('\n'));
    assert!(char_is_white_space('\r'));
    assert!(char_is_white_space('\u{00A0}'));
    assert!(char_is_white_space('\u{3000}'));
    assert!(!char_is_white_space('a'));
    assert!(!char_is_white_space('/'));
    assert!(!char_is_white_space('\u{200B}'));
    assert!(!char_is_white_space('\u{0}'));
}

#[test]
fn collect_chars_gives_the_characters_in_order() {
    assert_eq!(collect_chars(""), Vec::<char>::new());
    assert_eq!(collect_chars("abc"), vec!['a', 'b', 'c']);
    assert_eq!(collect_chars("é✓ z"), vec!['é', '✓', ' ', 'z']);
}

#[test]
fn string_from_chars_copies_the_range() {
    let text = chars("héllo wörld");
    assert_eq!(string_from_chars(&text, 0, text.len()), "héllo wörld");
    assert_eq!(string_from_chars(&text, 0, 5), "héllo");
    assert_eq!(string_from_chars(&text, 6, 11), "wörld");
    assert_eq!(string_from_chars(&text, 3, 3), "");
    assert_eq!(string_from_chars(&text, 11, 11), "");
}

#[test]
fn trim_removes_white_space_at_both_ends_only() {
    assert_eq!(trimmed("  hello world \n"), "hello world");
    assert_eq!(trimmed("hello"), "hello");
    assert_eq!(trimmed("\t a  b \r\n"), "a  b");
    assert_eq!(trimmed(""), "");
    assert_eq!(trimmed("   "), "");
    assert_eq!(trimmed(" \n\t "), "");
    assert_eq!(trimmed("x"), "x");
    assert_eq!(trimmed(" x"), "x");
    assert_eq!(trimmed("x "), "x");
    assert_eq!(trimmed("\u{00A0}\u{2003}wide\u{3000}"), "wide");
}

#[test]
fn trim_agrees_with_the_standard_library() {
    let samples = [
        "",
        " ",
        "a",
        " a",
        "a ",
        "  a b  ",
        "\n/user 5\n",
        "\u{2028}line\u{2029}",
        "\u{200B} not white \u{200B}",
        "\u{0085}next line\u{0085}",
        " \u{1680}ogham\u{205F} ",
        "tab\there",
    ];
    for sample in samples {
        assert_eq!(trimmed(sample), sample.trim(), "{:?}", sample);
    }
}

#[test]
fn decimal_writes_numbers_without_leading_zeros() {
    assert_eq!(decimal(0), "0");
    assert_eq!(decimal(7), "7");
    assert_eq!(decimal(9), "9");
    assert_eq!(decimal(10), "10");
    assert_eq!(decimal(305), "305");
    assert_eq!(decimal(1000), "1000");
    assert_eq!(decimal(1_700_000_000), "1700000000");
    assert_eq!(decimal(u64::MAX), "18446744073709551615");
}

#[test]
fn decimal_is_added_at_the_end() {
    let mut out = String::from("id ");
    push_decimal(&mut out, 42);
    push_decimal(&mut out, 0);
    assert_eq!(out, "id 420");
}

#[test]
fn decimal_agrees_with_the_standard_library() {
    let mut n: u64 = 1;
    for _ in 0..200 {
        assert_eq!(decimal(n), n.to_string());
        assert_eq!(decimal(n - 1), (n - 1).to_string());
        n = n.wrapping_mul(6364136223846793005).wrapping_add(1442695040888963407) | 1;
    }
    let mut power: u64 = 1;
    for _ in 0..19 {
        power *= 10;
        assert_eq!(decimal(power), power.to_string());
        assert_eq!(decimal(power - 1), (power - 1).to_string());
    }
}

#[test]
fn read_decimal_reads_digits() {
    assert_eq!(number("0"), Some(0));
    assert_eq!(number("5"), Some(5));
    assert_eq!(number("42"), Some(42));
    assert_eq!(number("007"), Some(7));
    assert_eq!(number("18446744073709551615"), Some(u64::MAX));
    assert_eq!(number("00000000000000000000000000001"), Some(1));
}

#[test]
fn read_decimal_takes_one_plus_sign() {
    assert_eq!(number("+5"), Some(5));
    assert_eq!(number("+0"), Some(0));
    assert_eq!(number("+"), None);
    assert_eq!(number("++5"), None);
    assert_eq!(number("5+"), None);
}

#[test]
fn read_decimal_refuses_what_is_no_number() {
    assert_eq!(number(""), None);
    assert_eq!(number(" "), None);
    assert_eq!(number(" 5"), None);
    assert_eq!(number("5 "), None);
    assert_eq!(number("-5"), None);
    assert_eq!(number("-0"), None);
    assert_eq!(number("abc"), None);
    assert_eq!(number("12a"), None);
    assert_eq!(number("1.5"), None);
    assert_eq!(number("1_000"), None);
    assert_eq!(number("0x10"), None);
    assert_eq!(number("٣"), None);
    assert_eq!(number("１"), None);
}

#[test]
fn read_decimal_refuses_numbers_that_do_not_fit() {
    assert_eq!(number("18446744073709551616"), None);
    assert_eq!(number("18446744073709551620"), None);
    assert_eq!(number("99999999999999999999"), None);
    assert_eq!(number("100000000000000000000000"), None);
    assert_eq!(number("+18446744073709551616"), None);
}

#[test]
fn read_decimal_starts_where_it_is_told() {
    let text = chars("/user 15");
    assert_eq!(read_decimal(&text, 6), Some(15));
    assert_eq!(read_decimal(&text, 7), Some(5));
    assert_eq!(read_decimal(&text, 8), None);
    assert_eq!(read_decimal(&text, 5), None);
    assert_eq!(read_decimal(&text, 0), None);
}

#[test]
fn read_decimal_agrees_with_the_standard_library() {
    let samples = [
        "", "+", "-", "0", "+0", "-0", "00", "1", "+1", "-1", "12", "1 2", " 12", "12 ", "1e3",
        "18446744073709551615", "18446744073709551616", "+18446744073709551615",
        "018446744073709551615", "184467440737095516150", "a", "1a", "a1", "++1", "+-1", "٣",
        "12345678901234567890", "9223372036854775808",
    ];
    for sample in samples {
        assert_eq!(number(sample), sample.parse::<u64>().ok(), "{:?}", sample);
    }
}

#[test]
fn read_and_write_decimal_undo_each_other() {
    for n in [0u64, 1, 9, 10, 11, 99, 100, 12345, u64::MAX - 1, u64::MAX] {
        assert_eq!(number(&decimal(n)), Some(n));
    }
}

#[test]
fn contains_ignoring_case_finds_hello_world() {
    assert!(contains_ignoring_case("Hello World", "world"));
    assert!(contains_ignoring_case("Hello World", "HELLO"));
    assert!(contains_ignoring_case("Hello World", "o W"));
    assert!(contains_ignoring_case("Hello World", "Hello World"));
    assert!(!contains_ignoring_case("Hello World", "Hello World!"));
    assert!(!contains_ignoring_case("Hello World", "word"));
    assert!(!contains_ignoring_case("Hello World", "dlrow"));
}

#[test]
fn contains_ignoring_case_with_empty_texts() {
    assert!(contains_ignoring_case("Hello", ""));
    assert!(contains_ignoring_case("", ""));
    assert!(!contains_ignoring_case("", "a"));
}

#[test]
fn contains_ignoring_case_lowers_both_sides() {
    assert!(contains_ignoring_case("ABC", "abc"));
    assert!(contains_ignoring_case("abc", "ABC"));
    assert!(contains_ignoring_case("Straße", "STRASSE".to_lowercase().as_str()) == false);
    assert!(contains_ignoring_case("ÀÉÎ", "àéî"));
    assert!(contains_ignoring_case("àéî", "ÀÉÎ"));
}

#[test]
fn contains_lowered_expects_a_lowered_keyword() {
    assert!(contains_lowered("Hello World", "world"));
    assert!(contains_lowered("Hello World", "hello"));
    assert!(!contains_lowered("Hello World", "World"));
    assert!(contains_lowered("anything", ""));
}
