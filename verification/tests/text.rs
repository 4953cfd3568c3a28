use expend::text::{
    char_is_whitespace, char_to_lower, matches_exactly, matches_lowercase, push_decimal,
    push_money, segment_ranges, to_chars, trim_range,
};

fn pieces(s: &str, sep: char) -> Vec<String> {
    let chars = to_chars(s);
    segment_ranges(&chars, 0, chars.len(), sep)
        .into_iter()
        .map(|(a, b)| chars[a..b].iter().collect())
        .collect()
}

fn trimmed(s: &str) -> String {
    let chars = to_chars(s);
    let (a, b) = trim_range(&chars, 0, chars.len());
    chars[a..b].iter().collect()
}

fn decimal(n: u64) -> String {
    let mut out = String::from("n=");
    push_decimal(&mut out, n);
    out
}

fn money(cents: i32) -> String {
    let mut out = String::new();
    push_money(&mut out, cents);
    out
}

#[test]
fn text_to_chars_counts_characters_not_bytes() {
    assert_eq!(to_chars(""), Vec::<char>::new());
    assert_eq!(to_chars("a\u{20ac}c"), vec!['a', '\u{20ac}', 'c']);
}

#[test]
fn text_whitespace_is_what_std_calls_whitespace() {
    let mut n: u32 = 0;
    while n <= 0x10FFFF {
        if let Some(c) = char::from_u32(n) {
            assert_eq!(char_is_whitespace(c), c.is_whitespace(), "U+{:04X}", n);
        }
        n += 1;
    }
}

#[test]
fn text_lower_is_ascii_lowercase() {
    let mut n: u32 = 0;
    while n <= 0x10FFFF {
        if let Some(c) = char::from_u32(n) {
            assert_eq!(char_to_lower(c), c.to_ascii_lowercase(), "U+{:04X}", n);
        }
        n += 1;
    }
}

#[test]
fn text_trim_agrees_with_std() {
    for s in [
        "",
        " ",
        "a",
        "  a",
        "a  ",
        " a b ",
        "\t\n a\u{a0}b \u{3000}\u{2028}",
        "\u{85}x\u{1680}",
        "\u{200b}x",
    ] {
        assert_eq!(trimmed(s), s.trim());
    }
}

#[test]
fn text_trim_range_stays_within_the_range() {
    let chars = to_chars("ab  cd  ef");
    assert_eq!(trim_range(&chars, 2, 8), (4, 6));
    assert_eq!(trim_range(&chars, 2, 4), (4, 4));
    assert_eq!(trim_range(&chars, 0, 0), (0, 0));
    assert_eq!(trim_range(&chars, 1, 9), (1, 9));
}

#[test]
fn text_segments_are_trimmed_and_not_empty() {
    assert_eq!(pieces("a,b", ','), vec!["a", "b"]);
    assert_eq!(pieces(" a , , b c ,", ','), vec!["a", "b c"]);
    assert_eq!(pieces("", ','), Vec::<String>::new());
    assert_eq!(pieces(" , ,,", ','), Vec::<String>::new());
    assert_eq!(pieces("abc", ','), vec!["abc"]);
    assert_eq!(pieces("-a--b-", '-'), vec!["a", "b"]);
    assert_eq!(pieces("a,b", '-'), vec!["a,b"]);
}

#[test]
fn text_segment_ranges_point_into_the_text() {
    let chars = to_chars("x, ab ,c");
    assert_eq!(
        segment_ranges(&chars, 0, chars.len(), ','),
        vec![(0, 1), (3, 5), (7, 8)]
    );
    assert_eq!(segment_ranges(&chars, 2, 6, ','), vec![(3, 5)]);
}

#[test]
fn text_matches() {
    let chars = to_chars("xxMoNdayxx");
    assert!(matches_lowercase(&chars, 2, 8, "monday"));
    assert!(!matches_lowercase(&chars, 2, 8, "Monday"));
    assert!(!matches_lowercase(&chars, 2, 7, "monday"));
    assert!(!matches_lowercase(&chars, 2, 8, "mondax"));
    assert!(matches_lowercase(&chars, 3, 3, ""));
    assert!(matches_exactly(&chars, 2, 8, "MoNday"));
    assert!(!matches_exactly(&chars, 2, 8, "monday"));
    assert!(!matches_exactly(&chars, 1, 8, "MoNday"));
}

#[test]
fn text_decimal() {
    assert_eq!(decimal(0), "n=0");
    assert_eq!(decimal(7), "n=7");
    assert_eq!(decimal(10), "n=10");
    assert_eq!(decimal(1203), "n=1203");
    assert_eq!(decimal(u64::MAX), "n=18446744073709551615");
}

#[test]
fn text_money() {
    assert_eq!(money(0), "0.00");
    assert_eq!(money(5), "0.05");
    assert_eq!(money(-5), "-0.05");
    assert_eq!(money(480), "4.80");
    assert_eq!(money(-960), "-9.60");
    assert_eq!(money(2400), "24.00");
    assert_eq!(money(123_456), "1234.56");
    assert_eq!(money(i32::MAX), "21474836.47");
    assert_eq!(money(i32::MIN), "-21474836.48");
}
