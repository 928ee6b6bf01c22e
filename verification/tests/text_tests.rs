use filmtrack::decimal::{parse_decimal_in, push_decimal};
use filmtrack::text::{
    char_is_whitespace, chars_of, contains_chars, find_in, last_nonempty_piece, same_text,
    skip_prefixes, split_bounds, substring, text_contains, trim_bounds, trimmed, words_bounds,
};

fn decimal_string(n: u64) -> String {
    let mut out = String::new();
    push_decimal(&mut out, n);
    out
}

fn pieces(text: &str, sep: char) -> Vec<String> {
    let v = chars_of(text);
    split_bounds(&v, sep).iter().map(|&(a, b)| v[a..b].iter().collect()).collect()
}

fn word_list(text: &str) -> Vec<String> {
    let v = chars_of(text);
    words_bounds(&v, 0, v.len()).iter().map(|&(a, b)| v[a..b].iter().collect()).collect()
}

#[test]
fn characters_come_out_in_order() {
    assert_eq!(chars_of("a第b"), vec!['a', '第', 'b']);
    assert_eq!(chars_of(""), Vec::<char>::new());
}

#[test]
fn whitespace_is_what_the_standard_library_calls_whitespace() {
    for code in 0..=0x10ffffu32 {
        if let Some(c) = char::from_u32(code) {
            assert_eq!(char_is_whitespace(c), c.is_whitespace(), "U+{code:04X}");
        }
    }
}

#[test]
fn trimming_agrees_with_the_standard_library() {
    for text in [
        "",
        " ",
        "a",
        "  a  ",
        "\t\n a b \r\n",
        "\u{3000}标题\u{3000}",
        "\u{a0}x\u{2003}y\u{205f}",
        "   ",
        "a  ",
        "  a",
        "\u{200b}a\u{200b}",
        "\u{1680}\u{2028}\u{2029}\u{202f}q\u{85}",
    ] {
        assert_eq!(trimmed(text), text.trim(), "{text:?}");
    }
}

#[test]
fn trim_bounds_cut_inside_a_range() {
    let v = chars_of("ab  cd  ef");
    assert_eq!(trim_bounds(&v, 2, 8), (4, 6));
    assert_eq!(trim_bounds(&v, 2, 4), (4, 4));
    assert_eq!(trim_bounds(&v, 0, 10), (0, 10));
}

#[test]
fn splitting_agrees_with_the_standard_library() {
    for text in ["", "a", "a/b", "/a", "a/", "//", "a//b", "https://x.y/z/", "第/季/"] {
        let expected: Vec<String> = text.split('/').map(|s| s.to_string()).collect();
        assert_eq!(pieces(text, '/'), expected, "{text:?}");
    }
}

#[test]
fn a_text_always_splits_into_at_least_one_piece() {
    assert_eq!(pieces("", '.'), vec![String::new()]);
    assert_eq!(pieces("abc", '.'), vec!["abc".to_string()]);
}

#[test]
fn words_agree_with_the_standard_library() {
    for text in ["", " ", "a", " a  b ", "标签: 剧情\u{3000}经典\t悬疑\n", "  \u{a0} ", "x\u{2003}y"] {
        let expected: Vec<String> = text.split_whitespace().map(|s| s.to_string()).collect();
        assert_eq!(word_list(text), expected, "{text:?}");
    }
}

#[test]
fn last_piece_that_is_not_empty() {
    assert_eq!(
        last_nonempty_piece("https://movie.douban.com/subject/1292052/", '/'),
        Some("1292052".to_string())
    );
    assert_eq!(last_nonempty_piece("a/b", '/'), Some("b".to_string()));
    assert_eq!(last_nonempty_piece("abc", '/'), Some("abc".to_string()));
    assert_eq!(last_nonempty_piece("", '/'), None);
    assert_eq!(last_nonempty_piece("///", '/'), None);
    for text in ["x//y///", "/", "a/", "/a", "//a//"] {
        let expected = text.split('/').filter(|s| !s.is_empty()).last().map(|s| s.to_string());
        assert_eq!(last_nonempty_piece(text, '/'), expected, "{text:?}");
    }
}

#[test]
fn finding_agrees_with_the_standard_library() {
    let cases = [
        ("abcabc", "bc"),
        ("abcabc", "cb"),
        ("", ""),
        ("abc", ""),
        ("", "a"),
        ("aaa", "aa"),
        ("英雄 / Hero / Ying Xiong", " / "),
        ("边缘行者（Netflix）", "（"),
        ("abc", "abcd"),
    ];
    for (text, pattern) in cases {
        let v = chars_of(text);
        let p = chars_of(pattern);
        let expected = text.find(pattern).map(|byte| text[..byte].chars().count());
        assert_eq!(find_in(&v, &p, 0), expected, "{pattern:?} in {text:?}");
        assert_eq!(contains_chars(&v, &p), text.contains(pattern));
        assert_eq!(text_contains(text, pattern), text.contains(pattern));
    }
}

#[test]
fn finding_from_a_position_skips_earlier_occurrences() {
    let v = chars_of("a / b / c");
    let p = chars_of(" / ");
    assert_eq!(find_in(&v, &p, 0), Some(1));
    assert_eq!(find_in(&v, &p, 1), Some(1));
    assert_eq!(find_in(&v, &p, 2), Some(5));
    assert_eq!(find_in(&v, &p, 6), None);
    assert_eq!(find_in(&v, &p, 100), None);
}

#[test]
fn every_leading_repetition_of_a_prefix_is_skipped() {
    for (text, prefix) in [
        ("标签:标签: a", "标签:"),
        ("标签: a", "标签:"),
        ("a 标签:", "标签:"),
        ("aaaa", "aa"),
        ("aaa", "aa"),
        ("", "a"),
        ("abc", ""),
    ] {
        let v = chars_of(text);
        let p = chars_of(prefix);
        let start = skip_prefixes(&v, &p, 0, v.len());
        let rest: String = v[start..].iter().collect();
        assert_eq!(rest, text.trim_start_matches(prefix), "{prefix:?} off {text:?}");
    }
}

#[test]
fn substring_counts_characters_not_bytes() {
    assert_eq!(substring("边缘行者（Netflix）", 5, 12), "Netflix");
    assert_eq!(substring("abc", 0, 0), "");
    assert_eq!(substring("abc", 1, 3), "bc");
}

#[test]
fn same_text_compares_letter_for_letter() {
    assert!(same_text("", ""));
    assert!(same_text("剧集", "剧集"));
    assert!(!same_text("剧集", "剧"));
    assert!(!same_text("abc", "abd"));
    assert!(!same_text("1.2", "1.2.0"));
}

#[test]
fn decimal_numerals_are_written_without_padding() {
    for n in [0u64, 1, 9, 10, 99, 100, 1500, 4294967295, 4294967296, u64::MAX] {
        assert_eq!(decimal_string(n), n.to_string());
    }
    let mut out = String::from("start=");
    push_decimal(&mut out, 30);
    assert_eq!(out, "start=30");
}

#[test]
fn decimal_parsing_agrees_with_the_standard_library() {
    let texts = [
        "", "+", "-", "0", "+0", "-0", "00", "12", "+12", "-12", "1 2", " 12", "12 ",
        "18446744073709551615", "18446744073709551616", "018446744073709551615", "1a", "a1", "٣",
        "１２", "1.0", "1e3",
    ];
    for text in texts {
        let v = chars_of(text);
        assert_eq!(
            parse_decimal_in(&v, 0, v.len(), u64::MAX),
            text.parse::<u64>().ok(),
            "u64 from {text:?}"
        );
        assert_eq!(
            parse_decimal_in(&v, 0, v.len(), u32::MAX as u64),
            text.parse::<u32>().ok().map(|n| n as u64),
            "u32 from {text:?}"
        );
        assert_eq!(
            parse_decimal_in(&v, 0, v.len(), 255),
            text.parse::<u8>().ok().map(|n| n as u64),
            "u8 from {text:?}"
        );
    }
}

#[test]
fn decimal_parsing_reads_only_the_given_range() {
    let v = chars_of("ab123cd");
    assert_eq!(parse_decimal_in(&v, 2, 5, 1000), Some(123));
    assert_eq!(parse_decimal_in(&v, 2, 4, 1000), Some(12));
    assert_eq!(parse_decimal_in(&v, 1, 5, 1000), None);
    assert_eq!(parse_decimal_in(&v, 2, 2, 1000), None);
    assert_eq!(parse_decimal_in(&v, 2, 5, 122), None);
    assert_eq!(parse_decimal_in(&v, 2, 5, 123), Some(123));
}

#[test]
fn reading_back_a_written_numeral_gives_the_number() {
    for n in [0u64, 7, 15, 45, 4294967295, u64::MAX] {
        let text = decimal_string(n);
        let v = chars_of(&text);
        assert_eq!(parse_decimal_in(&v, 0, v.len(), u64::MAX), Some(n));
    }
}
