use downloader::template::{expand_template, Replacement};
use downloader::text::{
    chars_of, copy_strings, decimal_chars, is_space, push_all, push_padded, push_str,
    signed_decimal_chars, starts_with, string_of, trim_slice,
};

fn chars(text: &str) -> Vec<char> {
    text.chars().collect()
}

fn text(chars: &[char]) -> String {
    chars.iter().collect()
}

fn expand(pairs: &[(&str, &str)], template: &str) -> String {
    let list: Vec<Replacement> = pairs
        .iter()
        .map(|(token, value)| Replacement { token: chars(token), value: chars(value) })
        .collect();
    text(&expand_template(&list, &chars(template)))
}

#[test]
fn whitespace_is_what_unicode_says() {
    for code in 0..=0x10FFFFu32 {
        if let Some(c) = char::from_u32(code) {
            assert_eq!(is_space(c), c.is_whitespace(), "U+{:04X}", code);
        }
    }
}

#[test]
fn trimming_cuts_whitespace_at_both_ends_only() {
    let samples = [
        "",
        " ",
        "\t\r\n",
        "a",
        " a",
        "a ",
        "  a b  ",
        "\u{3000}a\u{2003}b\u{a0}",
        "\u{feff}a ",
        "a\u{200b}",
        " \u{1680} ",
    ];
    for sample in samples {
        assert_eq!(text(trim_slice(&chars(sample))), sample.trim(), "sample {:?}", sample);
    }
}

#[test]
fn strings_and_characters_convert_both_ways() {
    for sample in ["", "abc", "🔴🟠", "a\u{0301}é\n"] {
        assert_eq!(chars_of(sample), chars(sample));
        assert_eq!(string_of(&chars(sample)), sample);
    }
    let list = vec!["a".to_string(), String::new(), "🔴".to_string()];
    assert_eq!(copy_strings(&list), list);
    assert_eq!(copy_strings(&vec![]), Vec::<String>::new());
}

#[test]
fn appending_keeps_what_was_there() {
    let mut out = chars("ab");
    push_all(&mut out, &chars("cd"));
    push_str(&mut out, "");
    push_str(&mut out, "é🔴");
    assert_eq!(text(&out), "abcdé🔴");
}

#[test]
fn prefixes_are_found_at_the_start_only() {
    assert!(starts_with(&chars("#EXTINF:1"), &chars("#EXTINF:")));
    assert!(starts_with(&chars("abc"), &chars("")));
    assert!(starts_with(&chars(""), &chars("")));
    assert!(starts_with(&chars("abc"), &chars("abc")));
    assert!(!starts_with(&chars("ab"), &chars("abc")));
    assert!(!starts_with(&chars(" abc"), &chars("abc")));
    assert!(!starts_with(&chars("abd"), &chars("abc")));
    assert!(!starts_with(&chars(""), &chars("a")));
}

#[test]
fn numerals_are_those_of_the_standard_library() {
    for n in [0u64, 1, 9, 10, 11, 99, 100, 101, 12345, 1_000_000, u64::MAX - 1, u64::MAX] {
        assert_eq!(text(&decimal_chars(n)), n.to_string());
    }
    for n in [0i64, 1, -1, 9, -9, 10, -10, 2021, -2021, i64::MAX, i64::MIN, i64::MIN + 1] {
        assert_eq!(text(&signed_decimal_chars(n)), n.to_string());
    }
}

#[test]
fn padding_fills_up_on_the_left() {
    let pad = |s: &str, width: usize| {
        let mut out = chars(">");
        push_padded(&mut out, &chars(s), width, '0');
        text(&out)
    };
    assert_eq!(pad("5", 2), ">05");
    assert_eq!(pad("05", 2), ">05");
    assert_eq!(pad("123", 2), ">123");
    assert_eq!(pad("", 3), ">000");
    assert_eq!(pad("", 0), ">");
    assert_eq!(pad("-5", 4), format!(">{:0>4}", -5));
    assert_eq!(pad("7", 4), format!(">{:0>4}", 7));
}

#[test]
fn templates_are_read_once_from_left_to_right() {
    let pairs = [("<a>", "1"), ("<b>", "<a>"), ("<ab>", "2")];
    assert_eq!(expand(&pairs, ""), "");
    assert_eq!(expand(&pairs, "x<a>y<b>z<ab>"), "x1y<a>z2");
    assert_eq!(expand(&pairs, "<a><a>"), "11");
    assert_eq!(expand(&pairs, "<<a>>"), "<1>");
    assert_eq!(expand(&pairs, "<a"), "<a");
    assert_eq!(expand(&pairs, "<c> a> <A>"), "<c> a> <A>");
    assert_eq!(expand(&[], "<a>"), "<a>");
}

#[test]
fn the_first_token_in_the_list_wins_and_empty_tokens_stand_nowhere() {
    assert_eq!(expand(&[("ab", "1"), ("a", "2")], "abab a"), "11 2");
    assert_eq!(expand(&[("a", "2"), ("ab", "1")], "abab a"), "2b2b 2");
    assert_eq!(expand(&[("", "x"), ("a", "b")], "aXa"), "bXb");
    assert_eq!(expand(&[("a", "")], "banana"), "bnn");
    assert_eq!(expand(&[("a", "aa")], "aa"), "aaaa");
}
