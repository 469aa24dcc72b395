use wf_twitch_notifier::text::{
    chars_of, find, is_whitespace, join, matches_at, parse_u8, push_decimal, replace, same_text,
    split_whitespace, string_of, trim,
};

fn chars(s: &str) -> Vec<char> {
    s.chars().collect()
}

fn text(v: &[char]) -> String {
    v.iter().collect()
}

fn replaced(s: &str, from: &str, to: &str) -> String {
    text(&replace(&chars(s), &chars(from), &chars(to)))
}

#[test]
fn chars_and_strings_round_trip() {
    assert_eq!(chars_of("a🌙b"), vec!['a', '🌙', 'b']);
    assert_eq!(string_of(&vec!['a', '🌙', 'b']), "a🌙b");
    assert_eq!(string_of(&Vec::new()), "");
    assert_eq!(string_of(&chars_of("R-9 Cloud (Veil)")), "R-9 Cloud (Veil)");
}

#[test]
fn whitespace_is_the_unicode_property() {
    let mut code: u32 = 0;
    while code <= 0x10FFFF {
        if let Some(c) = char::from_u32(code) {
            assert_eq!(is_whitespace(c), c.is_whitespace(), "U+{:04X}", code);
        }
        code += 1;
    }
}

#[test]
fn matches_at_checks_bounds_and_content() {
    let s = chars("hello");
    assert!(matches_at(&s, &chars("ll"), 2));
    assert!(!matches_at(&s, &chars("ll"), 3));
    assert!(!matches_at(&s, &chars("lo"), 4));
    assert!(matches_at(&s, &chars(""), 5));
    assert!(!matches_at(&s, &chars(""), 6));
}

#[test]
fn find_gives_the_leftmost_position() {
    assert_eq!(find(&chars("a||b||c"), &chars("||")), Some(1));
    assert_eq!(find(&chars("abc"), &chars("||")), None);
    assert_eq!(find(&chars("abc"), &chars("")), Some(0));
    assert_eq!(find(&chars(""), &chars("")), Some(0));
    assert_eq!(find(&chars("ab"), &chars("abc")), None);
}

#[test]
fn replace_agrees_with_the_standard_library() {
    let cases = [
        ("hello {name}!", "{name}", "bob"),
        ("aaa", "aa", "b"),
        ("aaaa", "aa", "b"),
        ("abc", "", "-"),
        ("", "", "-"),
        ("", "x", "y"),
        ("abc", "abcd", "y"),
        ("abcabc", "abc", ""),
        ("x{a}{a}y", "{a}", "{a}{a}"),
        ("🌙 @{channel_name}", "{channel_name}", "ünïcödé"),
        ("ab", "b", "bb"),
    ];
    for (s, from, to) in cases {
        assert_eq!(replaced(s, from, to), s.replace(from, to), "{:?}", (s, from, to));
    }
}

#[test]
fn replace_exact_values() {
    assert_eq!(replaced("aaa", "aa", "b"), "ba");
    assert_eq!(replaced("abc", "", "-"), "-a-b-c-");
    assert_eq!(replaced("no token", "{x}", "y"), "no token");
}

#[test]
fn trim_agrees_with_the_standard_library() {
    let cases = ["", " ", "  a  ", "a", "\t\na b\u{3000}", "\u{a0}x\u{2028}", " a b ", "   "];
    for s in cases {
        assert_eq!(text(&trim(&chars(s))), s.trim(), "{:?}", s);
    }
}

#[test]
fn split_whitespace_agrees_with_the_standard_library() {
    let cases = [
        "", " ", "r3", " r3  r5\tx9 ", "a\u{3000}b", "abc", "  a", "a  ", "!avg primed flow || r3",
        "\n\t", "a b c", "ünï cödé 🌙",
    ];
    for s in cases {
        let expected: Vec<&str> = s.split_whitespace().collect();
        assert_eq!(split_whitespace(s), expected, "{:?}", s);
    }
}

#[test]
fn split_whitespace_skips_runs_of_white_space() {
    assert_eq!(split_whitespace("  a \t b  "), vec!["a", "b"]);
    assert_eq!(split_whitespace(""), Vec::<&str>::new());
    assert_eq!(split_whitespace(" \n "), Vec::<&str>::new());
}

#[test]
fn join_agrees_with_the_standard_library() {
    let cases: [&[&str]; 5] = [&[], &["a"], &["a", "b"], &["", "", ""], &["x", "||", "r3"]];
    for parts in cases {
        assert_eq!(text(&join(parts, &[' '])), parts.join(" "), "{:?}", parts);
    }
    assert_eq!(text(&join(&["a", "b"], &['|', '|'])), "a||b");
}

#[test]
fn decimal_agrees_with_the_standard_library() {
    let cases: [u128; 9] =
        [0, 1, 9, 10, 99, 100, 4294967295, 18446744073709551615, u128::MAX];
    for n in cases {
        let mut out = Vec::new();
        push_decimal(&mut out, n);
        assert_eq!(text(&out), n.to_string());
    }
}

#[test]
fn decimal_appends() {
    let mut out = vec!['x'];
    push_decimal(&mut out, 120);
    assert_eq!(out, vec!['x', '1', '2', '0']);
}

#[test]
fn parse_u8_agrees_with_the_standard_library() {
    let cases = [
        "", "0", "3", "007", "255", "256", "999", "+3", "+", "-3", "-0", "++3", "3a", "a3", " 3",
        "3 ", "٣", "1234567890123456789012345678901234567890", "+255", "+256", "00000000000255",
    ];
    for s in cases {
        assert_eq!(parse_u8(&chars(s)), s.parse::<u8>().ok(), "{:?}", s);
    }
}

#[test]
fn parse_u8_exact_values() {
    assert_eq!(parse_u8(&chars("3")), Some(3));
    assert_eq!(parse_u8(&chars("255")), Some(255));
    assert_eq!(parse_u8(&chars("256")), None);
    assert_eq!(parse_u8(&chars("abc")), None);
}

#[test]
fn parse_u8_every_value() {
    for n in 0..=300u32 {
        let expected = if n <= 255 { Some(n as u8) } else { None };
        assert_eq!(parse_u8(&chars(&n.to_string())), expected);
    }
}

#[test]
fn same_text_compares_characters() {
    assert!(same_text("!avg", "!avg"));
    assert!(!same_text("!avg", "!av"));
    assert!(!same_text("!avg", "!avh"));
    assert!(same_text("", ""));
}
