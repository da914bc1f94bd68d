use shairport_dashboard::numbers::{
    is_float_literal_exec, parse_hex_u32, parse_i32, parse_u32, parse_u64,
};
use shairport_dashboard::text::{
    first_token_chars, find_chars, split_lines, split_once_chars, split_tokens, trim_chars,
};

fn v(s: &str) -> Vec<char> {
    s.chars().collect()
}

fn s(v: &[char]) -> String {
    v.iter().collect()
}

const INTEGER_CASES: &[&str] = &[
    "0", "123", "+5", "-5", "", "+", "-", "18446744073709551615", "18446744073709551616",
    "4294967295", "4294967296", "2147483647", "2147483648", "-2147483648", "-2147483649", "-0",
    "--1", "+-1", "12a", " 1", "1 ", "007", "\u{0661}", "99999999999999999999999",
];

#[test]
fn integer_parsing_agrees_with_std() {
    for case in INTEGER_CASES {
        assert_eq!(parse_u64(&v(case)), case.parse::<u64>().ok(), "u64 {case:?}");
        assert_eq!(parse_u32(&v(case)), case.parse::<u32>().ok(), "u32 {case:?}");
        assert_eq!(parse_i32(&v(case)), case.parse::<i32>().ok(), "i32 {case:?}");
    }
}

#[test]
fn hex_parsing_agrees_with_std() {
    for case in ["50005", "0", "ffffffff", "FFFFFFFF", "100000000", "FfA", "+a", "g", "", "-1", "0x1"] {
        assert_eq!(parse_hex_u32(&v(case)), u32::from_str_radix(case, 16).ok(), "{case:?}");
    }
}

#[test]
fn float_literals_agree_with_std() {
    let cases = [
        "65.0", "72.2", "1e5", "1E-3", ".5", "5.", ".", "e5", "inf", "-Infinity", "NaN", "nan ",
        "1_0", "+.5e+2", "0x10", "", "+", "-", "1e", "1e+", "\u{0661}", "iNf", "infin", "N/A",
        "1.2.3", "-36", "1e400", "--1", "+inf", "infinityx", "1.5E+07", "0.0",
    ];
    for case in cases {
        assert_eq!(
            is_float_literal_exec(&v(case)),
            case.parse::<f64>().is_ok(),
            "{case:?}"
        );
    }
}

#[test]
fn trimming_and_tokens_agree_with_std() {
    let cases = [
        "", "  ", "ab", " a b ", "\u{3000}ab\u{85}", "\u{200B}x", "\tkey:\tvalue\r", "x\u{2009}y",
        "\u{A0}\u{1680}z\u{205F}",
    ];
    for case in cases {
        assert_eq!(s(&trim_chars(&v(case))), case.trim(), "{case:?}");
        assert_eq!(
            first_token_chars(&v(case)).map(|t| s(&t)),
            case.split_whitespace().next().map(|t| t.to_string()),
            "{case:?}"
        );
        let tokens: Vec<String> = split_tokens(&v(case)).iter().map(|t| s(t)).collect();
        let expected: Vec<String> = case.split_whitespace().map(|t| t.to_string()).collect();
        assert_eq!(tokens, expected, "{case:?}");
    }
}

#[test]
fn lines_agree_with_std() {
    for case in ["a\r\nb\n", "a\rb", "\n\n", "", "x\r", "one", "a\n\nb\r\n\r\n", "\r\n"] {
        let lines: Vec<String> = split_lines(&v(case)).iter().map(|l| s(l)).collect();
        let expected: Vec<String> = case.lines().map(|l| l.to_string()).collect();
        assert_eq!(lines, expected, "{case:?}");
    }
}

#[test]
fn find_and_split_once_agree_with_std() {
    let cases = [("abcabc", "ca"), ("abc", ""), ("", "a"), ("aaa", "aa"), ("x</data>y", "</data>")];
    for (hay, pat) in cases {
        let char_index = hay.find(pat).map(|b| hay[..b].chars().count());
        assert_eq!(find_chars(&v(hay), &v(pat)), char_index, "{hay:?} {pat:?}");
    }
    assert_eq!(
        split_once_chars(&v("key: a:b"), ':').map(|(a, b)| (s(&a), s(&b))),
        Some(("key".to_string(), " a:b".to_string()))
    );
    assert_eq!(split_once_chars(&v("no colon"), ':'), None);
}
