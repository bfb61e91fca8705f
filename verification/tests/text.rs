use memio::text::{
    chars_of, digit_char, ends_with, parse_u32, push_decimal, push_hex4, split, starts_with,
    str_eq,
};

fn chars(s: &str) -> Vec<char> {
    s.chars().collect()
}

#[test]
fn decimal_and_hexadecimal() {
    let mut out = String::from("n=");
    push_decimal(&mut out, 0);
    out.push(',');
    push_decimal(&mut out, 9);
    out.push(',');
    push_decimal(&mut out, 10);
    out.push(',');
    push_decimal(&mut out, 1234567890);
    out.push(',');
    push_decimal(&mut out, u64::MAX);
    assert_eq!(out, "n=0,9,10,1234567890,18446744073709551615");
    let mut out = String::new();
    push_hex4(&mut out, 0);
    push_hex4(&mut out, 0x1f);
    push_hex4(&mut out, 0xabcd);
    push_hex4(&mut out, 0xffff);
    assert_eq!(out, "0000001fabcdffff");
    assert_eq!(digit_char(0), '0');
    assert_eq!(digit_char(9), '9');
    assert_eq!(digit_char(10), 'a');
    assert_eq!(digit_char(15), 'f');
}

#[test]
fn strings_are_compared_by_their_characters() {
    assert!(str_eq("", ""));
    assert!(str_eq("abc", "abc"));
    assert!(str_eq("h\u{e9}llo", "h\u{e9}llo"));
    assert!(!str_eq("abc", "abd"));
    assert!(!str_eq("abc", "ab"));
    assert!(!str_eq("", "a"));
    assert_eq!(chars_of("a\u{e9}\u{1F600}"), vec!['a', '\u{e9}', '\u{1F600}']);
    assert_eq!(chars_of(""), Vec::<char>::new());
}

#[test]
fn prefixes_and_suffixes() {
    assert!(starts_with(&chars("memio_x"), &chars("memio_")));
    assert!(starts_with(&chars("memio_"), &chars("memio_")));
    assert!(starts_with(&chars("x"), &chars("")));
    assert!(!starts_with(&chars("memio"), &chars("memio_")));
    assert!(!starts_with(&chars("xmemio_"), &chars("memio_")));
    assert!(ends_with(&chars("a.bin"), &chars(".bin")));
    assert!(ends_with(&chars(".bin"), &chars(".bin")));
    assert!(ends_with(&chars(""), &chars("")));
    assert!(!ends_with(&chars("bin"), &chars(".bin")));
    assert!(!ends_with(&chars("a.bin "), &chars(".bin")));
}

#[test]
fn splitting_keeps_empty_pieces() {
    let pieces = |s: &str| -> Vec<String> {
        split(&chars(s), '_').into_iter().map(|p| p.into_iter().collect()).collect()
    };
    assert_eq!(pieces(""), vec![""]);
    assert_eq!(pieces("a"), vec!["a"]);
    assert_eq!(pieces("a_b"), vec!["a", "b"]);
    assert_eq!(pieces("_a__b_"), vec!["", "a", "", "b", ""]);
    assert_eq!(pieces("memio_x_5_0_0.bin"), vec!["memio", "x", "5", "0", "0.bin"]);
    for s in ["", "_", "a_b_c", "__", "no separators", "_x_"] {
        let expected: Vec<String> = s.split('_').map(|p| p.to_string()).collect();
        assert_eq!(pieces(s), expected);
    }
}

#[test]
fn numbers_parse_as_the_language_parses_them() {
    for s in [
        "", "0", "7", "007", "+7", "+", "-", "-7", "++7", "+-7", "7+", " 7", "7 ", "4294967295",
        "4294967296", "42949672950", "99999999999999999999999", "1_000", "0x10", "١٢", "+0",
        "00000000000000000000000000001",
    ] {
        assert_eq!(parse_u32(&chars(s)), s.parse::<u32>().ok(), "{:?}", s);
    }
}
