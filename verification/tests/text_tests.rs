use pi_radio::text::{
    byte_len_exceeds, char_boundary, char_is_space, chars_of, parse_decimal, prefix_within_bytes,
    push_chars, push_decimal, push_padded, string_of, trim_chars, utf8_width,
};

fn chars(s: &str) -> Vec<char> {
    s.chars().collect()
}

#[test]
fn whitespace_matches_std() {
    for u in 0u32..0x3100 {
        if let Some(c) = char::from_u32(u) {
            assert_eq!(char_is_space(c), c.is_whitespace(), "char {:x}", u);
        }
    }
}

#[test]
fn trim_matches_std() {
    for s in ["", "  ", " a ", "\tstation\r", "\u{3000}x\u{a0}", "a b", "\u{85}\u{2028}"] {
        let t: String = trim_chars(&chars(s)).into_iter().collect();
        assert_eq!(t, s.trim());
    }
}

#[test]
fn chars_and_strings_round_trip() {
    let s = "Radio Clásica ñ";
    assert_eq!(chars_of(s), chars(s));
    assert_eq!(string_of(&chars(s)), s);
    let mut out = String::from("ab");
    push_chars(&mut out, &['c', 'd']);
    assert_eq!(out, "abcd");
}

#[test]
fn parse_matches_std() {
    let inputs = [
        "0", "7", "+7", "", "+", "-1", "12a", "007", "18446744073709551615",
        "18446744073709551616", "4294967296", "99999999999999999999999", " 5",
    ];
    for s in inputs {
        assert_eq!(parse_decimal(&chars(s)), s.parse::<usize>().ok(), "input {:?}", s);
    }
}

#[test]
fn decimal_formatting() {
    for n in [0u64, 5, 10, 99, 100, 12345, u64::MAX] {
        let mut s = String::new();
        push_decimal(&mut s, n);
        assert_eq!(s, n.to_string());
    }
    let mut s = String::from("x");
    push_padded(&mut s, 7, 2, '0');
    assert_eq!(s, "x07");
    let mut s = String::new();
    push_padded(&mut s, 7, 2, ' ');
    assert_eq!(s, format!("{:2}", 7));
    let mut s = String::new();
    push_padded(&mut s, 123, 2, '0');
    assert_eq!(s, format!("{:02}", 123));
}

#[test]
fn utf8_lengths_match_std() {
    for c in ['a', 'é', '€', '𝄞'] {
        assert_eq!(utf8_width(c), c.len_utf8());
    }
    let s = "ab€d";
    assert!(byte_len_exceeds(&chars(s), 5));
    assert!(!byte_len_exceeds(&chars(s), 6));
}

#[test]
fn byte_prefixes_and_boundaries() {
    let s = "ab€d";
    for n in 0..=7 {
        assert_eq!(char_boundary(&chars(s), n), n <= s.len() && s.is_char_boundary(n), "n = {}", n);
    }
    let p: String = prefix_within_bytes(&chars(s), 4).into_iter().collect();
    assert_eq!(p, "ab");
    let p: String = prefix_within_bytes(&chars(s), 5).into_iter().collect();
    assert_eq!(p, "ab€");
}
