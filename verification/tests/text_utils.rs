use lauta::text::{chars_of, is_white_space_char, parse_i64, trim_bounds, utf8_len_exceeds};

fn parse(s: &str) -> Option<i64> {
    let cs = chars_of(s);
    parse_i64(&cs, 0, cs.len())
}

#[test]
fn parse_matches_std() {
    for s in ["0", "42", "-42", "+7", "-0", "9223372036854775807", "-9223372036854775808", "9223372036854775808",
        "-9223372036854775809", "", "-", "+", "1a", " 1", "1 ", "--1", "+-1", "0001", "99999999999999999999999"] {
        assert_eq!(parse(s), s.parse::<i64>().ok(), "input {:?}", s);
    }
}

#[test]
fn trim_matches_std() {
    for s in ["", "   ", " a ", "\u{3000}x\u{2029}", "a b", "\t\n a\u{a0}", "\u{200b}x\u{200b}"] {
        let cs = chars_of(s);
        let (a, b) = trim_bounds(&cs);
        let got: String = cs[a..b].iter().collect();
        assert_eq!(got, s.trim(), "input {:?}", s);
    }
}

#[test]
fn white_space_matches_std() {
    for u in 0u32..0x3100 {
        if let Some(c) = char::from_u32(u) {
            assert_eq!(is_white_space_char(c), c.is_whitespace(), "char {:x}", u);
        }
    }
}

#[test]
fn utf8_length() {
    let cs = chars_of("aä€😀");
    assert!(!utf8_len_exceeds(&cs, 10));
    assert!(utf8_len_exceeds(&cs, 9));
}
