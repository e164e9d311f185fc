use mytypeless::text::{chars_eq, chars_of, is_white_space, string_of, trim};

#[test]
fn white_space_matches_std_for_every_char() {
    for u in 0u32..=0x10FFFF {
        if let Some(c) = char::from_u32(u) {
            assert_eq!(is_white_space(c), c.is_whitespace(), "U+{:04X}", u);
        }
    }
}

#[test]
fn trim_matches_std() {
    let samples = [
        "", " ", "a", "  a b  ", "\t\n\r x \u{3000}", "\u{180e}x\u{180e}", "\u{85}\u{a0}y\u{2029}",
        "中文 ", " \u{202f}z\u{205f}\u{200a}",
    ];
    for s in samples {
        assert_eq!(trim(s), s.trim());
    }
}

#[test]
fn char_helpers() {
    let v = chars_of("aé中");
    assert_eq!(v, vec!['a', 'é', '中']);
    assert_eq!(string_of(&v), "aé中");
    assert!(chars_eq(&v, "aé中"));
    assert!(!chars_eq(&v, "aé"));
}

#[test]
fn ascii_facts_of_the_trusted_std_calls_hold() {
    for u in 0u8..128 {
        let c = u as char;
        assert_eq!(c.is_alphabetic(), c.is_ascii_alphabetic());
        let s = c.to_string();
        assert_eq!(s.to_lowercase(), s.to_ascii_lowercase());
    }
}
