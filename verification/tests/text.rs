use apodize_core::text::{chars_of, is_blank, is_white_space_char, text_less};

#[test]
fn white_space_matches_std_for_every_char() {
    for value in 0u32..=0x10FFFF {
        if let Some(c) = char::from_u32(value) {
            assert_eq!(is_white_space_char(c), c.is_whitespace(), "U+{value:04X}");
        }
    }
}

#[test]
fn blank_matches_trim() {
    for text in ["", " ", "   ", "\t\n\r", "\u{3000}\u{2028}", "a", " a ", "\u{200B}", "x\u{85}"] {
        assert_eq!(is_blank(text), text.trim().is_empty(), "{text:?}");
    }
}

#[test]
fn text_order_matches_str() {
    let samples = ["", "a", "b", "ab", "abc", "B", "alpha", "beta", "é", "z", "\u{10000}", "\u{ffff}"];
    for a in samples {
        for b in samples {
            assert_eq!(text_less(a, b), a < b, "{a:?} < {b:?}");
        }
    }
}

#[test]
fn chars_of_keeps_every_char() {
    assert_eq!(chars_of("añ\u{1F600}"), vec!['a', 'ñ', '\u{1F600}']);
}
