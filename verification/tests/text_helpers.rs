use fiducia_desktop::text::{
    char_is_control, char_is_whitespace, chars_of, take_chars, trimmed, utf8_len_exceeds,
};

#[test]
fn character_classes_agree_with_std() {
    for code in 0u32..=0x10FFFF {
        if let Some(c) = char::from_u32(code) {
            assert_eq!(char_is_whitespace(c), c.is_whitespace(), "{code:#x}");
            assert_eq!(char_is_control(c), c.is_control(), "{code:#x}");
        }
    }
}

#[test]
fn trimming_agrees_with_std() {
    for s in ["", "   ", " a ", "\u{3000}x\u{85}", "a b", "\u{200B}z", "\tq\n"] {
        assert_eq!(trimmed(s), s.trim());
    }
}

#[test]
fn byte_length_agrees_with_std() {
    for s in ["", "abc", "é", "€uro", "𝄞x", &"é".repeat(70)] {
        let v = chars_of(s);
        assert_eq!(v, s.chars().collect::<Vec<_>>());
        for limit in 0..=150usize {
            assert_eq!(utf8_len_exceeds(&v, limit), s.len() > limit, "{s} {limit}");
        }
    }
}

#[test]
fn taking_characters() {
    assert_eq!(take_chars("héllo", 2), "hé");
    assert_eq!(take_chars("hé", 5), "hé");
}
