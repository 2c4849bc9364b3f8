use wiiland::text::{
    append_decimal, append_hex, append_padded, append_signed, contains, is_whitespace, trim,
};

#[test]
fn whitespace_is_what_the_language_says() {
    for n in 0..=0x10ffff_u32 {
        if let Some(c) = char::from_u32(n) {
            assert_eq!(is_whitespace(c), c.is_whitespace(), "{n:x}");
        }
    }
}

#[test]
fn trimming_takes_both_ends() {
    for s in ["", " ", " a", "a ", "\t a b\u{3000}\n", "a"] {
        assert_eq!(trim(s), s.trim());
    }
}

#[test]
fn substrings_are_found() {
    for (hay, needle) in [("abcabd", "abd"), ("", ""), ("abc", ""), ("ab", "abc"), ("äöü", "ö")] {
        assert_eq!(contains(hay, needle), hay.contains(needle));
    }
}

#[test]
fn numbers_are_written_as_usual() {
    for n in [0, 1, 9, 10, 99, 12345, u64::MAX] {
        let mut out = String::new();
        append_decimal(&mut out, n);
        out.push(' ');
        append_hex(&mut out, n);
        assert_eq!(out, format!("{n} {n:x}"));
    }
    for n in [0, -1, 42, i64::MIN, i64::MAX] {
        let mut out = String::new();
        append_signed(&mut out, n);
        assert_eq!(out, n.to_string());
    }
    let mut out = String::new();
    append_padded(&mut out, 42, 6);
    assert_eq!(out, "000042");
}
