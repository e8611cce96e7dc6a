use d3d_window::wide::{encode_utf16, encode_utf16_nul};

#[test]
fn ascii_text_encodes_one_unit_per_char() {
    assert_eq!(encode_utf16("lptext"), vec![108u16, 112, 116, 101, 120, 116]);
    assert_eq!(encode_utf16(""), Vec::<u16>::new());
}

#[test]
fn terminated_form_appends_one_zero() {
    assert_eq!(encode_utf16_nul("Ab"), vec![65u16, 98, 0]);
    assert_eq!(encode_utf16_nul(""), vec![0u16]);
}

#[test]
fn embedded_nul_is_encoded_as_zero() {
    assert_eq!(encode_utf16("WindowClass1\0"), encode_utf16_nul("WindowClass1"));
}

#[test]
fn supplementary_characters_become_surrogate_pairs() {
    assert_eq!(encode_utf16("\u{1F600}"), vec![0xD83Du16, 0xDE00]);
    assert_eq!(encode_utf16("\u{10000}"), vec![0xD800u16, 0xDC00]);
    assert_eq!(encode_utf16("\u{10FFFF}"), vec![0xDBFFu16, 0xDFFF]);
    assert_eq!(encode_utf16("\u{FFFF}"), vec![0xFFFFu16]);
}

#[test]
fn matches_std_encoding() {
    for s in ["Window title", "Our First Windowed Program", "h\u{e9}llo \u{4e16}\u{754c} \u{1F600}!", "lpcaption"] {
        let expected: Vec<u16> = s.encode_utf16().collect();
        assert_eq!(encode_utf16(s), expected);
        let mut terminated = expected.clone();
        terminated.push(0);
        assert_eq!(encode_utf16_nul(s), terminated);
    }
}

#[test]
fn encoding_of_concatenation_is_concatenation() {
    let mut a = encode_utf16("ab\u{1F600}");
    a.extend(encode_utf16("\u{e9}z"));
    assert_eq!(a, encode_utf16("ab\u{1F600}\u{e9}z"));
}

#[test]
fn terminator_is_the_only_zero() {
    for s in ["WindowClass1", "\u{1F600}\u{10000}x", "\u{D7FF}\u{E000}"] {
        let w = encode_utf16_nul(s);
        assert_eq!(w.iter().position(|&u| u == 0), Some(w.len() - 1));
    }
}
