use hotkey_window::wide::encode_utf16;

#[test]
fn ascii_encodes_one_unit_per_character_plus_nul() {
    assert_eq!(encode_utf16("BUTTON"), vec![0x42, 0x55, 0x54, 0x54, 0x4F, 0x4E, 0]);
}

#[test]
fn empty_string_encodes_to_just_the_nul() {
    assert_eq!(encode_utf16(""), vec![0]);
}

#[test]
fn basic_plane_characters_encode_as_their_code_point() {
    // EURO SIGN, one unit below the surrogate range.
    assert_eq!(encode_utf16("\u{20AC}"), vec![0x20AC, 0]);
}

#[test]
fn supplementary_characters_encode_as_surrogate_pairs() {
    // U+1F600: offset 0xF600 splits into 0xD83D / 0xDE00.
    assert_eq!(encode_utf16("\u{1F600}"), vec![0xD83D, 0xDE00, 0]);
    assert_eq!(encode_utf16("a\u{1F600}b"), vec![0x61, 0xD83D, 0xDE00, 0x62, 0]);
}

#[test]
fn agrees_with_std_encoding() {
    for s in ["My Window", "MyWindowClass", "Click Me", "\u{10FFFF}\u{FFFF}x"] {
        let mut expected: Vec<u16> = s.encode_utf16().collect();
        expected.push(0);
        assert_eq!(encode_utf16(s), expected);
    }
}
