use lum::text::{decode_utf16, nul_terminated, str_eq, to_wide};

#[test]
fn wide_strings_are_utf16_with_a_terminator() {
    assert_eq!(to_wide(""), vec![0]);
    assert_eq!(to_wide("Lum"), vec![0x4C, 0x75, 0x6D, 0]);
    let expected: Vec<u16> = "Ä€😀 x".encode_utf16().chain(std::iter::once(0)).collect();
    assert_eq!(to_wide("Ä€😀 x"), expected);
    assert_eq!(to_wide("😀"), vec![0xD83D, 0xDE00, 0]);
}

#[test]
fn device_names_end_at_their_first_nul() {
    let mut name = [0u16; 32];
    for (i, c) in "\\\\.\\DISPLAY1".encode_utf16().enumerate() {
        name[i] = c;
    }
    name[20] = 0x41;
    let mut expected: Vec<u16> = "\\\\.\\DISPLAY1".encode_utf16().collect();
    expected.push(0);
    assert_eq!(nul_terminated(&name), expected);
    assert_eq!(nul_terminated(&[1, 2, 3]), vec![1, 2, 3, 0]);
    assert_eq!(nul_terminated(&[]), vec![0]);
}

#[test]
fn string_equality_is_exact() {
    assert!(str_eq("night", "night"));
    assert!(!str_eq("night", "Night"));
    assert!(!str_eq("night", "nigh"));
    assert!(str_eq("", ""));
}

#[test]
fn lossy_utf16_decoding() {
    let units: Vec<u16> = "Ä€😀 x".encode_utf16().collect();
    assert_eq!(decode_utf16(&units), "Ä€😀 x");
    assert_eq!(decode_utf16(&[]), "");
    // Unpaired surrogates become U+FFFD; the unit after a lone high one stays.
    assert_eq!(decode_utf16(&[0xD83D, 0x41]), "\u{FFFD}A");
    assert_eq!(decode_utf16(&[0xDE00, 0xD83D]), "\u{FFFD}\u{FFFD}");
    assert_eq!(decode_utf16(&[0xD83D, 0xDE00]), "😀");
    for units in [vec![0xD800u16, 0xD800, 0xDC00], vec![0x61, 0xDFFF, 0xDBFF], vec![0xFFFF, 0xE000]] {
        assert_eq!(decode_utf16(&units), String::from_utf16_lossy(&units));
    }
}
