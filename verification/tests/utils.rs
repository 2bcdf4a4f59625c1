use mirrox::utils::{is_whitespace, scrcpy_server_version_from, trim};

#[test]
fn version_file_is_trimmed() {
    assert_eq!(scrcpy_server_version_from("3.2\n"), "3.2");
    assert_eq!(scrcpy_server_version_from("  \t3.2 \r\n"), "3.2");
    assert_eq!(scrcpy_server_version_from("3.2"), "3.2");
}

#[test]
fn trim_edges() {
    assert_eq!(trim(""), "");
    assert_eq!(trim(" \n\t "), "");
    assert_eq!(trim(" a b "), "a b");
    assert_eq!(trim("\u{3000}é\u{00A0}"), "é");
    for s in ["x", "  x", "x  ", " mixed\tinside\n", "\u{2028}y"] {
        assert_eq!(trim(s), s.trim());
    }
}

#[test]
fn white_space_matches_std() {
    for u in 0u32..0x11000 {
        if let Some(c) = char::from_u32(u) {
            assert_eq!(is_whitespace(c), c.is_whitespace(), "U+{:04X}", u);
        }
    }
}
