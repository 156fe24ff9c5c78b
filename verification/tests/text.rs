use pc_custom::text::{decode_hex16, has_exe_suffix, is_whitespace, lower_hex, text_eq, trim_text};

#[test]
fn trimming_removes_unicode_white_space_at_both_ends_only() {
    assert_eq!(trim_text("\u{3000} 名前\t\n"), "名前");
    assert_eq!(trim_text("a b"), "a b");
    assert_eq!(trim_text(" \u{2003} "), "");
    for c in ['\t', '\n', '\u{0b}', '\u{0c}', '\r', ' ', '\u{85}', '\u{a0}', '\u{1680}', '\u{2000}', '\u{200a}', '\u{2028}', '\u{2029}', '\u{202f}', '\u{205f}', '\u{3000}'] {
        assert!(is_whitespace(c));
        assert_eq!(is_whitespace(c), c.is_whitespace());
    }
    for c in ['a', '\u{200b}', '\u{feff}', '名'] {
        assert_eq!(is_whitespace(c), c.is_whitespace());
    }
    let sample = "\u{2001}x\u{a0}";
    assert_eq!(trim_text(sample), sample.trim());
    assert_eq!(trim_text(&trim_text(sample)), trim_text(sample));
}

#[test]
fn sixteen_byte_ids_decode_from_either_case_of_hex() {
    let bytes = [0x00, 0x11, 0x22, 0x33, 0x44, 0x55, 0x66, 0x77, 0x88, 0x99, 0xaa, 0xbb, 0xcc, 0xdd, 0xee, 0xff];
    assert_eq!(decode_hex16("00112233445566778899AABBCCDDEEFF"), Some(bytes));
    assert_eq!(decode_hex16(&lower_hex(&bytes)), Some(bytes));
    assert_eq!(decode_hex16("0011"), None);
    assert_eq!(decode_hex16("zz112233445566778899aabbccddeeff"), None);
    assert_eq!(decode_hex16(&"0".repeat(34)), None);
}

#[test]
fn executables_are_recognised_by_their_suffix_in_any_case() {
    let chars = |s: &str| s.chars().collect::<Vec<char>>();
    assert!(has_exe_suffix(&chars(r"C:\g.exe")));
    assert!(has_exe_suffix(&chars(r"C:\g.ExE")));
    assert!(!has_exe_suffix(&chars(r"C:\g.exe.txt")));
    assert!(!has_exe_suffix(&chars("exe")));
    assert!(text_eq("a", "a") && !text_eq("a", "b"));
}
