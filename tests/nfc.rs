use hangul::NFC;

#[test]
fn test_is_complete_hangul() {
    assert!(NFC::is_complete_hangul(0xAC00));
    assert!(NFC::is_complete_hangul(0xB098));
    assert!(NFC::is_complete_hangul(0xB2E4));
    assert!(NFC::is_complete_hangul(0xD7A3));

    assert!(!NFC::is_complete_hangul(0xABFF));
    assert!(!NFC::is_complete_hangul(0xD7A4));
    assert!(!NFC::is_complete_hangul(0x3131));
    assert!(!NFC::is_complete_hangul(0x1100));
    assert!(!NFC::is_complete_hangul(0x0041));
}

#[test]
fn test_is_nfc_hangul() {
    assert!(NFC::is_nfc_hangul("가"));
    assert!(NFC::is_nfc_hangul("힣"));
    assert!(NFC::is_nfc_hangul("한"));
    assert!(NFC::is_nfc_hangul("글"));
    assert!(NFC::is_nfc_hangul("놀"));

    assert!(!NFC::is_nfc_hangul(""));
    assert!(!NFC::is_nfc_hangul("가나"));
    assert!(!NFC::is_nfc_hangul("a"));
    assert!(!NFC::is_nfc_hangul("ㄱ"));
    assert!(!NFC::is_nfc_hangul("ᄀ"));

    let nfd_ga = "\u{1100}\u{1161}";
    assert!(!NFC::is_nfc_hangul(nfd_ga));
}

#[test]
fn nfc_hangul_char_bounds() {
    assert!(NFC::is_nfc_hangul_char('가'));
    assert!(NFC::is_nfc_hangul_char('힣'));
    assert!(!NFC::is_nfc_hangul_char('\u{ABFF}'));
    assert!(!NFC::is_nfc_hangul_char('\u{D7A4}'));
    assert!(!NFC::is_nfc_hangul_char('ㄱ'));
}
