use hangul::choseong::{CHOSEONG_BASE, CHOSEONG_LAST, COMPAT_CHOSEONG_BASE, COMPAT_CHOSEONG_LAST};
use hangul::{Choseong, JamoError};

#[test]
fn test_is_conjoining_choseong() {
    assert!(Choseong::is_conjoining_choseong(0x1100));
    assert!(Choseong::is_conjoining_choseong(0x1112));

    assert!(Choseong::is_conjoining_choseong(CHOSEONG_BASE));
    assert!(Choseong::is_conjoining_choseong(CHOSEONG_LAST));

    assert!(!Choseong::is_conjoining_choseong(CHOSEONG_BASE - 1));
    assert!(!Choseong::is_conjoining_choseong(CHOSEONG_LAST + 1));
    assert!(!Choseong::is_conjoining_choseong(0x1113));
}

#[test]
fn test_is_compatibility_choseong() {
    assert!(Choseong::is_compatibility_choseong(0x3131));
    assert!(Choseong::is_compatibility_choseong(0x314E));

    assert!(Choseong::is_compatibility_choseong(COMPAT_CHOSEONG_BASE));
    assert!(Choseong::is_compatibility_choseong(COMPAT_CHOSEONG_LAST));

    assert!(!Choseong::is_compatibility_choseong(COMPAT_CHOSEONG_BASE - 1));
    assert!(!Choseong::is_compatibility_choseong(COMPAT_CHOSEONG_LAST + 1));
    assert!(!Choseong::is_compatibility_choseong(0x314F));
    assert!(!Choseong::is_compatibility_choseong(0xAC00));
}

#[test]
fn test_choseong_construction_from_conjoining() {
    let choseong = Choseong::new(0x1100).unwrap();
    assert_eq!(choseong.conjoining_unicode, 0x1100);
    assert_eq!(choseong.conjoining_value, 'ᄀ');
    assert_eq!(choseong.compatibility_unicode, 0x3131);
    assert_eq!(choseong.compatibility_value, 'ㄱ');

    let choseong = Choseong::new(0x1112).unwrap();
    assert_eq!(choseong.conjoining_unicode, 0x1112);
    assert_eq!(choseong.conjoining_value, 'ᄒ');
    assert_eq!(choseong.compatibility_unicode, 0x314E);
    assert_eq!(choseong.compatibility_value, 'ㅎ');
}

#[test]
fn test_choseong_construction_from_compatibility() {
    let choseong = Choseong::new(0x3131).unwrap();
    assert_eq!(choseong.conjoining_unicode, 0x1100);
    assert_eq!(choseong.conjoining_value, 'ᄀ');
    assert_eq!(choseong.compatibility_unicode, 0x3131);
    assert_eq!(choseong.compatibility_value, 'ㄱ');

    let choseong = Choseong::new(0x314E).unwrap();
    assert_eq!(choseong.conjoining_unicode, 0x1112);
    assert_eq!(choseong.conjoining_value, 'ᄒ');
    assert_eq!(choseong.compatibility_unicode, 0x314E);
    assert_eq!(choseong.compatibility_value, 'ㅎ');
}

#[test]
fn choseong_rejects_a_syllable() {
    assert_eq!(Choseong::new(0xAC00), Err(JamoError::InvalidChoseong));
}

#[test]
fn choseong_rejects_a_vowel_and_a_letter_that_never_leads() {
    // ㅏ is a vowel; ㄳ (U+3133) lies in the range but is no leading consonant.
    assert_eq!(Choseong::new(0x314F), Err(JamoError::InvalidChoseong));
    assert_eq!(Choseong::new(0x3133), Err(JamoError::InvalidChoseong));
    assert_eq!(Choseong::new(0x1113), Err(JamoError::InvalidChoseong));
}

#[test]
fn choseong_from_a_letter_that_skips_table_entries() {
    // ㄴ (U+3134) is the third choseong: U+3133 is skipped.
    let choseong = Choseong::new(0x3134).unwrap();
    assert_eq!(choseong.conjoining_unicode, 0x1102);
    assert_eq!(choseong.conjoining_value, 'ᄂ');
}

#[test]
fn choseong_duality_over_the_block() {
    for code in 0x1100u32..=0x1112 {
        let from_conjoining = Choseong::new(code).unwrap();
        let from_compatibility = Choseong::new(from_conjoining.compatibility_unicode).unwrap();
        assert_eq!(from_conjoining, from_compatibility);
    }
}
