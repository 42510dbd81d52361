use hangul::{JamoError, Jongseong};

#[test]
fn test_is_conjoining_jongseong() {
    assert!(Jongseong::is_conjoining_jongseong(0x11A8));
    assert!(Jongseong::is_conjoining_jongseong(0x11B8));
    assert!(Jongseong::is_conjoining_jongseong(0x11C2));

    assert!(!Jongseong::is_conjoining_jongseong(0x11A7));
    assert!(!Jongseong::is_conjoining_jongseong(0x11C3));
    assert!(!Jongseong::is_conjoining_jongseong(0x3131));
}

#[test]
fn test_is_compatibility_jongseong() {
    assert!(Jongseong::is_compatibility_jongseong(0x3131));
    assert!(Jongseong::is_compatibility_jongseong(0x3137));
    assert!(Jongseong::is_compatibility_jongseong(0x314E));

    assert!(!Jongseong::is_compatibility_jongseong(0x3130));
    assert!(!Jongseong::is_compatibility_jongseong(0x314F));
    assert!(!Jongseong::is_compatibility_jongseong(0x11A8));
}

#[test]
fn test_new_from_conjoining_jamo() {
    let jongseong = Jongseong::new(0x11A8).unwrap();
    assert_eq!(jongseong.conjoining_unicode, 0x11A8);
    assert_eq!(jongseong.conjoining_value, 'ᆨ');
    assert_eq!(jongseong.compatibility_unicode, 0x3131);
    assert_eq!(jongseong.compatibility_value, 'ㄱ');

    let jongseong = Jongseong::new(0x11AC).unwrap();
    assert_eq!(jongseong.conjoining_unicode, 0x11AC);
    assert_eq!(jongseong.conjoining_value, 'ᆬ');
    assert_eq!(jongseong.compatibility_unicode, 0x3135);
    assert_eq!(jongseong.compatibility_value, 'ㄵ');
}

#[test]
fn test_new_from_compatibility_jamo() {
    let jongseong = Jongseong::new(0x3131).unwrap();
    assert_eq!(jongseong.conjoining_unicode, 0x11A8);
    assert_eq!(jongseong.conjoining_value, 'ᆨ');
    assert_eq!(jongseong.compatibility_unicode, 0x3131);
    assert_eq!(jongseong.compatibility_value, 'ㄱ');

    let jongseong = Jongseong::new(0x3135).unwrap();
    assert_eq!(jongseong.conjoining_unicode, 0x11AC);
    assert_eq!(jongseong.conjoining_value, 'ᆬ');
    assert_eq!(jongseong.compatibility_unicode, 0x3135);
    assert_eq!(jongseong.compatibility_value, 'ㄵ');
}

#[test]
fn test_is_complex_jongseong() {
    assert!(Jongseong::new(0x3133).unwrap().is_complex_jongseong());
    assert!(Jongseong::new(0x3135).unwrap().is_complex_jongseong());
    assert!(Jongseong::new(0x3136).unwrap().is_complex_jongseong());
    assert!(Jongseong::new(0x313A).unwrap().is_complex_jongseong());
    assert!(Jongseong::new(0x313B).unwrap().is_complex_jongseong());
    assert!(Jongseong::new(0x313C).unwrap().is_complex_jongseong());
    assert!(Jongseong::new(0x313D).unwrap().is_complex_jongseong());
    assert!(Jongseong::new(0x313E).unwrap().is_complex_jongseong());
    assert!(Jongseong::new(0x313F).unwrap().is_complex_jongseong());
    assert!(Jongseong::new(0x3140).unwrap().is_complex_jongseong());
    assert!(Jongseong::new(0x3144).unwrap().is_complex_jongseong());

    assert!(!Jongseong::new(0x3131).unwrap().is_complex_jongseong());
    assert!(!Jongseong::new(0x3134).unwrap().is_complex_jongseong());
    assert!(!Jongseong::new(0x3139).unwrap().is_complex_jongseong());
}

#[test]
fn test_decompose_complex_jongseong() {
    assert_eq!(Jongseong::new(0x3133).unwrap().decompose_complex_jongseong(), vec!['ㄱ', 'ㅅ']);
    assert_eq!(Jongseong::new(0x3135).unwrap().decompose_complex_jongseong(), vec!['ㄴ', 'ㅈ']);
    assert_eq!(Jongseong::new(0x3136).unwrap().decompose_complex_jongseong(), vec!['ㄴ', 'ㅎ']);
    assert_eq!(Jongseong::new(0x313A).unwrap().decompose_complex_jongseong(), vec!['ㄹ', 'ㄱ']);
    assert_eq!(Jongseong::new(0x313B).unwrap().decompose_complex_jongseong(), vec!['ㄹ', 'ㅁ']);
    assert_eq!(Jongseong::new(0x313C).unwrap().decompose_complex_jongseong(), vec!['ㄹ', 'ㅂ']);
    assert_eq!(Jongseong::new(0x313D).unwrap().decompose_complex_jongseong(), vec!['ㄹ', 'ㅅ']);
    assert_eq!(Jongseong::new(0x313E).unwrap().decompose_complex_jongseong(), vec!['ㄹ', 'ㅌ']);
    assert_eq!(Jongseong::new(0x313F).unwrap().decompose_complex_jongseong(), vec!['ㄹ', 'ㅍ']);
    assert_eq!(Jongseong::new(0x3140).unwrap().decompose_complex_jongseong(), vec!['ㄹ', 'ㅎ']);
    assert_eq!(Jongseong::new(0x3144).unwrap().decompose_complex_jongseong(), vec!['ㅂ', 'ㅅ']);

    assert_eq!(Jongseong::new(0x3131).unwrap().decompose_complex_jongseong(), vec!['ㄱ']);
    assert_eq!(Jongseong::new(0x3134).unwrap().decompose_complex_jongseong(), vec!['ㄴ']);
    assert_eq!(Jongseong::new(0x3139).unwrap().decompose_complex_jongseong(), vec!['ㄹ']);
}

#[test]
fn jongseong_rejects_a_choseong() {
    assert_eq!(Jongseong::new(0x1100), Err(JamoError::InvalidJongseong));
}

#[test]
fn jongseong_rejects_letters_that_never_end_a_syllable() {
    // ㄸ (U+3138), ㅃ (U+3143) and ㅉ (U+3149) have no trailing form.
    assert_eq!(Jongseong::new(0x3138), Err(JamoError::InvalidJongseong));
    assert_eq!(Jongseong::new(0x3143), Err(JamoError::InvalidJongseong));
    assert_eq!(Jongseong::new(0x3149), Err(JamoError::InvalidJongseong));
}

#[test]
fn jongseong_table_skips_letters_without_a_trailing_form() {
    // ㄹ (U+3139) is the eighth jongseong, not the ninth.
    let jongseong = Jongseong::new(0x3139).unwrap();
    assert_eq!(jongseong.conjoining_unicode, 0x11AF);
    let last = Jongseong::new(0x11C2).unwrap();
    assert_eq!(last.compatibility_value, 'ㅎ');
}

#[test]
fn jongseong_letter_counts_over_the_block() {
    let mut clusters = 0;
    let mut simple = 0;
    for code in 0x11A8u32..=0x11C2 {
        let jongseong = Jongseong::new(code).unwrap();
        let letters = jongseong.decompose_complex_jongseong();
        if jongseong.is_complex_jongseong() {
            assert_eq!(letters.len(), 2);
            clusters += 1;
        } else {
            assert_eq!(letters, vec![jongseong.compatibility_value]);
            simple += 1;
        }
    }
    assert_eq!(clusters, 11);
    assert_eq!(simple, 16);
}

#[test]
fn jongseong_duality_over_the_block() {
    for code in 0x11A8u32..=0x11C2 {
        let from_conjoining = Jongseong::new(code).unwrap();
        let from_compatibility = Jongseong::new(from_conjoining.compatibility_unicode).unwrap();
        assert_eq!(from_conjoining, from_compatibility);
    }
}
