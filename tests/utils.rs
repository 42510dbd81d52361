use hangul::is_compatibility_jamo;

#[test]
fn test_compatibility_jamo() {
    assert!(is_compatibility_jamo('ㄱ' as u32));
    assert!(is_compatibility_jamo('ㄴ' as u32));
    assert!(is_compatibility_jamo('ㅏ' as u32));
    assert!(is_compatibility_jamo('ㅣ' as u32));
    assert!(is_compatibility_jamo('ㅥ' as u32));
    assert!(is_compatibility_jamo('ㆎ' as u32));

    assert!(!is_compatibility_jamo('가' as u32));
    assert!(!is_compatibility_jamo('a' as u32));
    assert!(!is_compatibility_jamo('1' as u32));
    assert!(!is_compatibility_jamo('ᄀ' as u32));
}

#[test]
fn compatibility_jamo_bounds() {
    assert!(is_compatibility_jamo(0x3131));
    assert!(is_compatibility_jamo(0x318E));
    assert!(!is_compatibility_jamo(0x3130));
    assert!(!is_compatibility_jamo(0x318F));
}
