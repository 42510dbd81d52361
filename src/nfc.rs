use vstd::prelude::*;
use vstd::string::StrSliceExecFns;

verus! {

/// First composed Hangul syllable (U+AC00, 가).
pub const HANGUL_BASE: u32 = 0xAC00;

/// Last composed Hangul syllable (U+D7A3, 힣).
pub const HANGUL_LAST: u32 = 0xD7A3;

/// Whether `code` is a composed Hangul syllable.
pub open spec fn spec_is_complete_hangul(code: u32) -> bool {
    HANGUL_BASE <= code <= HANGUL_LAST
}

/// Whether `s` is one composed Hangul syllable and nothing else.
pub open spec fn spec_is_nfc_hangul(s: Seq<char>) -> bool {
    s.len() == 1 && spec_is_complete_hangul(s[0] as u32)
}

/// Tests on Hangul syllables in composed form, one code point each.
pub struct NFC;

impl NFC {
    /// Tells whether a string is exactly one composed Hangul syllable.
    pub fn is_nfc_hangul(string: &str) -> (r: bool)
        ensures
            r == spec_is_nfc_hangul(string@),
    {
        if string.unicode_len() != 1 {
            return false;
        }
        let unicode = string.get_char(0) as u32;
        Self::is_complete_hangul(unicode)
    }

    /// Tells whether a character is a composed Hangul syllable.
    pub fn is_nfc_hangul_char(ch: char) -> (r: bool)
        ensures
            r == spec_is_complete_hangul(ch as u32),
    {
        let code = ch as u32;
        HANGUL_BASE <= code && code <= HANGUL_LAST
    }

    /// Tells whether a code point is a composed Hangul syllable (U+AC00 to U+D7A3).
    pub fn is_complete_hangul(unicode: u32) -> (r: bool)
        ensures
            r == spec_is_complete_hangul(unicode),
    {
        HANGUL_BASE <= unicode && unicode <= HANGUL_LAST
    }
}

} // verus!
