use vstd::prelude::*;
use vstd::string::StrSliceExecFns;
use crate::choseong::Choseong;
use crate::hangul_letter::{jamo_at, jamo_letters, push_jamo_letters, syllable_jamo, syllable_positions};
use crate::jongseong::Jongseong;
use crate::jungseong::Jungseong;
use crate::nfc::{NFC, spec_is_complete_hangul, spec_is_nfc_hangul};

verus! {

/// One composed Hangul syllable with its jamo.
#[derive(Debug)]
pub struct HangulChar {
    pub value: char,
    pub unicode: Vec<u32>,
    pub choseong: Choseong,
    pub jungseong: Jungseong,
    pub jongseong: Option<Jongseong>,
}

impl HangulChar {
    /// Whether this is what parsing the syllable `ch` gives.
    pub open spec fn spec_parsed_from(self, ch: char) -> bool {
        &&& self.value == ch
        &&& self.unicode@ == seq![ch as u32]
        &&& jamo_at(syllable_positions(ch as u32), self.choseong, self.jungseong, self.jongseong)
    }

    /// The compatibility letters of this syllable.
    pub open spec fn spec_disassemble(self) -> Seq<char> {
        jamo_letters(self.choseong, self.jungseong, self.jongseong)
    }

    /// Parses a string that is exactly one composed syllable; anything else
    /// gives `None`.
    pub fn parse(string: &str) -> (r: Option<HangulChar>)
        ensures
            r is Some <==> spec_is_nfc_hangul(string@),
            r matches Some(h) ==> h.spec_parsed_from(string@[0]),
    {
        if !NFC::is_nfc_hangul(string) {
            return None;
        }
        Self::parse_from_char(string.get_char(0))
    }

    /// Parses one composed syllable; any other character gives `None`.
    pub fn parse_from_char(ch: char) -> (r: Option<HangulChar>)
        ensures
            r is Some <==> spec_is_complete_hangul(ch as u32),
            r matches Some(h) ==> h.spec_parsed_from(ch),
    {
        if !NFC::is_nfc_hangul_char(ch) {
            return None;
        }
        let unicode = ch as u32;
        let (choseong, jungseong, jongseong) = syllable_jamo(unicode);
        let h = HangulChar { value: ch, unicode: vec![unicode], choseong, jungseong, jongseong };
        assert(h.unicode@ =~= seq![ch as u32]);
        Some(h)
    }

    /// The compatibility letters of the syllable: choseong, jungseong and, if
    /// there is one, the jongseong, a cluster written as its two consonants.
    pub fn disassemble(&self) -> (r: String)
        ensures
            r@ == self.spec_disassemble(),
    {
        let mut result = String::new();
        push_jamo_letters(&mut result, &self.choseong, &self.jungseong, &self.jongseong);
        result
    }

    /// Tells whether the syllable has a trailing consonant.
    pub fn has_batchim(&self) -> (r: bool)
        ensures
            r == self.jongseong is Some,
    {
        self.jongseong.is_some()
    }
}

} // verus!
