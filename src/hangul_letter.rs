use vstd::prelude::*;
use vstd::string::StrSliceExecFns;
use crate::choseong::{CHOSEONG_BASE, Choseong};
use crate::jongseong::{JONGSEONG_BASE, Jongseong, lemma_jongseong_letters_of_complex};
use crate::jungseong::{JUNGSEONG_BASE, Jungseong};
use crate::nfc::{HANGUL_BASE, NFC, spec_is_complete_hangul, spec_is_nfc_hangul};
use crate::nfd::{NFD, spec_is_nfd_hangul};

verus! {

/// The positions of the choseong and the jungseong and the slot of the
/// jongseong (0 for none) of a composed syllable.
pub open spec fn syllable_positions(code: u32) -> (int, int, int) {
    let offset = code - HANGUL_BASE;
    (offset / 588, (offset % 588) / 28, offset % 28)
}

/// The positions of the jamo of a syllable in decomposed form.
pub open spec fn decomposed_positions(s: Seq<char>) -> (int, int, int) {
    (
        s[0] as u32 - CHOSEONG_BASE,
        s[1] as u32 - JUNGSEONG_BASE,
        if s.len() == 3 {
            s[2] as u32 - JONGSEONG_BASE + 1
        } else {
            0
        },
    )
}

/// Whether `s` is one Hangul syllable, composed or decomposed.
pub open spec fn spec_is_letter(s: Seq<char>) -> bool {
    spec_is_nfc_hangul(s) || spec_is_nfd_hangul(s)
}

/// The positions of the jamo of a one-syllable string in either form.
pub open spec fn letter_positions(s: Seq<char>) -> (int, int, int) {
    if spec_is_nfc_hangul(s) {
        syllable_positions(s[0] as u32)
    } else {
        decomposed_positions(s)
    }
}

/// The jongseong in a slot: none in slot 0.
pub open spec fn jongseong_at_slot(slot: int) -> Option<Jongseong> {
    if slot == 0 {
        None
    } else {
        Some(Jongseong::from_index(slot - 1))
    }
}

/// The compatibility letters of a syllable's jamo, in order, with a cluster
/// jongseong written as its two consonants.
pub open spec fn jamo_letters(
    choseong: Choseong,
    jungseong: Jungseong,
    jongseong: Option<Jongseong>,
) -> Seq<char> {
    seq![choseong.compatibility_value, jungseong.compatibility_value] + match jongseong {
        Some(j) => j.spec_letters(),
        None => Seq::empty(),
    }
}

/// The compatibility letters of the syllable whose jamo stand at `p`.
pub open spec fn position_letters(p: (int, int, int)) -> Seq<char> {
    jamo_letters(Choseong::from_index(p.0), Jungseong::from_index(p.1), jongseong_at_slot(p.2))
}

/// The compatibility letters of a composed syllable.
pub open spec fn syllable_letters(code: u32) -> Seq<char> {
    position_letters(syllable_positions(code))
}

/// Whether the three jamo are those that stand at `p`.
pub open spec fn jamo_at(
    p: (int, int, int),
    choseong: Choseong,
    jungseong: Jungseong,
    jongseong: Option<Jongseong>,
) -> bool {
    &&& choseong == Choseong::from_index(p.0)
    &&& jungseong == Jungseong::from_index(p.1)
    &&& jongseong == jongseong_at_slot(p.2)
}

/// The jamo of a composed syllable.
pub(crate) fn syllable_jamo(code: u32) -> (r: (Choseong, Jungseong, Option<Jongseong>))
    requires
        spec_is_complete_hangul(code),
    ensures
        jamo_at(syllable_positions(code), r.0, r.1, r.2),
{
    let NFD(cho, jung, jong) = NFD::normalize(code).unwrap();
    let choseong = Choseong::new(cho).unwrap();
    let jungseong = Jungseong::new(jung).unwrap();
    let jongseong = match jong {
        Some(j) => Some(Jongseong::new(j).unwrap()),
        None => None,
    };
    (choseong, jungseong, jongseong)
}

/// Appends the compatibility letters of a syllable's jamo to `out`.
pub(crate) fn push_jamo_letters(
    out: &mut String,
    choseong: &Choseong,
    jungseong: &Jungseong,
    jongseong: &Option<Jongseong>,
)
    ensures
        final(out)@ == old(out)@ + jamo_letters(*choseong, *jungseong, *jongseong),
{
    out.push(choseong.compatibility_value);
    out.push(jungseong.compatibility_value);
    if let Some(jong) = jongseong {
        proof {
            lemma_jongseong_letters_of_complex(*jong);
        }
        if jong.is_complex_jongseong() {
            let letters = jong.decompose_complex_jongseong();
            assert(out@ =~= old(out)@ + seq![
                choseong.compatibility_value,
                jungseong.compatibility_value,
            ] + letters@.subrange(0, 0));
            let mut i: usize = 0;
            while i < letters.len()
                invariant
                    i <= letters@.len(),
                    letters@ == jong.spec_letters(),
                    out@ == old(out)@ + seq![
                        choseong.compatibility_value,
                        jungseong.compatibility_value,
                    ] + letters@.subrange(0, i as int),
                decreases letters@.len() - i,
            {
                out.push(letters[i]);
                assert(letters@.subrange(0, i + 1) =~= letters@.subrange(0, i as int).push(
                    letters@[i as int],
                ));
                i = i + 1;
            }
            assert(letters@.subrange(0, letters@.len() as int) =~= letters@);
        } else {
            out.push(jong.compatibility_value);
        }
    }
    assert(final(out)@ =~= old(out)@ + jamo_letters(*choseong, *jungseong, *jongseong));
}

/// One Hangul syllable, given in composed form (one code point) or in
/// decomposed form (two or three conjoining jamo).
#[derive(Debug)]
pub struct HangulLetter {
    pub value: String,
    pub unicode: Vec<u32>,
    pub choseong: Choseong,
    pub jungseong: Jungseong,
    pub jongseong: Option<Jongseong>,
}

impl HangulLetter {
    /// Whether this letter is what parsing `s` gives.
    pub open spec fn spec_parsed_from(self, s: Seq<char>) -> bool {
        &&& self.value@ == s
        &&& self.unicode@ == s.map_values(|c: char| c as u32)
        &&& jamo_at(letter_positions(s), self.choseong, self.jungseong, self.jongseong)
    }

    /// The compatibility letters of this syllable.
    pub open spec fn spec_disassemble(self) -> Seq<char> {
        jamo_letters(self.choseong, self.jungseong, self.jongseong)
    }

    /// Parses one syllable, composed or decomposed; anything else gives `None`.
    pub fn parse(string: &str) -> (r: Option<HangulLetter>)
        ensures
            r is Some <==> spec_is_letter(string@),
            r matches Some(l) ==> l.spec_parsed_from(string@),
    {
        if NFC::is_nfc_hangul(string) {
            assert(string@ =~= seq![string@[0]]);
            return Self::parse_from_char(string.get_char(0));
        }
        if NFD::is_nfd_hangul(string) {
            let len = string.unicode_len();
            let mut unicode: Vec<u32> = Vec::new();
            let mut i: usize = 0;
            while i < len
                invariant
                    len == string@.len(),
                    i <= len,
                    unicode@ == string@.subrange(0, i as int).map_values(|c: char| c as u32),
                decreases len - i,
            {
                unicode.push(string.get_char(i) as u32);
                assert(string@.subrange(0, i + 1) =~= string@.subrange(0, i as int).push(
                    string@[i as int],
                ));
                i = i + 1;
            }
            assert(string@.subrange(0, len as int) =~= string@);
            let choseong = Choseong::new(unicode[0]).unwrap();
            let jungseong = Jungseong::new(unicode[1]).unwrap();
            let jongseong = if len == 3 {
                Some(Jongseong::new(unicode[2]).unwrap())
            } else {
                None
            };
            return Some(
                HangulLetter { value: string.to_owned(), unicode, choseong, jungseong, jongseong },
            );
        }
        None
    }

    /// Parses one composed syllable; any other character gives `None`.
    pub fn parse_from_char(nfc_char: char) -> (r: Option<HangulLetter>)
        ensures
            r is Some <==> spec_is_complete_hangul(nfc_char as u32),
            r matches Some(l) ==> l.spec_parsed_from(seq![nfc_char]),
    {
        if NFC::is_nfc_hangul_char(nfc_char) {
            let unicode = nfc_char as u32;
            let (choseong, jungseong, jongseong) = syllable_jamo(unicode);
            let mut value = String::new();
            value.push(nfc_char);
            let letter = HangulLetter {
                value,
                unicode: vec![unicode],
                choseong,
                jungseong,
                jongseong,
            };
            assert(letter.value@ =~= seq![nfc_char]);
            assert(letter.unicode@ =~= seq![nfc_char].map_values(|c: char| c as u32));
            return Some(letter);
        }
        None
    }

    /// The compatibility letters of the syllable: choseong, jungseong and, if
    /// there is one, the jongseong, a cluster written as its two consonants.
    pub fn disassemble(&self) -> (r: String)
        ensures
            r@ == self.spec_disassemble(),
    {
        let mut result = String::new();
        push_jamo_letters(&mut result, &self.choseong, &self.jungseong, &self.jongseong);
        result
    }

    /// Tells whether the syllable has a trailing consonant.
    pub fn has_batchim(&self) -> (r: bool)
        ensures
            r == self.jongseong is Some,
    {
        self.jongseong.is_some()
    }
}

} // verus!
