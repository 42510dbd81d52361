use vstd::prelude::*;
use vstd::string::StrSliceExecFns;
use crate::choseong::{CHOSEONG_BASE, Choseong};
use crate::jongseong::{JONGSEONG_BASE, Jongseong};
use crate::jungseong::{JUNGSEONG_BASE, Jungseong};
use crate::nfc::{HANGUL_BASE, NFC, spec_is_complete_hangul};

verus! {

/// Number of jungseong times number of jongseong slots (one of them empty).
pub const JUNGSEONG_AND_JONGSEONG_NUMBER_OF_CASES: u32 = 588;

/// Number of jongseong slots, the empty one included.
pub const JONGSEONG_SLOTS: u32 = 28;

/// Number of jungseong.
pub const JUNGSEONG_NUMBER: u32 = 21;

/// A syllable in decomposed form: conjoining choseong, conjoining jungseong and,
/// if there is one, conjoining jongseong.
#[derive(Debug, Clone, Copy, PartialEq, Eq, Structural)]
pub struct NFD(pub u32, pub u32, pub Option<u32>);

/// Why a syllable could not be decomposed or composed.
#[derive(Debug, Clone, Copy, PartialEq, Eq, Structural)]
pub enum NormalizeError {
    InvalidHangul,
}

/// The decomposition of a composed syllable, by the arithmetic of the
/// 19 x 21 x 28 layout of the syllable block.
pub open spec fn spec_normalize(code: u32) -> Result<NFD, NormalizeError> {
    if spec_is_complete_hangul(code) {
        let offset = code - HANGUL_BASE;
        let choseong_index = offset / 588;
        let jungseong_index = (offset % 588) / 28;
        let jongseong_index = offset % 28;
        Ok(
            NFD(
                (CHOSEONG_BASE + choseong_index) as u32,
                (JUNGSEONG_BASE + jungseong_index) as u32,
                if jongseong_index > 0 {
                    Some((JONGSEONG_BASE + jongseong_index - 1) as u32)
                } else {
                    None
                },
            ),
        )
    } else {
        Err(NormalizeError::InvalidHangul)
    }
}

/// The slot of an optional jongseong: 0 when there is none.
pub open spec fn jongseong_slot(jongseong: Option<u32>) -> int {
    match jongseong {
        Some(j) => j - JONGSEONG_BASE + 1,
        None => 0,
    }
}

/// Whether `s` is a syllable in decomposed form: a conjoining choseong, a
/// conjoining jungseong and, optionally, a conjoining jongseong.
pub open spec fn spec_is_nfd_hangul(s: Seq<char>) -> bool {
    &&& s.len() == 2 || s.len() == 3
    &&& Choseong::spec_is_conjoining(s[0] as u32)
    &&& Jungseong::spec_is_conjoining(s[1] as u32)
    &&& s.len() == 3 ==> Jongseong::spec_is_conjoining(s[2] as u32)
}

impl NFD {
    /// Whether all three parts are conjoining jamo of their roles.
    pub open spec fn spec_is_valid(self) -> bool {
        &&& Choseong::spec_is_conjoining(self.0)
        &&& Jungseong::spec_is_conjoining(self.1)
        &&& match self.2 {
            Some(j) => Jongseong::spec_is_conjoining(j),
            None => true,
        }
    }

    /// The composed syllable of these parts.
    pub open spec fn spec_compose(self) -> Result<u32, NormalizeError> {
        if self.spec_is_valid() {
            Ok(
                (HANGUL_BASE + ((self.0 - CHOSEONG_BASE) * 21 + (self.1 - JUNGSEONG_BASE)) * 28
                    + jongseong_slot(self.2)) as u32,
            )
        } else {
            Err(NormalizeError::InvalidHangul)
        }
    }

    /// Decomposes a composed syllable into its conjoining jamo.
    pub fn normalize(nfc_letter_unicode: u32) -> (r: Result<NFD, NormalizeError>)
        ensures
            r == spec_normalize(nfc_letter_unicode),
    {
        if !NFC::is_complete_hangul(nfc_letter_unicode) {
            return Err(NormalizeError::InvalidHangul);
        }
        let hangul_code = nfc_letter_unicode - HANGUL_BASE;
        let choseong_index = hangul_code / JUNGSEONG_AND_JONGSEONG_NUMBER_OF_CASES;
        let jungseong_index = (hangul_code % JUNGSEONG_AND_JONGSEONG_NUMBER_OF_CASES)
            / JONGSEONG_SLOTS;
        let jongseong_index = hangul_code % JONGSEONG_SLOTS;
        let choseong = CHOSEONG_BASE + choseong_index;
        let jungseong = JUNGSEONG_BASE + jungseong_index;
        let jongseong = if jongseong_index > 0 {
            Some(JONGSEONG_BASE + jongseong_index - 1)
        } else {
            None
        };
        Ok(NFD(choseong, jungseong, jongseong))
    }

    /// Composes the parts into one syllable; fails when a part is not a
    /// conjoining jamo of its role.
    pub fn compose(&self) -> (r: Result<u32, NormalizeError>)
        ensures
            r == self.spec_compose(),
    {
        if !Choseong::is_conjoining_choseong(self.0) || !Jungseong::is_conjoining_jungseong(
            self.1,
        ) {
            return Err(NormalizeError::InvalidHangul);
        }
        let slot: u32 = match self.2 {
            Some(j) => {
                if !Jongseong::is_conjoining_jongseong(j) {
                    return Err(NormalizeError::InvalidHangul);
                }
                j - JONGSEONG_BASE + 1
            },
            None => 0,
        };
        let choseong_index = self.0 - CHOSEONG_BASE;
        let jungseong_index = self.1 - JUNGSEONG_BASE;
        Ok(HANGUL_BASE + (choseong_index * JUNGSEONG_NUMBER + jungseong_index) * JONGSEONG_SLOTS
            + slot)
    }

    /// Tells whether a string is one syllable in decomposed form.
    pub fn is_nfd_hangul(string: &str) -> (r: bool)
        ensures
            r == spec_is_nfd_hangul(string@),
    {
        let chars_len = string.unicode_len();
        if chars_len != 2 && chars_len != 3 {
            return false;
        }
        let choseong_unicode = string.get_char(0) as u32;
        let jungseong_unicode = string.get_char(1) as u32;
        if !Choseong::is_conjoining_choseong(choseong_unicode) {
            return false;
        }
        if !Jungseong::is_conjoining_jungseong(jungseong_unicode) {
            return false;
        }
        if chars_len == 3 {
            let jongseong_unicode = string.get_char(2) as u32;
            if !Jongseong::is_conjoining_jongseong(jongseong_unicode) {
                return false;
            }
        }
        true
    }
}

/// Decomposing a composed syllable and composing the parts again gives the
/// syllable back.
pub proof fn lemma_round_trip(c: u32)
    requires
        spec_is_complete_hangul(c),
    ensures
        spec_normalize(c) is Ok,
        spec_normalize(c)->Ok_0.spec_compose() == Ok::<u32, NormalizeError>(c),
{
    let offset = c - HANGUL_BASE;
    assert(offset == (offset / 588) * 588 + ((offset % 588) / 28) * 28 + offset % 28);
}

} // verus!
