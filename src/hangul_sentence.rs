use vstd::prelude::*;
use crate::hangul::{char_choseong, char_disassembly, text_choseong, text_disassembly};
use crate::hangul_char::HangulChar;
use crate::hangul_letter::push_jamo_letters;
use crate::nfc::spec_is_complete_hangul;

verus! {

/// One character of a sentence, with its syllable if it is one.
#[derive(Debug)]
struct CharUnit {
    original: char,
    hangul: Option<HangulChar>,
}

impl CharUnit {
    /// The syllable is there exactly when the character is a composed syllable,
    /// and is the parse of that character.
    spec fn wf(self) -> bool {
        &&& self.hangul is Some <==> spec_is_complete_hangul(self.original as u32)
        &&& self.hangul matches Some(h) ==> h.spec_parsed_from(self.original)
    }

    /// The character, with its syllable if it is a composed one.
    fn new(ch: char) -> (r: CharUnit)
        ensures
            r.original == ch,
            r.wf(),
    {
        CharUnit { original: ch, hangul: HangulChar::parse_from_char(ch) }
    }
}

/// A sentence, split into characters, each composed Hangul syllable parsed.
#[derive(Debug)]
pub struct HangulSentence {
    char_units: Vec<CharUnit>,
    original: String,
}

impl View for HangulSentence {
    type V = Seq<char>;

    /// The characters of the sentence.
    closed spec fn view(&self) -> Seq<char> {
        self.original@
    }
}

impl HangulSentence {
    #[verifier::type_invariant]
    spec fn inv(self) -> bool {
        &&& self.char_units@.len() == self.original@.len()
        &&& forall|i: int|
            0 <= i < self.char_units@.len() ==> (#[trigger] self.char_units@[i]).original
                == self.original@[i] && self.char_units@[i].wf()
    }

    /// Splits a sentence into characters and parses each composed syllable.
    pub fn new(text: &str) -> (r: HangulSentence)
        ensures
            r@ == text@,
    {
        let mut char_units: Vec<CharUnit> = Vec::new();
        for ch in it: text.chars()
            invariant
                it.seq() == text@,
                char_units@.len() == it.index(),
                forall|i: int|
                    0 <= i < char_units@.len() ==> (#[trigger] char_units@[i]).original
                        == text@[i] && char_units@[i].wf(),
        {
            char_units.push(CharUnit::new(ch));
        }
        HangulSentence { char_units, original: text.to_owned() }
    }

    /// The sentence as it was given.
    pub fn original(&self) -> (r: &str)
        ensures
            r@ == self@,
    {
        self.original.as_str()
    }

    /// The number of characters of the sentence.
    pub fn len(&self) -> (r: usize)
        ensures
            r == self@.len(),
    {
        proof {
            use_type_invariant(self);
        }
        self.char_units.len()
    }

    /// Tells whether the sentence has no character.
    pub fn is_empty(&self) -> (r: bool)
        ensures
            r == (self@.len() == 0),
    {
        proof {
            use_type_invariant(self);
        }
        self.char_units.len() == 0
    }

    /// The sentence with each composed syllable replaced by its compatibility
    /// letters; other characters stay as they are.
    pub fn disassemble(&self) -> (r: String)
        ensures
            r@ == text_disassembly(self@),
    {
        proof {
            use_type_invariant(self);
        }
        let mut result = String::new();
        let mut i: usize = 0;
        while i < self.char_units.len()
            invariant
                i <= self.char_units@.len(),
                self.char_units@.len() == self@.len(),
                forall|j: int|
                    0 <= j < self.char_units@.len() ==> (#[trigger] self.char_units@[j]).original
                        == self@[j] && self.char_units@[j].wf(),
                result@ == text_disassembly(self@.subrange(0, i as int)),
            decreases self.char_units@.len() - i,
        {
            let unit = &self.char_units[i];
            assert(self@.subrange(0, i + 1).drop_last() =~= self@.subrange(0, i as int));
            match &unit.hangul {
                Some(hangul) => {
                    push_jamo_letters(
                        &mut result,
                        &hangul.choseong,
                        &hangul.jungseong,
                        &hangul.jongseong,
                    );
                },
                None => {
                    result.push(unit.original);
                },
            }
            assert(result@ == text_disassembly(self@.subrange(0, i as int)) + char_disassembly(
                self@[i as int],
            ));
            i = i + 1;
        }
        assert(self@.subrange(0, self@.len() as int) =~= self@);
        result
    }

    /// The sentence with each composed syllable replaced by the compatibility
    /// letter of its choseong; other characters stay as they are.
    pub fn get_choseong(&self) -> (r: String)
        ensures
            r@ == text_choseong(self@),
    {
        proof {
            use_type_invariant(self);
        }
        let mut result = String::new();
        let mut i: usize = 0;
        while i < self.char_units.len()
            invariant
                i <= self.char_units@.len(),
                self.char_units@.len() == self@.len(),
                forall|j: int|
                    0 <= j < self.char_units@.len() ==> (#[trigger] self.char_units@[j]).original
                        == self@[j] && self.char_units@[j].wf(),
                result@ == text_choseong(self@.subrange(0, i as int)),
            decreases self.char_units@.len() - i,
        {
            let unit = &self.char_units[i];
            match &unit.hangul {
                Some(hangul) => {
                    result.push(hangul.choseong.compatibility_value);
                },
                None => {
                    result.push(unit.original);
                },
            }
            assert(text_choseong(self@.subrange(0, i + 1)) =~= text_choseong(
                self@.subrange(0, i as int),
            ).push(char_choseong(self@[i as int])));
            i = i + 1;
        }
        assert(self@.subrange(0, self@.len() as int) =~= self@);
        result
    }
}

} // verus!
