use vstd::prelude::*;
use crate::choseong::Choseong;
use crate::hangul_letter::{
    HangulLetter,
    letter_positions,
    push_jamo_letters,
    syllable_letters,
    syllable_positions,
};
use crate::nfc::{spec_is_complete_hangul, spec_is_nfc_hangul};

verus! {

/// What one character of a text becomes when the text is disassembled: the
/// compatibility letters of a composed syllable, any other character itself.
pub open spec fn char_disassembly(c: char) -> Seq<char> {
    if spec_is_complete_hangul(c as u32) {
        syllable_letters(c as u32)
    } else {
        seq![c]
    }
}

/// A text disassembled: each character's disassembly, in order.
pub open spec fn text_disassembly(s: Seq<char>) -> Seq<char>
    decreases s.len(),
{
    if s.len() == 0 {
        Seq::empty()
    } else {
        text_disassembly(s.drop_last()) + char_disassembly(s.last())
    }
}

/// What one character of a text becomes when only leading consonants are
/// kept: the choseong letter of a composed syllable, any other character itself.
pub open spec fn char_choseong(c: char) -> char {
    if spec_is_complete_hangul(c as u32) {
        Choseong::from_index(syllable_positions(c as u32).0).compatibility_value
    } else {
        c
    }
}

/// A text with each composed syllable replaced by its choseong letter.
pub open spec fn text_choseong(s: Seq<char>) -> Seq<char> {
    s.map_values(|c: char| char_choseong(c))
}

/// Disassembling a text with no composed syllable, or keeping its leading
/// consonants, gives the text back.
pub proof fn lemma_pass_through(s: Seq<char>)
    requires
        forall|i: int| 0 <= i < s.len() ==> !spec_is_complete_hangul(#[trigger] s[i] as u32),
    ensures
        text_disassembly(s) == s,
        text_choseong(s) == s,
    decreases s.len(),
{
    assert(text_choseong(s) =~= s);
    if s.len() > 0 {
        let t = s.drop_last();
        assert forall|i: int| 0 <= i < t.len() implies !spec_is_complete_hangul(
            #[trigger] t[i] as u32,
        ) by {
            assert(t[i] == s[i]);
        }
        lemma_pass_through(t);
        assert(!spec_is_complete_hangul(s[s.len() - 1] as u32));
        assert(s =~= t + seq![s.last()]);
    }
}

/// The disassembly of a prefix one character longer.
proof fn lemma_text_disassembly_step(s: Seq<char>, i: int)
    requires
        0 <= i < s.len(),
    ensures
        text_disassembly(s.subrange(0, i + 1)) == text_disassembly(s.subrange(0, i))
            + char_disassembly(s[i]),
{
    assert(s.subrange(0, i + 1).drop_last() =~= s.subrange(0, i));
}

/// One character of a text, with its syllable if it is one.
#[derive(Debug)]
struct CharUnit {
    original: char,
    hangul: Option<HangulLetter>,
}

impl CharUnit {
    /// The character, with its syllable if it is a composed one.
    fn new(ch: char) -> (r: CharUnit)
        ensures
            r.original == ch,
            r.wf(),
    {
        CharUnit { original: ch, hangul: HangulLetter::parse_from_char(ch) }
    }

    /// The syllable is there exactly when the character is a composed syllable,
    /// and is the parse of that character.
    spec fn wf(self) -> bool {
        &&& self.hangul is Some <==> spec_is_complete_hangul(self.original as u32)
        &&& self.hangul matches Some(l) ==> l.spec_parsed_from(seq![self.original])
    }
}

/// A text, split into characters, each composed Hangul syllable parsed.
///
/// Only composed syllables are recognised here: a syllable written as a run of
/// conjoining jamo passes through unchanged, one jamo per character.
/// `HangulLetter::parse` reads such a run when it is handed one syllable.
#[derive(Debug)]
pub struct Hangul {
    char_units: Vec<CharUnit>,
    original: String,
}

impl View for Hangul {
    type V = Seq<char>;

    /// The characters of the text.
    closed spec fn view(&self) -> Seq<char> {
        self.original@
    }
}

impl Hangul {
    #[verifier::type_invariant]
    spec fn inv(self) -> bool {
        &&& self.char_units@.len() == self.original@.len()
        &&& forall|i: int|
            0 <= i < self.char_units@.len() ==> (#[trigger] self.char_units@[i]).original
                == self.original@[i] && self.char_units@[i].wf()
    }

    /// Splits a text into characters and parses each composed syllable.
    pub fn new(string: &str) -> (r: Hangul)
        ensures
            r@ == string@,
    {
        let mut char_units: Vec<CharUnit> = Vec::new();
        for ch in it: string.chars()
            invariant
                it.seq() == string@,
                char_units@.len() == it.index(),
                forall|i: int|
                    0 <= i < char_units@.len() ==> (#[trigger] char_units@[i]).original
                        == string@[i] && char_units@[i].wf(),
        {
            char_units.push(CharUnit::new(ch));
        }
        Hangul { char_units, original: string.to_owned() }
    }

    /// The text as it was given.
    pub fn original(&self) -> (r: &str)
        ensures
            r@ == self@,
    {
        self.original.as_str()
    }

    /// The number of characters of the text.
    pub fn len(&self) -> (r: usize)
        ensures
            r == self@.len(),
    {
        proof {
            use_type_invariant(self);
        }
        self.char_units.len()
    }

    /// Tells whether the text has no character.
    pub fn is_empty(&self) -> (r: bool)
        ensures
            r == (self@.len() == 0),
    {
        proof {
            use_type_invariant(self);
        }
        self.char_units.len() == 0
    }

    /// The text with each composed syllable replaced by its compatibility
    /// letters; other characters stay as they are.
    pub fn disassemble(&self) -> (r: String)
        ensures
            r@ == text_disassembly(self@),
    {
        proof {
            use_type_invariant(self);
        }
        let mut result = String::new();
        let mut i: usize = 0;
        while i < self.char_units.len()
            invariant
                i <= self.char_units@.len(),
                self.char_units@.len() == self@.len(),
                forall|j: int|
                    0 <= j < self.char_units@.len() ==> (#[trigger] self.char_units@[j]).original
                        == self@[j] && self.char_units@[j].wf(),
                result@ == text_disassembly(self@.subrange(0, i as int)),
            decreases self.char_units@.len() - i,
        {
            let unit = &self.char_units[i];
            proof {
                lemma_text_disassembly_step(self@, i as int);
            }
            match &unit.hangul {
                Some(hangul) => {
                    assert(spec_is_nfc_hangul(seq![unit.original]));
                    assert(letter_positions(seq![unit.original]) == syllable_positions(
                        unit.original as u32,
                    ));
                    push_jamo_letters(
                        &mut result,
                        &hangul.choseong,
                        &hangul.jungseong,
                        &hangul.jongseong,
                    );
                },
                None => {
                    result.push(unit.original);
                },
            }
            i = i + 1;
        }
        assert(self@.subrange(0, self@.len() as int) =~= self@);
        result
    }

    /// The text with each composed syllable replaced by the compatibility
    /// letter of its choseong; other characters stay as they are.
    pub fn get_choseong(&self) -> (r: String)
        ensures
            r@ == text_choseong(self@),
    {
        proof {
            use_type_invariant(self);
        }
        let mut result = String::new();
        let mut i: usize = 0;
        while i < self.char_units.len()
            invariant
                i <= self.char_units@.len(),
                self.char_units@.len() == self@.len(),
                forall|j: int|
                    0 <= j < self.char_units@.len() ==> (#[trigger] self.char_units@[j]).original
                        == self@[j] && self.char_units@[j].wf(),
                result@ == text_choseong(self@.subrange(0, i as int)),
            decreases self.char_units@.len() - i,
        {
            let unit = &self.char_units[i];
            match &unit.hangul {
                Some(hangul) => {
                    assert(spec_is_nfc_hangul(seq![unit.original]));
                    result.push(hangul.choseong.compatibility_value);
                },
                None => {
                    result.push(unit.original);
                },
            }
            assert(text_choseong(self@.subrange(0, i + 1)) =~= text_choseong(
                self@.subrange(0, i as int),
            ).push(char_choseong(self@[i as int])));
            i = i + 1;
        }
        assert(self@.subrange(0, self@.len() as int) =~= self@);
        result
    }
}

} // verus!

verus! {

/// A text with each composed syllable replaced by its compatibility letters;
/// other characters stay as they are.
pub fn disassemble(text: &str) -> (r: String)
    ensures
        r@ == text_disassembly(text@),
{
    Hangul::new(text).disassemble()
}

/// A text with each composed syllable replaced by the compatibility letter of
/// its choseong; other characters stay as they are.
pub fn get_choseong(text: &str) -> (r: String)
    ensures
        r@ == text_choseong(text@),
{
    Hangul::new(text).get_choseong()
}

} // verus!
