use vstd::prelude::*;
use crate::jamo::{JamoError, lemma_index_of_entry, position_in, strictly_increasing};

verus! {

/// First conjoining jongseong (U+11A8).
pub const JONGSEONG_BASE: u32 = 0x11A8;

/// Last conjoining jongseong (U+11C2).
pub const JONGSEONG_LAST: u32 = 0x11C2;

/// First compatibility jamo that can stand as a jongseong (U+3131).
pub const COMPAT_JONGSEONG_BASE: u32 = 0x3131;

/// Last compatibility jamo that can stand as a jongseong (U+314E).
pub const COMPAT_JONGSEONG_LAST: u32 = 0x314E;

/// Number of jongseong.
pub const JONGSEONG_COUNT: usize = 27;

/// The compatibility jamo of each jongseong, in the order of the conjoining block.
/// The compatibility letters that never end a syllable are left out, so this is
/// no run of consecutive code points.
pub open spec fn jongseong_table() -> Seq<u32> {
    seq![
        0x3131u32, 0x3132, 0x3133, 0x3134, 0x3135, 0x3136, 0x3137, 0x3139, 0x313A, 0x313B, 0x313C,
        0x313D, 0x313E, 0x313F, 0x3140, 0x3141, 0x3142, 0x3144, 0x3145, 0x3146, 0x3147, 0x3148,
        0x314A, 0x314B, 0x314C, 0x314D, 0x314E,
    ]
}

/// The compatibility jamo of the jongseong made of two consonants.
pub open spec fn complex_jongseong_table() -> Seq<u32> {
    seq![
        0x3133u32, 0x3135, 0x3136, 0x313A, 0x313B, 0x313C, 0x313D, 0x313E, 0x313F, 0x3140, 0x3144,
    ]
}

/// The letters that a jongseong, given by its compatibility jamo and letter, is
/// written with when it stands apart: two for a cluster, else the letter itself.
pub open spec fn jongseong_letters(compat: u32, letter: char) -> Seq<char> {
    if compat == 0x3133 {
        seq!['ㄱ', 'ㅅ']
    } else if compat == 0x3135 {
        seq!['ㄴ', 'ㅈ']
    } else if compat == 0x3136 {
        seq!['ㄴ', 'ㅎ']
    } else if compat == 0x313A {
        seq!['ㄹ', 'ㄱ']
    } else if compat == 0x313B {
        seq!['ㄹ', 'ㅁ']
    } else if compat == 0x313C {
        seq!['ㄹ', 'ㅂ']
    } else if compat == 0x313D {
        seq!['ㄹ', 'ㅅ']
    } else if compat == 0x313E {
        seq!['ㄹ', 'ㅌ']
    } else if compat == 0x313F {
        seq!['ㄹ', 'ㅍ']
    } else if compat == 0x3140 {
        seq!['ㄹ', 'ㅎ']
    } else if compat == 0x3144 {
        seq!['ㅂ', 'ㅅ']
    } else {
        seq![letter]
    }
}

/// The jongseong table, in executable form.
fn compatibility_jongseong_mapping() -> (t: [u32; 27])
    ensures
        t@ == jongseong_table(),
{
    let t: [u32; 27] = [
        0x3131, 0x3132, 0x3133, 0x3134, 0x3135, 0x3136, 0x3137, 0x3139, 0x313A, 0x313B, 0x313C,
        0x313D, 0x313E, 0x313F, 0x3140, 0x3141, 0x3142, 0x3144, 0x3145, 0x3146, 0x3147, 0x3148,
        0x314A, 0x314B, 0x314C, 0x314D, 0x314E,
    ];
    assert(t@ =~= jongseong_table());
    t
}

/// The table of clusters, in executable form.
fn complex_jongseong_mapping() -> (t: [u32; 11])
    ensures
        t@ == complex_jongseong_table(),
{
    let t: [u32; 11] = [
        0x3133, 0x3135, 0x3136, 0x313A, 0x313B, 0x313C, 0x313D, 0x313E, 0x313F, 0x3140, 0x3144,
    ];
    assert(t@ =~= complex_jongseong_table());
    t
}

/// The jongseong table has one entry per jongseong, in increasing order, each in
/// the compatibility range of the role; the cluster table has eleven entries, in
/// increasing order.
pub proof fn lemma_jongseong_table_increasing()
    ensures
        jongseong_table().len() == JONGSEONG_COUNT,
        strictly_increasing(jongseong_table()),
        forall|k: int|
            0 <= k < JONGSEONG_COUNT ==> COMPAT_JONGSEONG_BASE <= #[trigger] jongseong_table()[k]
                <= COMPAT_JONGSEONG_LAST,
        complex_jongseong_table().len() == 11,
        strictly_increasing(complex_jongseong_table()),
{
}

/// Building a jongseong from a conjoining code point or from its compatibility
/// counterpart gives the same record.
pub proof fn lemma_jongseong_duality(x: u32)
    requires
        Jongseong::spec_is_conjoining(x),
    ensures
        Jongseong::spec_new(x) is Ok,
        Jongseong::spec_new(x) == Jongseong::spec_new(jongseong_table()[x - JONGSEONG_BASE]),
{
    lemma_jongseong_table_increasing();
    lemma_index_of_entry(jongseong_table(), x - JONGSEONG_BASE);
}

/// A jongseong stands apart as two letters when it is a cluster and as one
/// letter otherwise. Eleven of the jongseong are clusters.
pub proof fn lemma_jongseong_letter_count(j: Jongseong)
    requires
        j.wf(),
    ensures
        j.spec_is_complex() ==> j.spec_letters().len() == 2,
        !j.spec_is_complex() ==> j.spec_letters().len() == 1,
        complex_jongseong_table().len() == 11,
        forall|i: int|
            0 <= i < 11 ==> jongseong_table().contains(#[trigger] complex_jongseong_table()[i]),
{
    lemma_jongseong_table_increasing();
    assert forall|i: int| 0 <= i < 11 implies jongseong_table().contains(
        #[trigger] complex_jongseong_table()[i],
    ) by {
        let t = jongseong_table();
        let c = complex_jongseong_table();
        if i == 0 { assert(t[2] == c[i]); }
        else if i == 1 { assert(t[4] == c[i]); }
        else if i == 2 { assert(t[5] == c[i]); }
        else if i == 3 { assert(t[8] == c[i]); }
        else if i == 4 { assert(t[9] == c[i]); }
        else if i == 5 { assert(t[10] == c[i]); }
        else if i == 6 { assert(t[11] == c[i]); }
        else if i == 7 { assert(t[12] == c[i]); }
        else if i == 8 { assert(t[13] == c[i]); }
        else if i == 9 { assert(t[14] == c[i]); }
        else { assert(t[17] == c[i]); }
    }
    lemma_jongseong_letters_of_complex(j);
}

/// A jongseong that is no cluster stands apart as its own compatibility letter,
/// a cluster as two letters.
pub proof fn lemma_jongseong_letters_of_complex(j: Jongseong)
    ensures
        j.spec_is_complex() ==> j.spec_letters().len() == 2,
        !j.spec_is_complex() ==> j.spec_letters() == seq![j.compatibility_value],
{
    let c = j.compatibility_unicode;
    let t = complex_jongseong_table();
    if j.spec_is_complex() {
        let i = t.index_of(c);
        assert(0 <= i < 11 && t[i] == c);
    } else {
        assert(c != 0x3133 && c != 0x3135 && c != 0x3136 && c != 0x313A && c != 0x313B && c
            != 0x313C && c != 0x313D && c != 0x313E && c != 0x313F && c != 0x3140 && c != 0x3144)
            by {
            if c == 0x3133 { assert(t[0] == c); }
            if c == 0x3135 { assert(t[1] == c); }
            if c == 0x3136 { assert(t[2] == c); }
            if c == 0x313A { assert(t[3] == c); }
            if c == 0x313B { assert(t[4] == c); }
            if c == 0x313C { assert(t[5] == c); }
            if c == 0x313D { assert(t[6] == c); }
            if c == 0x313E { assert(t[7] == c); }
            if c == 0x313F { assert(t[8] == c); }
            if c == 0x3140 { assert(t[9] == c); }
            if c == 0x3144 { assert(t[10] == c); }
        }
    }
}

/// A trailing consonant, held both as a conjoining jamo and as a compatibility jamo.
#[derive(Debug, Clone, Copy, PartialEq, Eq, Structural)]
pub struct Jongseong {
    pub conjoining_value: char,
    pub conjoining_unicode: u32,
    pub compatibility_value: char,
    pub compatibility_unicode: u32,
}

impl Jongseong {
    /// Whether `code` is a conjoining jongseong.
    pub open spec fn spec_is_conjoining(code: u32) -> bool {
        JONGSEONG_BASE <= code <= JONGSEONG_LAST
    }

    /// Whether `code` lies in the compatibility range of the jongseong.
    pub open spec fn spec_is_compatibility(code: u32) -> bool {
        COMPAT_JONGSEONG_BASE <= code <= COMPAT_JONGSEONG_LAST
    }

    /// The jongseong at position `k` of the conjoining block.
    pub open spec fn from_index(k: int) -> Jongseong {
        Jongseong {
            conjoining_value: (JONGSEONG_BASE + k) as char,
            conjoining_unicode: (JONGSEONG_BASE + k) as u32,
            compatibility_value: jongseong_table()[k] as char,
            compatibility_unicode: jongseong_table()[k],
        }
    }

    /// The position of the jongseong that `code` names, in either block, if any.
    pub open spec fn index_of_code(code: u32) -> Option<int> {
        if Self::spec_is_conjoining(code) {
            Some(code - JONGSEONG_BASE)
        } else if Self::spec_is_compatibility(code) && jongseong_table().contains(code) {
            Some(jongseong_table().index_of(code))
        } else {
            None
        }
    }

    /// The result of building a jongseong from `code`.
    pub open spec fn spec_new(code: u32) -> Result<Jongseong, JamoError> {
        match Self::index_of_code(code) {
            Some(k) => Ok(Self::from_index(k)),
            None => Err(JamoError::InvalidJongseong),
        }
    }

    /// A record of the jongseong at some position of the block.
    pub open spec fn wf(self) -> bool {
        exists|k: int| 0 <= k < JONGSEONG_COUNT && self == Self::from_index(k)
    }

    /// Whether this jongseong is a cluster of two consonants.
    pub open spec fn spec_is_complex(self) -> bool {
        complex_jongseong_table().contains(self.compatibility_unicode)
    }

    /// The letters this jongseong is written with when it stands apart.
    pub open spec fn spec_letters(self) -> Seq<char> {
        jongseong_letters(self.compatibility_unicode, self.compatibility_value)
    }

    /// Builds the jongseong named by a conjoining or a compatibility code point.
    pub fn new(unicode: u32) -> (r: Result<Jongseong, JamoError>)
        ensures
            r == Self::spec_new(unicode),
    {
        proof {
            lemma_jongseong_table_increasing();
        }
        let table = compatibility_jongseong_mapping();
        if JONGSEONG_BASE <= unicode && unicode <= JONGSEONG_LAST {
            let offset = (unicode - JONGSEONG_BASE) as usize;
            let compatibility_jamo = table[offset];
            return Ok(
                Jongseong {
                    conjoining_value: core::char::from_u32(unicode).unwrap(),
                    conjoining_unicode: unicode,
                    compatibility_value: core::char::from_u32(compatibility_jamo).unwrap(),
                    compatibility_unicode: compatibility_jamo,
                },
            );
        }
        if COMPAT_JONGSEONG_BASE <= unicode && unicode <= COMPAT_JONGSEONG_LAST {
            if let Some(position) = position_in(&table, unicode) {
                let conjoining_jamo = JONGSEONG_BASE + position as u32;
                return Ok(
                    Jongseong {
                        conjoining_value: core::char::from_u32(conjoining_jamo).unwrap(),
                        conjoining_unicode: conjoining_jamo,
                        compatibility_value: core::char::from_u32(unicode).unwrap(),
                        compatibility_unicode: unicode,
                    },
                );
            }
        }
        Err(JamoError::InvalidJongseong)
    }

    /// Tells whether a code point is a conjoining jongseong (U+11A8 to U+11C2).
    pub fn is_conjoining_jongseong(jongseong_code: u32) -> (r: bool)
        ensures
            r == Self::spec_is_conjoining(jongseong_code),
    {
        JONGSEONG_BASE <= jongseong_code && jongseong_code <= JONGSEONG_LAST
    }

    /// Tells whether a code point lies in the compatibility range of the jongseong
    /// (U+3131 to U+314E).
    pub fn is_compatibility_jongseong(unicode: u32) -> (r: bool)
        ensures
            r == Self::spec_is_compatibility(unicode),
    {
        COMPAT_JONGSEONG_BASE <= unicode && unicode <= COMPAT_JONGSEONG_LAST
    }

    /// Tells whether this jongseong is a cluster of two consonants.
    pub fn is_complex_jongseong(&self) -> (r: bool)
        ensures
            r == self.spec_is_complex(),
    {
        proof {
            lemma_jongseong_table_increasing();
        }
        let table = complex_jongseong_mapping();
        position_in(&table, self.compatibility_unicode).is_some()
    }

    /// The letters this jongseong is written with when it stands apart: the two
    /// consonants of a cluster, else its own compatibility letter.
    pub fn decompose_complex_jongseong(&self) -> (r: Vec<char>)
        ensures
            r@ == self.spec_letters(),
    {
        match self.compatibility_unicode {
            0x3133 => vec!['ㄱ', 'ㅅ'],
            0x3135 => vec!['ㄴ', 'ㅈ'],
            0x3136 => vec!['ㄴ', 'ㅎ'],
            0x313A => vec!['ㄹ', 'ㄱ'],
            0x313B => vec!['ㄹ', 'ㅁ'],
            0x313C => vec!['ㄹ', 'ㅂ'],
            0x313D => vec!['ㄹ', 'ㅅ'],
            0x313E => vec!['ㄹ', 'ㅌ'],
            0x313F => vec!['ㄹ', 'ㅍ'],
            0x3140 => vec!['ㄹ', 'ㅎ'],
            0x3144 => vec!['ㅂ', 'ㅅ'],
            _ => vec![self.compatibility_value],
        }
    }
}

} // verus!
