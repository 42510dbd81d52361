use vstd::prelude::*;
use crate::jamo::{JamoError, lemma_index_of_entry, position_in, strictly_increasing};
use crate::utils::{is_compatibility_jamo, spec_is_compatibility_jamo};

verus! {

/// First conjoining jungseong (U+1161).
pub const JUNGSEONG_BASE: u32 = 0x1161;

/// Last conjoining jungseong (U+1175).
pub const JUNGSEONG_LAST: u32 = 0x1175;

/// First compatibility vowel (U+314F).
pub const COMPAT_JUNGSEONG_BASE: u32 = 0x314F;

/// Last compatibility vowel (U+3163).
pub const COMPAT_JUNGSEONG_LAST: u32 = 0x3163;

/// Number of jungseong.
pub const JUNGSEONG_COUNT: usize = 21;

/// The compatibility jamo of each jungseong, in the order of the conjoining block.
pub open spec fn jungseong_table() -> Seq<u32> {
    seq![
        0x314Fu32, 0x3150, 0x3151, 0x3152, 0x3153, 0x3154, 0x3155, 0x3156, 0x3157, 0x3158, 0x3159,
        0x315A, 0x315B, 0x315C, 0x315D, 0x315E, 0x315F, 0x3160, 0x3161, 0x3162, 0x3163,
    ]
}

/// The jungseong table, in executable form.
fn compatibility_jungseong_mapping() -> (t: [u32; 21])
    ensures
        t@ == jungseong_table(),
{
    let t: [u32; 21] = [
        0x314F, 0x3150, 0x3151, 0x3152, 0x3153, 0x3154, 0x3155, 0x3156, 0x3157, 0x3158, 0x3159,
        0x315A, 0x315B, 0x315C, 0x315D, 0x315E, 0x315F, 0x3160, 0x3161, 0x3162, 0x3163,
    ];
    assert(t@ =~= jungseong_table());
    t
}

/// The jungseong table has one entry per jungseong, in increasing order, each in the
/// compatibility range of the role.
pub proof fn lemma_jungseong_table_increasing()
    ensures
        jungseong_table().len() == JUNGSEONG_COUNT,
        strictly_increasing(jungseong_table()),
        forall|k: int|
            0 <= k < JUNGSEONG_COUNT ==> COMPAT_JUNGSEONG_BASE <= #[trigger] jungseong_table()[k]
                <= COMPAT_JUNGSEONG_LAST,
{
}

/// Building a jungseong from a conjoining code point or from its compatibility
/// counterpart gives the same record.
pub proof fn lemma_jungseong_duality(x: u32)
    requires
        Jungseong::spec_is_conjoining(x),
    ensures
        Jungseong::spec_new(x) is Ok,
        Jungseong::spec_new(x) == Jungseong::spec_new(jungseong_table()[x - JUNGSEONG_BASE]),
{
    lemma_jungseong_table_increasing();
    lemma_index_of_entry(jungseong_table(), x - JUNGSEONG_BASE);
}

/// A vowel, held both as a conjoining jamo and as a compatibility jamo.
#[derive(Debug, Clone, Copy, PartialEq, Eq, Structural)]
pub struct Jungseong {
    pub conjoining_value: char,
    pub conjoining_unicode: u32,
    pub compatibility_value: char,
    pub compatibility_unicode: u32,
}

impl Jungseong {
    /// Whether `code` is a conjoining jungseong.
    pub open spec fn spec_is_conjoining(code: u32) -> bool {
        JUNGSEONG_BASE <= code <= JUNGSEONG_LAST
    }

    /// Whether `code` is a compatibility vowel.
    pub open spec fn spec_is_compatibility(code: u32) -> bool {
        COMPAT_JUNGSEONG_BASE <= code <= COMPAT_JUNGSEONG_LAST
    }

    /// The jungseong at position `k` of the conjoining block.
    pub open spec fn from_index(k: int) -> Jungseong {
        Jungseong {
            conjoining_value: (JUNGSEONG_BASE + k) as char,
            conjoining_unicode: (JUNGSEONG_BASE + k) as u32,
            compatibility_value: jungseong_table()[k] as char,
            compatibility_unicode: jungseong_table()[k],
        }
    }

    /// The conjoining jamo of a compatibility vowel, if it is one.
    pub open spec fn spec_compatibility_to_conjoining(compat: u32) -> Option<u32> {
        if spec_is_compatibility_jamo(compat) && Self::spec_is_compatibility(compat)
            && jungseong_table().contains(compat) {
            Some((JUNGSEONG_BASE + jungseong_table().index_of(compat)) as u32)
        } else {
            None
        }
    }

    /// The compatibility jamo of a conjoining jungseong, if it is one.
    pub open spec fn spec_conjoining_to_compatibility(code: u32) -> Option<u32> {
        if Self::spec_is_conjoining(code) {
            Some(jungseong_table()[code - JUNGSEONG_BASE])
        } else {
            None
        }
    }

    /// The position of the jungseong that `code` names, in either block, if any.
    pub open spec fn index_of_code(code: u32) -> Option<int> {
        if Self::spec_is_conjoining(code) {
            Some(code - JUNGSEONG_BASE)
        } else if Self::spec_is_compatibility(code) && jungseong_table().contains(code) {
            Some(jungseong_table().index_of(code))
        } else {
            None
        }
    }

    /// The result of building a jungseong from `code`.
    pub open spec fn spec_new(code: u32) -> Result<Jungseong, JamoError> {
        match Self::index_of_code(code) {
            Some(k) => Ok(Self::from_index(k)),
            None => Err(JamoError::InvalidJungseong),
        }
    }

    /// A record of the jungseong at some position of the block.
    pub open spec fn wf(self) -> bool {
        exists|k: int| 0 <= k < JUNGSEONG_COUNT && self == Self::from_index(k)
    }

    /// Builds the jungseong named by a conjoining or a compatibility code point.
    pub fn new(unicode: u32) -> (r: Result<Jungseong, JamoError>)
        ensures
            r == Self::spec_new(unicode),
    {
        let (conjoining_jamo, compatibility_jamo) = Self::convert_to_jamo(unicode)?;
        Ok(
            Jungseong {
                conjoining_value: core::char::from_u32(conjoining_jamo).unwrap(),
                conjoining_unicode: conjoining_jamo,
                compatibility_value: core::char::from_u32(compatibility_jamo).unwrap(),
                compatibility_unicode: compatibility_jamo,
            },
        )
    }

    /// The conjoining and the compatibility code point of the jungseong that
    /// `unicode` names.
    pub fn convert_to_jamo(unicode: u32) -> (r: Result<(u32, u32), JamoError>)
        ensures
            match Self::spec_new(unicode) {
                Ok(j) => r == Ok::<(u32, u32), JamoError>(
                    (j.conjoining_unicode, j.compatibility_unicode),
                ),
                Err(e) => r == Err::<(u32, u32), JamoError>(e),
            },
    {
        proof {
            lemma_jungseong_table_increasing();
        }
        if Self::is_conjoining_jungseong(unicode) {
            let compatibility_jamo = Self::conjoining_jungseong_to_compatibility(unicode).unwrap();
            return Ok((unicode, compatibility_jamo));
        }
        if Self::is_compatibility_jungseong(unicode) {
            if let Some(conjoining_jamo) = Self::compatibility_to_conjoining_jungseong(unicode) {
                return Ok((conjoining_jamo, unicode));
            }
        }
        Err(JamoError::InvalidJungseong)
    }

    /// Tells whether a code point is a conjoining jungseong (U+1161 to U+1175).
    pub fn is_conjoining_jungseong(jungseong_code: u32) -> (r: bool)
        ensures
            r == Self::spec_is_conjoining(jungseong_code),
    {
        JUNGSEONG_BASE <= jungseong_code && jungseong_code <= JUNGSEONG_LAST
    }

    /// Tells whether a code point is a compatibility vowel (U+314F to U+3163).
    pub fn is_compatibility_jungseong(unicode: u32) -> (r: bool)
        ensures
            r == Self::spec_is_compatibility(unicode),
    {
        COMPAT_JUNGSEONG_BASE <= unicode && unicode <= COMPAT_JUNGSEONG_LAST
    }

    /// The conjoining jungseong of a compatibility vowel, or `None` for any
    /// other code point.
    pub fn compatibility_to_conjoining_jungseong(compat: u32) -> (r: Option<u32>)
        ensures
            r == Self::spec_compatibility_to_conjoining(compat),
    {
        if !is_compatibility_jamo(compat) || !Self::is_compatibility_jungseong(compat) {
            return None;
        }
        proof {
            lemma_jungseong_table_increasing();
        }
        let table = compatibility_jungseong_mapping();
        match position_in(&table, compat) {
            Some(i) => Some(JUNGSEONG_BASE + i as u32),
            None => None,
        }
    }

    /// The compatibility vowel of a conjoining jungseong, or `None` for any
    /// other code point.
    pub fn conjoining_jungseong_to_compatibility(jungseong_code: u32) -> (r: Option<u32>)
        ensures
            r == Self::spec_conjoining_to_compatibility(jungseong_code),
    {
        if !Self::is_conjoining_jungseong(jungseong_code) {
            return None;
        }
        let table = compatibility_jungseong_mapping();
        let offset = (jungseong_code - JUNGSEONG_BASE) as usize;
        Some(table[offset])
    }
}

} // verus!
