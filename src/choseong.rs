use vstd::prelude::*;
use crate::jamo::{JamoError, lemma_index_of_entry, position_in, strictly_increasing};

verus! {

/// First conjoining choseong (U+1100).
pub const CHOSEONG_BASE: u32 = 0x1100;

/// Last conjoining choseong (U+1112).
pub const CHOSEONG_LAST: u32 = 0x1112;

/// First compatibility jamo that can stand as a choseong (U+3131).
pub const COMPAT_CHOSEONG_BASE: u32 = 0x3131;

/// Last compatibility jamo that can stand as a choseong (U+314E).
pub const COMPAT_CHOSEONG_LAST: u32 = 0x314E;

/// Number of choseong.
pub const CHOSEONG_COUNT: usize = 19;

/// The compatibility jamo of each choseong, in the order of the conjoining block.
pub open spec fn choseong_table() -> Seq<u32> {
    seq![
        0x3131u32, 0x3132, 0x3134, 0x3137, 0x3138, 0x3139, 0x3141, 0x3142, 0x3143, 0x3145, 0x3146,
        0x3147, 0x3148, 0x3149, 0x314A, 0x314B, 0x314C, 0x314D, 0x314E,
    ]
}

/// The choseong table, in executable form.
fn compatibility_choseong_mapping() -> (t: [u32; 19])
    ensures
        t@ == choseong_table(),
{
    let t: [u32; 19] = [
        0x3131, 0x3132, 0x3134, 0x3137, 0x3138, 0x3139, 0x3141, 0x3142, 0x3143, 0x3145, 0x3146,
        0x3147, 0x3148, 0x3149, 0x314A, 0x314B, 0x314C, 0x314D, 0x314E,
    ];
    assert(t@ =~= choseong_table());
    t
}

/// The choseong table has one entry per choseong, in increasing order, each in the
/// compatibility range of the role.
pub proof fn lemma_choseong_table_increasing()
    ensures
        choseong_table().len() == CHOSEONG_COUNT,
        strictly_increasing(choseong_table()),
        forall|k: int|
            0 <= k < CHOSEONG_COUNT ==> COMPAT_CHOSEONG_BASE <= #[trigger] choseong_table()[k]
                <= COMPAT_CHOSEONG_LAST,
{
}

/// Building a choseong from a conjoining code point or from its compatibility
/// counterpart gives the same record.
pub proof fn lemma_choseong_duality(x: u32)
    requires
        Choseong::spec_is_conjoining(x),
    ensures
        Choseong::spec_new(x) is Ok,
        Choseong::spec_new(x) == Choseong::spec_new(choseong_table()[x - CHOSEONG_BASE]),
{
    lemma_choseong_table_increasing();
    lemma_index_of_entry(choseong_table(), x - CHOSEONG_BASE);
}

/// A leading consonant, held both as a conjoining jamo and as a compatibility jamo.
#[derive(Debug, Clone, Copy, PartialEq, Eq, Structural)]
pub struct Choseong {
    pub conjoining_value: char,
    pub conjoining_unicode: u32,
    pub compatibility_value: char,
    pub compatibility_unicode: u32,
}

impl Choseong {
    /// Whether `code` is a conjoining choseong.
    pub open spec fn spec_is_conjoining(code: u32) -> bool {
        CHOSEONG_BASE <= code <= CHOSEONG_LAST
    }

    /// Whether `code` lies in the compatibility range of the choseong.
    pub open spec fn spec_is_compatibility(code: u32) -> bool {
        COMPAT_CHOSEONG_BASE <= code <= COMPAT_CHOSEONG_LAST
    }

    /// The choseong at position `k` of the conjoining block.
    pub open spec fn from_index(k: int) -> Choseong {
        Choseong {
            conjoining_value: (CHOSEONG_BASE + k) as char,
            conjoining_unicode: (CHOSEONG_BASE + k) as u32,
            compatibility_value: choseong_table()[k] as char,
            compatibility_unicode: choseong_table()[k],
        }
    }

    /// The position of the choseong that `code` names, in either block, if any.
    pub open spec fn index_of_code(code: u32) -> Option<int> {
        if Self::spec_is_conjoining(code) {
            Some(code - CHOSEONG_BASE)
        } else if Self::spec_is_compatibility(code) && choseong_table().contains(code) {
            Some(choseong_table().index_of(code))
        } else {
            None
        }
    }

    /// The result of building a choseong from `code`.
    pub open spec fn spec_new(code: u32) -> Result<Choseong, JamoError> {
        match Self::index_of_code(code) {
            Some(k) => Ok(Self::from_index(k)),
            None => Err(JamoError::InvalidChoseong),
        }
    }

    /// A record of the choseong at some position of the block.
    pub open spec fn wf(self) -> bool {
        exists|k: int| 0 <= k < CHOSEONG_COUNT && self == Self::from_index(k)
    }

    /// Builds the choseong named by a conjoining or a compatibility code point.
    pub fn new(unicode: u32) -> (r: Result<Choseong, JamoError>)
        ensures
            r == Self::spec_new(unicode),
    {
        proof {
            lemma_choseong_table_increasing();
        }
        let table = compatibility_choseong_mapping();
        if CHOSEONG_BASE <= unicode && unicode <= CHOSEONG_LAST {
            let offset = (unicode - CHOSEONG_BASE) as usize;
            let compatibility_jamo = table[offset];
            return Ok(
                Choseong {
                    conjoining_value: core::char::from_u32(unicode).unwrap(),
                    conjoining_unicode: unicode,
                    compatibility_value: core::char::from_u32(compatibility_jamo).unwrap(),
                    compatibility_unicode: compatibility_jamo,
                },
            );
        }
        if COMPAT_CHOSEONG_BASE <= unicode && unicode <= COMPAT_CHOSEONG_LAST {
            if let Some(position) = position_in(&table, unicode) {
                let conjoining_jamo = CHOSEONG_BASE + position as u32;
                return Ok(
                    Choseong {
                        conjoining_value: core::char::from_u32(conjoining_jamo).unwrap(),
                        conjoining_unicode: conjoining_jamo,
                        compatibility_value: core::char::from_u32(unicode).unwrap(),
                        compatibility_unicode: unicode,
                    },
                );
            }
        }
        Err(JamoError::InvalidChoseong)
    }

    /// Tells whether a code point is a conjoining choseong (U+1100 to U+1112).
    pub fn is_conjoining_choseong(choseong_code: u32) -> (r: bool)
        ensures
            r == Self::spec_is_conjoining(choseong_code),
    {
        CHOSEONG_BASE <= choseong_code && choseong_code <= CHOSEONG_LAST
    }

    /// Tells whether a code point lies in the compatibility range of the choseong
    /// (U+3131 to U+314E).
    pub fn is_compatibility_choseong(unicode: u32) -> (r: bool)
        ensures
            r == Self::spec_is_compatibility(unicode),
    {
        COMPAT_CHOSEONG_BASE <= unicode && unicode <= COMPAT_CHOSEONG_LAST
    }
}

} // verus!
