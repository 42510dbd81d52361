use vstd::prelude::*;

verus! {

/// Why a jamo could not be built from a code point.
#[derive(Debug, Clone, Copy, PartialEq, Eq, Structural)]
pub enum JamoError {
    InvalidChoseong,
    InvalidJungseong,
    InvalidJongseong,
}

/// Every entry of `t` is smaller than the entries after it.
pub open spec fn strictly_increasing(t: Seq<u32>) -> bool {
    forall|i: int, j: int| 0 <= i < j < t.len() ==> t[i] < t[j]
}

/// In a strictly increasing table an entry stands at one position only.
pub proof fn lemma_index_of_entry(t: Seq<u32>, k: int)
    requires
        strictly_increasing(t),
        0 <= k < t.len(),
    ensures
        t.contains(t[k]),
        t.index_of(t[k]) == k,
{
    assert(t.contains(t[k]));
    let i = t.index_of(t[k]);
    assert(0 <= i < t.len() && t[i] == t[k]);
    if i < k {
        assert(t[i] < t[k]);
    } else if i > k {
        assert(t[k] < t[i]);
    }
}

/// Finds where `code` stands in a strictly increasing table.
pub fn position_in(table: &[u32], code: u32) -> (r: Option<usize>)
    requires
        strictly_increasing(table@),
    ensures
        match r {
            Some(k) => k < table@.len() && table@[k as int] == code && table@.index_of(code)
                == k as int,
            None => !table@.contains(code),
        },
{
    let mut k: usize = 0;
    while k < table.len()
        invariant
            k <= table@.len(),
            strictly_increasing(table@),
            forall|j: int| 0 <= j < k ==> table@[j] != code,
        decreases table@.len() - k,
    {
        if table[k] == code {
            proof {
                lemma_index_of_entry(table@, k as int);
            }
            return Some(k);
        }
        k = k + 1;
    }
    None
}

} // verus!
