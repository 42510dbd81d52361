use vstd::prelude::*;

verus! {

/// First code point of the Hangul compatibility jamo block.
pub const COMPAT_JAMO_BASE: u32 = 0x3131;

/// Last code point of the Hangul compatibility jamo block.
pub const COMPAT_JAMO_LAST: u32 = 0x318E;

/// Whether `unicode` lies in the Hangul compatibility jamo block.
pub open spec fn spec_is_compatibility_jamo(unicode: u32) -> bool {
    COMPAT_JAMO_BASE <= unicode <= COMPAT_JAMO_LAST
}

/// Tells whether a code point is a Hangul compatibility jamo (U+3131 to U+318E).
pub fn is_compatibility_jamo(unicode: u32) -> (r: bool)
    ensures
        r == spec_is_compatibility_jamo(unicode),
{
    COMPAT_JAMO_BASE <= unicode && unicode <= COMPAT_JAMO_LAST
}

/// Whether `code` is a Unicode scalar value, that is a valid `char`.
pub open spec fn is_scalar_value(code: u32) -> bool {
    code <= 0xD7FF || (0xE000 <= code && code <= 0x10FFFF)
}

/// Relies on `char::from_u32`: `Some` exactly for a Unicode scalar value, holding that value.
pub assume_specification[ core::char::from_u32 ](i: u32) -> (r: Option<char>)
    ensures
        r is Some <==> is_scalar_value(i),
        r is Some ==> r->0 == i as char,
;

/// Relies on `String::push`: the character is appended at the end.
pub assume_specification[ String::push ](s: &mut String, ch: char)
    ensures
        final(s)@ == old(s)@.push(ch),
;

} // verus!
