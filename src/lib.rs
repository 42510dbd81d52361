//! Hangul syllables taken apart into their jamo, and put together again.
//!
//! A composed syllable (U+AC00 to U+D7A3) is split by arithmetic into a
//! choseong, a jungseong and an optional jongseong; each jamo is held both as
//! a conjoining code point and as a compatibility letter. Texts are
//! disassembled into compatibility letters, or reduced to their leading
//! consonants, with every other character left as it is.
pub mod choseong;
pub mod hangul;
pub mod hangul_char;
pub mod hangul_letter;
pub mod hangul_sentence;
pub mod jamo;
pub mod jongseong;
pub mod jungseong;
pub mod nfc;
pub mod nfd;
pub mod utils;

pub use choseong::Choseong;
pub use hangul::{Hangul, disassemble, get_choseong};
pub use hangul_char::HangulChar;
pub use hangul_letter::HangulLetter;
pub use hangul_sentence::HangulSentence;
pub use jamo::JamoError;
pub use jongseong::Jongseong;
pub use jungseong::Jungseong;
pub use nfc::NFC;
pub use nfd::{NFD, NormalizeError};
pub use utils::is_compatibility_jamo;
