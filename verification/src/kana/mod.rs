//! Kana classification and kana text fragments.

mod classify;

pub use self::classify::{
    is_hiragana, is_hiragana_lower, is_hiragana_upper, is_kanji, is_katakana, is_katakana_lower,
    is_katakana_upper, get_hiragana, get_katakana, Class,
};
pub use self::classify::{
    hiragana_class, katakana_class, spec_is_hiragana, spec_is_hiragana_lower,
    spec_is_hiragana_upper, spec_is_kanji, spec_is_katakana, spec_is_katakana_lower,
    spec_is_katakana_upper, spec_is_kana,
};

mod full;

pub use self::full::{append_all, full_display, Fragments, Full, OwnedFull};
