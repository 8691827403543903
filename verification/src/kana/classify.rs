use vstd::prelude::*;

verus! {

/// The class of a character inside of the hiragana or katakana blocks.
#[derive(Clone, Copy, PartialEq, Eq, Structural, Debug)]
pub enum Class {
    /// Upper (full size) kana.
    U,
    /// Lower (small) kana used for composite kana.
    L,
    /// Punctuation or iteration marks inside of the block.
    P,
    /// Unassigned code point inside of the block.
    X,
}

/// The class of a character in the hiragana block `U+3040..U+30A0`, or
/// `None` if the character lies outside of the block.
pub open spec fn hiragana_class(c: char) -> Option<Class> {
    let u = c as u32;
    if u < 0x3040 || u >= 0x30a0 {
        None
    } else if u == 0x3040 || u == 0x3097 || u == 0x3098 {
        Some(Class::X)
    } else if u >= 0x3099 {
        Some(Class::P)
    } else if u == 0x3043 || u == 0x3045 || u == 0x3047 || u == 0x3049 || u == 0x3063
        || u == 0x3083 || u == 0x3085 || u == 0x3087 {
        Some(Class::L)
    } else {
        Some(Class::U)
    }
}

/// The class of a character in the katakana block `U+30A0..U+3100`, or
/// `None` if the character lies outside of the block.
pub open spec fn katakana_class(c: char) -> Option<Class> {
    let u = c as u32;
    if u < 0x30a0 || u >= 0x3100 {
        None
    } else if u == 0x30a0 || u >= 0x30fb {
        Some(Class::P)
    } else if u == 0x30a1 || u == 0x30a3 || u == 0x30a5 || u == 0x30a7 || u == 0x30a9
        || u == 0x30c3 || u == 0x30e3 || u == 0x30e5 || u == 0x30e7 || u == 0x30ee {
        Some(Class::L)
    } else {
        Some(Class::U)
    }
}

pub open spec fn spec_is_hiragana(c: char) -> bool {
    hiragana_class(c) == Some(Class::U) || hiragana_class(c) == Some(Class::L)
}

pub open spec fn spec_is_hiragana_upper(c: char) -> bool {
    hiragana_class(c) == Some(Class::U)
}

pub open spec fn spec_is_hiragana_lower(c: char) -> bool {
    hiragana_class(c) == Some(Class::L)
}

pub open spec fn spec_is_katakana(c: char) -> bool {
    katakana_class(c) == Some(Class::U) || katakana_class(c) == Some(Class::L)
}

pub open spec fn spec_is_katakana_upper(c: char) -> bool {
    katakana_class(c) == Some(Class::U)
}

pub open spec fn spec_is_katakana_lower(c: char) -> bool {
    katakana_class(c) == Some(Class::L)
}

/// A character which is neither hiragana nor katakana.
pub open spec fn spec_is_kanji(c: char) -> bool {
    !spec_is_hiragana(c) && !spec_is_katakana(c)
}

/// A character which is either hiragana or katakana.
pub open spec fn spec_is_kana(c: char) -> bool {
    spec_is_hiragana(c) || spec_is_katakana(c)
}

/// Classify a character of the hiragana block.
pub fn get_hiragana(c: char) -> (r: Option<Class>)
    ensures
        r == hiragana_class(c),
{
    let u = c as u32;
    if u < 0x3040 || u >= 0x30a0 {
        None
    } else if u == 0x3040 || u == 0x3097 || u == 0x3098 {
        Some(Class::X)
    } else if u >= 0x3099 {
        Some(Class::P)
    } else if u == 0x3043 || u == 0x3045 || u == 0x3047 || u == 0x3049 || u == 0x3063
        || u == 0x3083 || u == 0x3085 || u == 0x3087 {
        Some(Class::L)
    } else {
        Some(Class::U)
    }
}

/// Classify a character of the katakana block.
pub fn get_katakana(c: char) -> (r: Option<Class>)
    ensures
        r == katakana_class(c),
{
    let u = c as u32;
    if u < 0x30a0 || u >= 0x3100 {
        None
    } else if u == 0x30a0 || u >= 0x30fb {
        Some(Class::P)
    } else if u == 0x30a1 || u == 0x30a3 || u == 0x30a5 || u == 0x30a7 || u == 0x30a9
        || u == 0x30c3 || u == 0x30e3 || u == 0x30e5 || u == 0x30e7 || u == 0x30ee {
        Some(Class::L)
    } else {
        Some(Class::U)
    }
}

/// Test if a character is neither katakana nor hiragana assuming it is
/// otherwise Japanese script.
pub fn is_kanji(c: char) -> (r: bool)
    ensures
        r == spec_is_kanji(c),
{
    !is_hiragana(c) && !is_katakana(c)
}

/// Test if something is katakana.
pub fn is_katakana(c: char) -> (r: bool)
    ensures
        r == spec_is_katakana(c),
{
    match get_katakana(c) {
        Some(Class::U) | Some(Class::L) => true,
        _ => false,
    }
}

/// Test if something belongs to the upper katakana class.
pub fn is_katakana_upper(c: char) -> (r: bool)
    ensures
        r == spec_is_katakana_upper(c),
{
    match get_katakana(c) {
        Some(Class::U) => true,
        _ => false,
    }
}

/// Test if something belongs to the lower katakana class.
pub fn is_katakana_lower(c: char) -> (r: bool)
    ensures
        r == spec_is_katakana_lower(c),
{
    match get_katakana(c) {
        Some(Class::L) => true,
        _ => false,
    }
}

/// Test if a character is hiragana.
pub fn is_hiragana(c: char) -> (r: bool)
    ensures
        r == spec_is_hiragana(c),
{
    match get_hiragana(c) {
        Some(Class::U) | Some(Class::L) => true,
        _ => false,
    }
}

/// Test if something belongs to the upper hiragana class.
pub fn is_hiragana_upper(c: char) -> (r: bool)
    ensures
        r == spec_is_hiragana_upper(c),
{
    match get_hiragana(c) {
        Some(Class::U) => true,
        _ => false,
    }
}

/// Test if something belongs to the lower hiragana class.
pub fn is_hiragana_lower(c: char) -> (r: bool)
    ensures
        r == spec_is_hiragana_lower(c),
{
    match get_hiragana(c) {
        Some(Class::L) => true,
        _ => false,
    }
}

} // verus!
