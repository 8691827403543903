//! Characters of the KANJIDIC2 dictionary.

pub mod elements;

pub use self::elements::{
    Character, CodePoint, DictionaryReference, Header, Meaning, Misc, QueryCode, Radical, Reading,
    Variant,
};

pub mod parser;
pub use self::parser::Parser;
