//! Japanese dictionary support: kana classification, morae, furigana and
//! the text analysis used to build and query a dictionary index.

pub mod kana;
pub mod text;
pub mod morae;
pub mod furigana;
pub mod concat;
pub mod database;
pub mod entities;
pub mod romaji;
pub mod priority;
pub mod config;
pub mod token;
pub mod jmdict;
pub mod jmnedict;
pub mod kanjidic2;
pub mod reporter;
pub mod sort_key;
pub use self::sort_key::Key;
pub mod api;
pub mod inflection;
pub mod xml;
pub mod kradfile;
pub use self::priority::Priority;
pub use self::entities::PartOfSpeech;
pub use self::concat::Concat;
