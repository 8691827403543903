//! Text analysis used to build and query the dictionary index.

pub mod analyze_glossary;
pub mod search_parser;
pub mod text;
pub mod readings;
pub mod index;
pub mod string_indexer;
pub mod stored;
pub mod wildcard;
pub mod keys;
pub mod inflections;
pub mod query;
pub mod search;
pub mod by_pos;
pub mod sequences;
pub mod builder;
pub mod results;

pub use self::index::{Input, KanjiIndex, Key, Location, NameIndex, PhraseIndex};
