//! Entries of the JMdict dictionary.

pub mod elements;
pub mod entities;
pub mod debug;
pub mod declared;
pub mod sets;
pub mod parser;

pub use self::elements::{
    Entry, Example, ExampleSentence, ExampleSource, Glossary, KanjiElement, OwnedReadingElement,
    ReadingElement, Sense, SourceLanguage,
};
