//! Identifiers as they are stored in an index.

use vstd::prelude::*;

use super::index::{KanjiIndex, NameIndex, PhraseIndex};

verus! {

/// Why an entry was indexed, as stored: an inflection is stored by the
/// position of its data in the index's table of inflections.
#[derive(Debug, Clone, Copy, PartialEq, Eq, Structural, Hash, PartialOrd, Ord)]
pub enum Source {
    /// Indexed due to a kanji.
    Kanji { index: KanjiIndex },
    /// Indexed due to a phrase.
    Phrase { index: PhraseIndex },
    /// Indexed due to an inflection, by its position in the table of
    /// inflections.
    Inflection { inflection: u16 },
    /// Indexed due to a name.
    Name { index: NameIndex },
}

/// The position of a phrase and the way it was indexed.
#[derive(Debug, Clone, Copy, PartialEq, Eq, Structural, Hash, PartialOrd, Ord)]
pub struct PhrasePos {
    pub offset: u32,
    pub reading: PhraseIndex,
}

/// A stored identifier: the offset of an entry and why it was indexed.
#[derive(Debug, Clone, Copy, PartialEq, Eq, Structural, Hash, PartialOrd, Ord)]
pub struct Id {
    pub offset: u32,
    pub source: Source,
}

impl Id {
    /// The identifier of a phrase.
    pub fn phrase(offset: u32, index: PhraseIndex) -> (r: Self)
        ensures
            r == (Id { offset, source: Source::Phrase { index } }),
    {
        Id { offset, source: Source::Phrase { index } }
    }

    /// The identifier of a name.
    pub fn name(offset: u32, index: NameIndex) -> (r: Self)
        ensures
            r == (Id { offset, source: Source::Name { index } }),
    {
        Id { offset, source: Source::Name { index } }
    }

    /// The identifier of a kanji.
    pub fn kanji(offset: u32, index: KanjiIndex) -> (r: Self)
        ensures
            r == (Id { offset, source: Source::Kanji { index } }),
    {
        Id { offset, source: Source::Kanji { index } }
    }

    /// The identifier of an inflected phrase.
    pub fn inflection(offset: u32, inflection: u16) -> (r: Self)
        ensures
            r == (Id { offset, source: Source::Inflection { inflection } }),
    {
        Id { offset, source: Source::Inflection { inflection } }
    }
}

} // verus!
