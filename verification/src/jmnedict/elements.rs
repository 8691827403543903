//! The elements of a JMnedict entry.

use vstd::prelude::*;

use crate::entities::{Entity, NameType};
use crate::text::str_eq;

verus! {

/// A name entry.
#[derive(Debug)]
pub struct Entry<'a> {
    pub sequence: u64,
    pub kanji: Vec<&'a str>,
    pub reading: Vec<Reading<'a>>,
    pub name_types: Vec<NameType>,
    pub translations: Vec<Translation<'a>>,
}

/// The query is a kanji spelling or a reading of the name, which gives its
/// weight the exact-query boost.
pub open spec fn name_exact_match(e: Entry, input: Seq<char>) -> bool {
    (exists|j: int| 0 <= j < e.kanji@.len() && (#[trigger] e.kanji@[j])@ == input) || (exists|i: int|
        0 <= i < e.reading@.len() && (#[trigger] e.reading@[i]).text@ == input)
}

impl<'a> Entry<'a> {
    /// Test if every entity of a search is attached to the name. A name
    /// carries its kinds of name only, none of which a search asks for, so
    /// this holds where the search asks for no entity.
    pub fn contains_entities(&self, entities: &Vec<Entity>) -> (r: bool)
        ensures
            r == (entities@.len() == 0),
    {
        entities.len() == 0
    }

    /// Test if the query is a kanji spelling or a reading of the name.
    pub fn is_exact_query(&self, input: &str) -> (r: bool)
        ensures
            r == name_exact_match(*self, input@),
    {
        let mut j: usize = 0;
        while j < self.kanji.len()
            invariant
                j <= self.kanji@.len(),
                forall|k: int| 0 <= k < j ==> (#[trigger] self.kanji@[k])@ != input@,
            decreases self.kanji@.len() - j,
        {
            if str_eq(self.kanji[j], input) {
                assert(self.kanji@[j as int]@ == input@);
                return true;
            }
            j = j + 1;
        }
        let mut i: usize = 0;
        while i < self.reading.len()
            invariant
                i <= self.reading@.len(),
                forall|k: int| 0 <= k < self.kanji@.len() ==> (#[trigger] self.kanji@[k])@ != input@,
                forall|k: int| 0 <= k < i ==> (#[trigger] self.reading@[k]).text@ != input@,
            decreases self.reading@.len() - i,
        {
            if str_eq(self.reading[i].text, input) {
                assert(self.reading@[i as int].text@ == input@);
                return true;
            }
            i = i + 1;
        }
        false
    }
}

/// A translation of a name.
#[derive(Debug)]
pub struct Translation<'a> {
    pub text: &'a str,
    pub lang: Option<&'a str>,
}

/// A reading of a name.
#[derive(Debug)]
pub struct Reading<'a> {
    pub text: &'a str,
    pub priority: Option<&'a str>,
}

/// What a name entry holds.
#[verifier::ext_equal]
pub struct EntryView<'a> {
    pub sequence: u64,
    pub kanji: Seq<&'a str>,
    pub reading: Seq<Reading<'a>>,
    pub name_types: Seq<NameType>,
    pub translations: Seq<Translation<'a>>,
}

impl<'a> View for Entry<'a> {
    type V = EntryView<'a>;

    open spec fn view(&self) -> EntryView<'a> {
        EntryView {
            sequence: self.sequence,
            kanji: self.kanji@,
            reading: self.reading@,
            name_types: self.name_types@,
            translations: self.translations@,
        }
    }
}

} // verus!
