//! The entities attached to an entry, which a search may ask for.

use vstd::prelude::*;

use super::elements::{Entry, KanjiElement, ReadingElement, Sense};
use crate::entities::{Dialect, Entity, Field, KanjiInfo, Miscellaneous, PartOfSpeech, ReadingInfo};

verus! {

impl<'a> Entry<'a> {
    /// The entity `e` is attached to the entry: as the information of one
    /// of its spellings or readings, or as a part of speech, a note, a
    /// dialect or a field of one of its senses.
    pub open spec fn has_entity(self, e: Entity) -> bool {
        match e {
            Entity::KanjiInfo(x) => exists|k: int, j: int|
                0 <= k < self.kanji_elements@.len() && 0 <= j
                    < self.kanji_elements@[k].info@.len() && #[trigger] self.kanji_elements@[k].info@[j]
                    == x,
            Entity::ReadingInfo(x) => exists|k: int, j: int|
                0 <= k < self.reading_elements@.len() && 0 <= j
                    < self.reading_elements@[k].info@.len() && #[trigger] self.reading_elements@[k].info@[j]
                    == x,
            Entity::PartOfSpeech(x) => exists|k: int, j: int|
                0 <= k < self.senses@.len() && 0 <= j < self.senses@[k].pos@.len()
                    && #[trigger] self.senses@[k].pos@[j] == x,
            Entity::Miscellaneous(x) => exists|k: int, j: int|
                0 <= k < self.senses@.len() && 0 <= j < self.senses@[k].misc@.len()
                    && #[trigger] self.senses@[k].misc@[j] == x,
            Entity::Dialect(x) => exists|k: int, j: int|
                0 <= k < self.senses@.len() && 0 <= j < self.senses@[k].dialect@.len()
                    && #[trigger] self.senses@[k].dialect@[j] == x,
            Entity::Field(x) => exists|k: int, j: int|
                0 <= k < self.senses@.len() && 0 <= j < self.senses@[k].field@.len()
                    && #[trigger] self.senses@[k].field@[j] == x,
        }
    }

    /// Every entity of `es` is attached to the entry.
    pub open spec fn has_entities(self, es: Seq<Entity>) -> bool {
        forall|i: int| 0 <= i < es.len() ==> self.has_entity(#[trigger] es[i])
    }

    /// Test if the entity `e` is attached to the entry.
    pub fn contains_entity(&self, e: Entity) -> (r: bool)
        ensures
            r == self.has_entity(e),
    {
        match e {
            Entity::KanjiInfo(x) => kanji_info_in(&self.kanji_elements, x),
            Entity::ReadingInfo(x) => reading_info_in(&self.reading_elements, x),
            Entity::PartOfSpeech(x) => pos_in(&self.senses, x),
            Entity::Miscellaneous(x) => misc_in(&self.senses, x),
            Entity::Dialect(x) => dialect_in(&self.senses, x),
            Entity::Field(x) => field_in(&self.senses, x),
        }
    }

    /// Test if every entity of a search is attached to the entry.
    pub fn contains_entities(&self, entities: &Vec<Entity>) -> (r: bool)
        ensures
            r == self.has_entities(entities@),
    {
        let mut i: usize = 0;
        while i < entities.len()
            invariant
                i <= entities@.len(),
                forall|k: int| 0 <= k < i ==> self.has_entity(#[trigger] entities@[k]),
            decreases entities@.len() - i,
        {
            if !self.contains_entity(entities[i]) {
                return false;
            }
            i = i + 1;
        }
        true
    }
}

fn kanji_info_in(ks: &Vec<KanjiElement>, x: KanjiInfo) -> (r: bool)
    ensures
        r == exists|k: int, j: int|
            0 <= k < ks@.len() && 0 <= j < ks@[k].info@.len() && #[trigger] ks@[k].info@[j] == x,
{
    let mut k: usize = 0;
    while k < ks.len()
        invariant
            k <= ks@.len(),
            forall|a: int, b: int|
                0 <= a < k && 0 <= b < ks@[a].info@.len() ==> #[trigger] ks@[a].info@[b] != x,
        decreases ks@.len() - k,
    {
        let info = &ks[k].info;
        let mut j: usize = 0;
        while j < info.len()
            invariant
                k < ks@.len(),
                *info == ks@[k as int].info,
                j <= info@.len(),
                forall|b: int| 0 <= b < j ==> #[trigger] info@[b] != x,
            decreases info@.len() - j,
        {
            if info[j] == x {
                return true;
            }
            j = j + 1;
        }
        k = k + 1;
    }
    false
}

fn reading_info_in(rs: &Vec<ReadingElement>, x: ReadingInfo) -> (r: bool)
    ensures
        r == exists|k: int, j: int|
            0 <= k < rs@.len() && 0 <= j < rs@[k].info@.len() && #[trigger] rs@[k].info@[j] == x,
{
    let mut k: usize = 0;
    while k < rs.len()
        invariant
            k <= rs@.len(),
            forall|a: int, b: int|
                0 <= a < k && 0 <= b < rs@[a].info@.len() ==> #[trigger] rs@[a].info@[b] != x,
        decreases rs@.len() - k,
    {
        let info = &rs[k].info;
        let mut j: usize = 0;
        while j < info.len()
            invariant
                k < rs@.len(),
                *info == rs@[k as int].info,
                j <= info@.len(),
                forall|b: int| 0 <= b < j ==> #[trigger] info@[b] != x,
            decreases info@.len() - j,
        {
            if info[j] == x {
                return true;
            }
            j = j + 1;
        }
        k = k + 1;
    }
    false
}

fn pos_in(ss: &Vec<Sense>, x: PartOfSpeech) -> (r: bool)
    ensures
        r == exists|k: int, j: int|
            0 <= k < ss@.len() && 0 <= j < ss@[k].pos@.len() && #[trigger] ss@[k].pos@[j] == x,
{
    let mut k: usize = 0;
    while k < ss.len()
        invariant
            k <= ss@.len(),
            forall|a: int, b: int|
                0 <= a < k && 0 <= b < ss@[a].pos@.len() ==> #[trigger] ss@[a].pos@[b] != x,
        decreases ss@.len() - k,
    {
        let v = &ss[k].pos;
        let mut j: usize = 0;
        while j < v.len()
            invariant
                k < ss@.len(),
                *v == ss@[k as int].pos,
                j <= v@.len(),
                forall|b: int| 0 <= b < j ==> #[trigger] v@[b] != x,
            decreases v@.len() - j,
        {
            if v[j] == x {
                return true;
            }
            j = j + 1;
        }
        k = k + 1;
    }
    false
}

fn misc_in(ss: &Vec<Sense>, x: Miscellaneous) -> (r: bool)
    ensures
        r == exists|k: int, j: int|
            0 <= k < ss@.len() && 0 <= j < ss@[k].misc@.len() && #[trigger] ss@[k].misc@[j] == x,
{
    let mut k: usize = 0;
    while k < ss.len()
        invariant
            k <= ss@.len(),
            forall|a: int, b: int|
                0 <= a < k && 0 <= b < ss@[a].misc@.len() ==> #[trigger] ss@[a].misc@[b] != x,
        decreases ss@.len() - k,
    {
        let v = &ss[k].misc;
        let mut j: usize = 0;
        while j < v.len()
            invariant
                k < ss@.len(),
                *v == ss@[k as int].misc,
                j <= v@.len(),
                forall|b: int| 0 <= b < j ==> #[trigger] v@[b] != x,
            decreases v@.len() - j,
        {
            if v[j] == x {
                return true;
            }
            j = j + 1;
        }
        k = k + 1;
    }
    false
}

fn dialect_in(ss: &Vec<Sense>, x: Dialect) -> (r: bool)
    ensures
        r == exists|k: int, j: int|
            0 <= k < ss@.len() && 0 <= j < ss@[k].dialect@.len() && #[trigger] ss@[k].dialect@[j]
                == x,
{
    let mut k: usize = 0;
    while k < ss.len()
        invariant
            k <= ss@.len(),
            forall|a: int, b: int|
                0 <= a < k && 0 <= b < ss@[a].dialect@.len() ==> #[trigger] ss@[a].dialect@[b] != x,
        decreases ss@.len() - k,
    {
        let v = &ss[k].dialect;
        let mut j: usize = 0;
        while j < v.len()
            invariant
                k < ss@.len(),
                *v == ss@[k as int].dialect,
                j <= v@.len(),
                forall|b: int| 0 <= b < j ==> #[trigger] v@[b] != x,
            decreases v@.len() - j,
        {
            if v[j] == x {
                return true;
            }
            j = j + 1;
        }
        k = k + 1;
    }
    false
}

fn field_in(ss: &Vec<Sense>, x: Field) -> (r: bool)
    ensures
        r == exists|k: int, j: int|
            0 <= k < ss@.len() && 0 <= j < ss@[k].field@.len() && #[trigger] ss@[k].field@[j] == x,
{
    let mut k: usize = 0;
    while k < ss.len()
        invariant
            k <= ss@.len(),
            forall|a: int, b: int|
                0 <= a < k && 0 <= b < ss@[a].field@.len() ==> #[trigger] ss@[a].field@[b] != x,
        decreases ss@.len() - k,
    {
        let v = &ss[k].field;
        let mut j: usize = 0;
        while j < v.len()
            invariant
                k < ss@.len(),
                *v == ss@[k as int].field,
                j <= v@.len(),
                forall|b: int| 0 <= b < j ==> #[trigger] v@[b] != x,
            decreases v@.len() - j,
        {
            if v[j] == x {
                return true;
            }
            j = j + 1;
        }
        k = k + 1;
    }
    false
}

} // verus!
