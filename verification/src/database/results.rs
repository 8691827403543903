//! Sorting what a search finds in an index into phrases, names and kanji:
//! phrases and names which have every entity the search asks for, and each
//! kanji once, by its literal.

use vstd::prelude::*;

use super::builder::MemoryIndex;
use super::index::{Key, Source};
use super::keys::{keys_view, KeyView};
use super::query::{exact_table, ids_where, kanji_candidates, kanji_candidates_of};
use super::stored;
use super::text::push_char;
use crate::entities::Entity;
use crate::kanjidic2;
use crate::text::str_eq;

verus! {

/// Some literal of `seen` is `lit`.
pub open spec fn seen_has<'a>(seen: Seq<&'a str>, lit: Seq<char>) -> bool {
    exists|i: int| 0 <= i < seen.len() && (#[trigger] seen[i])@ == lit
}

/// The kanji seen and shown after the identifier `id` is looked at: a kanji
/// of the index whose literal is not seen yet is shown and its literal
/// seen.
pub open spec fn kanji_step<'a>(
    chars: Seq<kanjidic2::Character<'a>>,
    acc: (Seq<&'a str>, Seq<u32>),
    id: stored::Id,
) -> (Seq<&'a str>, Seq<u32>) {
    match id.source {
        stored::Source::Kanji { .. } => if id.offset < chars.len() && !seen_has(
            acc.0,
            chars[id.offset as int].literal@,
        ) {
            (acc.0.push(chars[id.offset as int].literal), acc.1.push(id.offset))
        } else {
            acc
        },
        _ => acc,
    }
}

/// The kanji seen and shown after each identifier of `ids` in turn.
pub open spec fn kanji_steps<'a>(
    chars: Seq<kanjidic2::Character<'a>>,
    acc: (Seq<&'a str>, Seq<u32>),
    ids: Seq<stored::Id>,
) -> (Seq<&'a str>, Seq<u32>)
    decreases ids.len(),
{
    if ids.len() == 0 {
        acc
    } else {
        kanji_step(chars, kanji_steps(chars, acc, ids.drop_last()), ids.last())
    }
}

/// The kanji seen and shown after each character of `cands` in turn is
/// looked up.
pub open spec fn populated<'a>(
    table: Seq<KeyView>,
    chars: Seq<kanjidic2::Character<'a>>,
    acc: (Seq<&'a str>, Seq<u32>),
    cands: Seq<char>,
) -> (Seq<&'a str>, Seq<u32>)
    decreases cands.len(),
{
    if cands.len() == 0 {
        acc
    } else {
        let c = cands.last();
        kanji_steps(
            chars,
            populated(table, chars, acc, cands.drop_last()),
            ids_where(table, |k: Seq<char>| k == seq![c]),
        )
    }
}

/// What sorting found groups gives so far: the literals seen, the kanji
/// shown, and the phrases and names kept, each by its offset with its
/// sources.
pub type Sorted<'a> = (Seq<&'a str>, Seq<u32>, Seq<(u32, Seq<Source>)>, Seq<(u32, Seq<Source>)>);

/// Sorting one group by the kind of its first source: a kanji is shown
/// once by its literal; a name or a phrase is kept where it has every
/// entity of the search.
pub open spec fn sort_step<'a>(
    ix: MemoryIndex<'a>,
    entities: Seq<Entity>,
    acc: Sorted<'a>,
    g: (Key, Seq<Source>),
) -> Sorted<'a> {
    let o = g.0.spec_offset();
    if g.1.len() == 0 {
        acc
    } else {
        match g.1[0] {
            Source::Kanji { .. } => if o < ix.characters@.len() && !seen_has(
                acc.0,
                ix.characters@[o as int].literal@,
            ) {
                (acc.0.push(ix.characters@[o as int].literal), acc.1.push(o), acc.2, acc.3)
            } else {
                acc
            },
            Source::Name { .. } => if o < ix.names@.len() && entities.len() == 0 {
                (acc.0, acc.1, acc.2, acc.3.push((o, g.1)))
            } else {
                acc
            },
            _ => if o < ix.phrases@.len() && ix.phrases@[o as int].has_entities(entities) {
                (acc.0, acc.1, acc.2.push((o, g.1)), acc.3)
            } else {
                acc
            },
        }
    }
}

/// Sorting each group of `groups` in turn.
pub open spec fn sorted<'a>(
    ix: MemoryIndex<'a>,
    entities: Seq<Entity>,
    acc: Sorted<'a>,
    groups: Seq<(Key, Seq<Source>)>,
) -> Sorted<'a>
    decreases groups.len(),
{
    if groups.len() == 0 {
        acc
    } else {
        sort_step(ix, entities, sorted(ix, entities, acc, groups.drop_last()), groups.last())
    }
}

/// Test if a literal is seen.
fn is_seen(seen: &Vec<&str>, lit: &str) -> (r: bool)
    ensures
        r == seen_has(seen@, lit@),
{
    let mut i: usize = 0;
    while i < seen.len()
        invariant
            i <= seen@.len(),
            forall|k: int| 0 <= k < i ==> (#[trigger] seen@[k])@ != lit@,
        decreases seen@.len() - i,
    {
        if str_eq(seen[i], lit) {
            return true;
        }
        i = i + 1;
    }
    false
}

impl<'a> MemoryIndex<'a> {
    /// Show each kanji which a character of `text` stands for, unless its
    /// literal is seen already: the characters which are neither kana nor
    /// ASCII letters are looked up in turn.
    pub fn populate_kanji(&self, text: &str, seen: &mut Vec<&'a str>, out: &mut Vec<u32>)
        ensures
            (final(seen)@, final(out)@) == populated(
                keys_view(self.table.lookup@),
                self.characters@,
                (old(seen)@, old(out)@),
                kanji_candidates_of(text@),
            ),
    {
        let cands = kanji_candidates(text);
        let ghost table = keys_view(self.table.lookup@);
        let ghost start = (seen@, out@);
        let mut i: usize = 0;
        while i < cands.len()
            invariant
                i <= cands@.len(),
                cands@ == kanji_candidates_of(text@),
                table == keys_view(self.table.lookup@),
                (seen@, out@) == populated(table, self.characters@, start, cands@.take(i as int)),
            decreases cands@.len() - i,
        {
            let c = cands[i];
            let mut key = String::new();
            push_char(&mut key, c);
            let ids = exact_table(&self.table.lookup, key.as_str());
            proof {
                assert(cands@.take(i + 1).drop_last() =~= cands@.take(i as int));
                assert(cands@.take(i + 1).last() == c);
                assert((|k: Seq<char>| k == key@) =~= (|k: Seq<char>| k == seq![c]));
                assert(keys_view(self.table.lookup@) =~= super::query::table_view(
                    self.table.lookup@,
                ));
            }
            let ghost acc0 = (seen@, out@);
            let mut j: usize = 0;
            while j < ids.len()
                invariant
                    j <= ids@.len(),
                    (seen@, out@) == kanji_steps(self.characters@, acc0, ids@.take(j as int)),
                decreases ids@.len() - j,
            {
                let id = ids[j];
                proof {
                    assert(ids@.take(j + 1).drop_last() =~= ids@.take(j as int));
                }
                match id.source {
                    stored::Source::Kanji { .. } => {
                        if (id.offset as usize) < self.characters.len() {
                            let lit = self.characters[id.offset as usize].literal;
                            if !is_seen(seen, lit) {
                                seen.push(lit);
                                out.push(id.offset);
                            }
                        }
                    },
                    _ => {},
                }
                j = j + 1;
            }
            assert(ids@.take(ids@.len() as int) =~= ids@);
            i = i + 1;
        }
        assert(cands@.take(cands@.len() as int) =~= cands@);
    }

    /// Sort what a search found, group by group, into kanji shown once by
    /// literal, and phrases and names which have every entity of the
    /// search, each with its offset and sources.
    pub fn sort_found(
        &self,
        groups: &Vec<(Key, Vec<Source>)>,
        entities: &Vec<Entity>,
        seen: &mut Vec<&'a str>,
        kanji: &mut Vec<u32>,
    ) -> (r: (Vec<(u32, Vec<Source>)>, Vec<(u32, Vec<Source>)>))
        ensures
            ({
                let after = sorted(
                    *self,
                    entities@,
                    (old(seen)@, old(kanji)@, Seq::empty(), Seq::empty()),
                    groups@.map_values(|g: (Key, Vec<Source>)| (g.0, g.1@)),
                );
                &&& final(seen)@ == after.0
                &&& final(kanji)@ == after.1
                &&& r.0@.map_values(|p: (u32, Vec<Source>)| (p.0, p.1@)) == after.2
                &&& r.1@.map_values(|p: (u32, Vec<Source>)| (p.0, p.1@)) == after.3
            }),
    {
        let ghost gs = groups@.map_values(|g: (Key, Vec<Source>)| (g.0, g.1@));
        let ghost start: Sorted<'a> = (seen@, kanji@, Seq::empty(), Seq::empty());
        let mut phrases: Vec<(u32, Vec<Source>)> = Vec::new();
        let mut names: Vec<(u32, Vec<Source>)> = Vec::new();
        let mut i: usize = 0;
        while i < groups.len()
            invariant
                i <= groups@.len(),
                gs == groups@.map_values(|g: (Key, Vec<Source>)| (g.0, g.1@)),
                ({
                    let acc = sorted(*self, entities@, start, gs.take(i as int));
                    &&& seen@ == acc.0
                    &&& kanji@ == acc.1
                    &&& phrases@.map_values(|p: (u32, Vec<Source>)| (p.0, p.1@)) == acc.2
                    &&& names@.map_values(|p: (u32, Vec<Source>)| (p.0, p.1@)) == acc.3
                }),
            decreases groups@.len() - i,
        {
            let ghost acc = sorted(*self, entities@, start, gs.take(i as int));
            assert(gs.take(i + 1).drop_last() =~= gs.take(i as int));
            assert(gs.take(i + 1).last() == gs[i as int]);
            let key = groups[i].0;
            let sources = &groups[i].1;
            let o = key.offset();
            if sources.len() > 0 {
                match sources[0] {
                    Source::Kanji { .. } => {
                        if (o as usize) < self.characters.len() {
                            let lit = self.characters[o as usize].literal;
                            if !is_seen(seen, lit) {
                                seen.push(lit);
                                kanji.push(o);
                            }
                        }
                    },
                    Source::Name { .. } => {
                        if (o as usize) < self.names.len() && entities.len() == 0 {
                            let copy = copy_sources(sources);
                            names.push((o, copy));
                            proof {
                                assert(names@.map_values(|p: (u32, Vec<Source>)| (p.0, p.1@))
                                    =~= acc.3.push((o, gs[i as int].1)));
                            }
                        }
                    },
                    _ => {
                        if (o as usize) < self.phrases.len() && self.phrases[o as usize].contains_entities(
                            entities,
                        ) {
                            let copy = copy_sources(sources);
                            phrases.push((o, copy));
                            proof {
                                assert(phrases@.map_values(|p: (u32, Vec<Source>)| (p.0, p.1@))
                                    =~= acc.2.push((o, gs[i as int].1)));
                            }
                        }
                    },
                }
            }
            i = i + 1;
        }
        assert(gs.take(gs.len() as int) =~= gs);
        (phrases, names)
    }
}

/// Copy a list of sources.
fn copy_sources(v: &Vec<Source>) -> (r: Vec<Source>)
    ensures
        r@ == v@,
{
    let mut out: Vec<Source> = Vec::new();
    let mut i: usize = 0;
    while i < v.len()
        invariant
            i <= v@.len(),
            out@ == v@.take(i as int),
        decreases v@.len() - i,
    {
        out.push(v[i]);
        assert(out@ =~= v@.take(i + 1));
        i = i + 1;
    }
    assert(v@.take(v@.len() as int) =~= v@);
    out
}

} // verus!
