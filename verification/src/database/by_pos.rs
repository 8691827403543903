//! The phrases of an index by the parts of speech of their senses.

use std::collections::HashSet;

use vstd::prelude::*;

use super::index::PhraseIndex;
use super::stored;
use crate::entities::PartOfSpeech;
use crate::jmdict::{Entry, Sense};

verus! {

broadcast use vstd::std_specs::hash::group_hash_axioms;

/// The parts of speech of the senses of a phrase at `offset`, each paired
/// with the offset, in order.
pub open spec fn senses_pos_keys(ss: Seq<Sense>, offset: u32) -> Seq<(PartOfSpeech, u32)>
    decreases ss.len(),
{
    if ss.len() == 0 {
        Seq::empty()
    } else {
        senses_pos_keys(ss.drop_last(), offset) + ss.last().pos@.map_values(
            |p: PartOfSpeech| (p, offset),
        )
    }
}

/// Add the parts of speech of a phrase stored at `offset`.
pub fn add_pos_keys(entry: &Entry, offset: u32, table: &mut Vec<(PartOfSpeech, u32)>)
    ensures
        final(table)@ == old(table)@ + senses_pos_keys(entry.senses@, offset),
{
    let ghost start = table@;
    let ss = &entry.senses;
    let mut k: usize = 0;
    while k < ss.len()
        invariant
            k <= ss@.len(),
            *ss == entry.senses,
            table@ == start + senses_pos_keys(ss@.take(k as int), offset),
        decreases ss@.len() - k,
    {
        let pos = &ss[k].pos;
        let ghost before = table@;
        let mut j: usize = 0;
        while j < pos.len()
            invariant
                j <= pos@.len(),
                table@ == before + pos@.take(j as int).map_values(|p: PartOfSpeech| (p, offset)),
            decreases pos@.len() - j,
        {
            table.push((pos[j], offset));
            assert(pos@.take(j + 1).map_values(|p: PartOfSpeech| (p, offset)) =~= pos@.take(
                j as int,
            ).map_values(|p: PartOfSpeech| (p, offset)).push((pos@[j as int], offset)));
            j = j + 1;
        }
        assert(pos@.take(pos@.len() as int) =~= pos@);
        assert(ss@.take(k + 1).drop_last() =~= ss@.take(k as int));
        assert(ss@.take(k + 1).last() == ss@[k as int]);
        k = k + 1;
    }
    assert(ss@.take(ss@.len() as int) =~= ss@);
}

/// Some phrase of the table has the part of speech `p`.
pub open spec fn pos_known(table: Seq<(PartOfSpeech, u32)>, p: PartOfSpeech) -> bool {
    exists|i: int| 0 <= i < table.len() && (#[trigger] table[i]).0 == p
}

/// The phrase at `offset` has every part of speech of `pos` which some
/// phrase of the table has, and there is at least one such part of speech.
pub open spec fn pos_matches(
    table: Seq<(PartOfSpeech, u32)>,
    pos: Seq<PartOfSpeech>,
    offset: u32,
) -> bool {
    &&& exists|k: int| 0 <= k < pos.len() && pos_known(table, #[trigger] pos[k])
    &&& forall|k: int|
        0 <= k < pos.len() && pos_known(table, #[trigger] pos[k]) ==> table.contains(
            (pos[k], offset),
        )
}

/// The phrases of `phrases`, in order, which match the parts of speech
/// `pos`, each indexed by its meaning.
pub open spec fn phrases_with_pos(
    table: Seq<(PartOfSpeech, u32)>,
    pos: Seq<PartOfSpeech>,
    phrases: Seq<u32>,
) -> Seq<stored::Id>
    decreases phrases.len(),
{
    if phrases.len() == 0 {
        Seq::empty()
    } else {
        let rest = phrases_with_pos(table, pos, phrases.drop_last());
        if pos_matches(table, pos, phrases.last()) {
            rest.push(stored::Id { offset: phrases.last(), source: stored::Source::Phrase { index: PhraseIndex::Meaning } })
        } else {
            rest
        }
    }
}

/// The offsets stored under the part of speech `p`, and whether any is.
fn offsets_of(table: &Vec<(PartOfSpeech, u32)>, p: PartOfSpeech) -> (r: (bool, HashSet<u32>))
    ensures
        r.0 == pos_known(table@, p),
        forall|o: u32| r.1@.contains(o) <==> table@.contains((p, o)),
{
    let mut known = false;
    let mut set: HashSet<u32> = HashSet::new();
    let mut i: usize = 0;
    while i < table.len()
        invariant
            i <= table@.len(),
            known == exists|a: int| 0 <= a < i && (#[trigger] table@[a]).0 == p,
            forall|o: u32|
                set@.contains(o) <==> exists|a: int| 0 <= a < i && #[trigger] table@[a] == (p, o),
        decreases table@.len() - i,
    {
        let (q, o) = table[i];
        if q == p {
            known = true;
            set.insert(o);
        }
        proof {
            assert forall|o2: u32|
                set@.contains(o2) <==> exists|a: int| 0 <= a < i + 1 && #[trigger] table@[a] == (p, o2) by {
                if set@.contains(o2) && !(exists|a: int| 0 <= a < i && #[trigger] table@[a] == (p, o2)) {
                    assert(table@[i as int] == (p, o2));
                }
                if exists|a: int| 0 <= a < i + 1 && #[trigger] table@[a] == (p, o2) {
                    let a = choose|a: int| 0 <= a < i + 1 && #[trigger] table@[a] == (p, o2);
                    if a == i {
                        assert(set@.contains(o2));
                    }
                }
            }
            assert(known == exists|a: int| 0 <= a < i + 1 && (#[trigger] table@[a]).0 == p);
        }
        i = i + 1;
    }
    proof {
        assert forall|o: u32| set@.contains(o) <==> table@.contains((p, o)) by {
            if table@.contains((p, o)) {
                let a = choose|a: int| 0 <= a < table@.len() && table@[a] == (p, o);
                assert(table@[a] == (p, o));
            }
        }
    }
    (known, set)
}

/// The phrases of `phrases`, in order, which have every part of speech of
/// `pos` that some phrase of the table has; none where no phrase has any
/// of them.
pub fn by_pos(
    table: &Vec<(PartOfSpeech, u32)>,
    phrases: &Vec<u32>,
    pos: &Vec<PartOfSpeech>,
) -> (r: Vec<stored::Id>)
    ensures
        r@ == phrases_with_pos(table@, pos@, phrases@),
{
    let mut known: Vec<bool> = Vec::new();
    let mut sets: Vec<HashSet<u32>> = Vec::new();
    let mut any = false;
    let mut k: usize = 0;
    while k < pos.len()
        invariant
            k <= pos@.len(),
            known@.len() == k,
            sets@.len() == k,
            forall|a: int| 0 <= a < k ==> known@[a] == pos_known(table@, #[trigger] pos@[a]),
            forall|a: int, o: u32|
                0 <= a < k ==> (#[trigger] sets@[a]@.contains(o) <==> table@.contains((pos@[a], o))),
            any == exists|a: int| 0 <= a < k && pos_known(table@, #[trigger] pos@[a]),
        decreases pos@.len() - k,
    {
        let (kn, set) = offsets_of(table, pos[k]);
        any = any || kn;
        known.push(kn);
        sets.push(set);
        proof {
            assert(any == exists|a: int| 0 <= a < k + 1 && pos_known(table@, #[trigger] pos@[a])) by {
                if kn {
                    assert(pos_known(table@, pos@[k as int]));
                }
            }
        }
        k = k + 1;
    }
    let mut out: Vec<stored::Id> = Vec::new();
    let mut i: usize = 0;
    while i < phrases.len()
        invariant
            i <= phrases@.len(),
            known@.len() == pos@.len(),
            sets@.len() == pos@.len(),
            forall|a: int| 0 <= a < pos@.len() ==> known@[a] == pos_known(table@, #[trigger] pos@[a]),
            forall|a: int, o: u32|
                0 <= a < pos@.len() ==> (#[trigger] sets@[a]@.contains(o) <==> table@.contains(
                    (pos@[a], o),
                )),
            any == exists|a: int| 0 <= a < pos@.len() && pos_known(table@, #[trigger] pos@[a]),
            out@ == phrases_with_pos(table@, pos@, phrases@.take(i as int)),
        decreases phrases@.len() - i,
    {
        let o = phrases[i];
        let mut all = true;
        let mut a: usize = 0;
        while a < pos.len()
            invariant
                a <= pos@.len(),
                known@.len() == pos@.len(),
                sets@.len() == pos@.len(),
                forall|b: int| 0 <= b < pos@.len() ==> known@[b] == pos_known(table@, #[trigger] pos@[b]),
                forall|b: int, o2: u32|
                    0 <= b < pos@.len() ==> (#[trigger] sets@[b]@.contains(o2) <==> table@.contains(
                        (pos@[b], o2),
                    )),
                all == forall|b: int|
                    0 <= b < a && pos_known(table@, #[trigger] pos@[b]) ==> table@.contains(
                        (pos@[b], o),
                    ),
            decreases pos@.len() - a,
        {
            if known[a] && !sets[a].contains(&o) {
                all = false;
            }
            proof {
                assert(sets@[a as int]@.contains(o) <==> table@.contains((pos@[a as int], o)));
            }
            a = a + 1;
        }
        assert(phrases@.take(i + 1).drop_last() =~= phrases@.take(i as int));
        assert(phrases@.take(i + 1).last() == o);
        if any && all {
            out.push(stored::Id::phrase(o, PhraseIndex::Meaning));
        }
        i = i + 1;
    }
    assert(phrases@.take(phrases@.len() as int) =~= phrases@);
    out
}

} // verus!
