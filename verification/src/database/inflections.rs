//! The inflected forms of a phrase as index keys.
//!
//! Every distinct pair of reading and inflection gets a position in a table
//! of inflections, in order of first appearance; an inflected form is
//! indexed under its phrase and that position.

use std::collections::HashMap;

use vstd::prelude::*;

use super::index::InflectionData;
use super::keys::{keys_view, KeyView};
use super::readings::{convert_text, other_readings};
use super::stored::{Id, Source};
use crate::inflection::set::{lemma_raw_injective, Inflection};
use crate::inflection::{Inflections, Kind, Reading};
use crate::kana::Fragments;
use crate::romaji::Transform;
use crate::text::{chars_eq, concat_strs};

verus! {

broadcast use vstd::std_specs::hash::group_hash_axioms;

/// The number under which the data of an inflection is found in a table.
pub open spec fn pack(d: InflectionData) -> u64 {
    ((d.reading.kanji as u64) << 40u64) | ((d.reading.reading as u64) << 32u64) | (
    d.inflection.raw() as u64)
}

proof fn lemma_pack_injective(a: InflectionData, b: InflectionData)
    requires
        pack(a) == pack(b),
    ensures
        a == b,
{
    let (k1, r1, w1) = (a.reading.kanji, a.reading.reading, a.inflection.raw());
    let (k2, r2, w2) = (b.reading.kanji, b.reading.reading, b.inflection.raw());
    assert(k1 == k2 && r1 == r2 && w1 == w2) by (bit_vector)
        requires
            ((k1 as u64) << 40u64) | ((r1 as u64) << 32u64) | (w1 as u64) == ((k2 as u64) << 40u64)
                | ((r2 as u64) << 32u64) | (w2 as u64),
    ;
    lemma_raw_injective(a.inflection, b.inflection);
}

fn pack_data(d: InflectionData) -> (r: u64)
    ensures
        r == pack(d),
{
    ((d.reading.kanji as u64) << 40u64) | ((d.reading.reading as u64) << 32u64) | (
    d.inflection.raw_value() as u64)
}

/// The table after the data has been added, unless it was there already.
pub open spec fn table_insert(t: Seq<InflectionData>, d: InflectionData) -> Seq<InflectionData> {
    if t.contains(d) {
        t
    } else {
        t.push(d)
    }
}

/// The position of the data in the table once it has been added.
pub open spec fn table_position(t: Seq<InflectionData>, d: InflectionData) -> int {
    if t.contains(d) {
        t.index_of(d)
    } else {
        t.len() as int
    }
}

/// The table after each of the data has been added in turn.
pub open spec fn table_after(t: Seq<InflectionData>, ds: Seq<InflectionData>) -> Seq<InflectionData>
    decreases ds.len(),
{
    if ds.len() == 0 {
        t
    } else {
        table_insert(table_after(t, ds.drop_last()), ds.last())
    }
}

/// Adding data never shrinks the table, and adds at most one entry each.
pub proof fn lemma_table_after_len(t: Seq<InflectionData>, ds: Seq<InflectionData>, n: int)
    requires
        0 <= n <= ds.len(),
    ensures
        t.len() <= table_after(t, ds.take(n)).len() <= table_after(t, ds).len(),
        table_after(t, ds).len() <= t.len() + ds.len(),
    decreases ds.len(),
{
    if ds.len() > 0 {
        if n == ds.len() {
            assert(ds.take(n) =~= ds);
            lemma_table_after_len(t, ds.drop_last(), n - 1);
        } else {
            assert(ds.take(n) =~= ds.drop_last().take(n));
            lemma_table_after_len(t, ds.drop_last(), n);
        }
    }
}

/// A table of the data of inflections, each found by its position.
pub struct InflectionTable {
    data: Vec<InflectionData>,
    index: HashMap<u64, u32>,
}

impl View for InflectionTable {
    type V = Seq<InflectionData>;

    closed spec fn view(&self) -> Seq<InflectionData> {
        self.data@
    }
}

impl InflectionTable {
    /// Each datum is found at its position.
    pub closed spec fn wf(&self) -> bool {
        &&& self.data@.len() <= u32::MAX
        &&& forall|i: int|
            0 <= i < self.data@.len() ==> #[trigger] self.index@.contains_key(pack(self.data@[i]))
                && self.index@[pack(self.data@[i])] == i
        &&& forall|k: u64|
            #[trigger] self.index@.contains_key(k) ==> self.index@[k] < self.data@.len() && pack(
                self.data@[self.index@[k] as int],
            ) == k
    }

    proof fn lemma_found(&self, d: InflectionData)
        requires
            self.wf(),
        ensures
            self@.contains(d) <==> self.index@.contains_key(pack(d)),
            self@.contains(d) ==> self@.index_of(d) == self.index@[pack(d)],
            self@.no_duplicates(),
    {
        if self.index@.contains_key(pack(d)) {
            let i = self.index@[pack(d)] as int;
            lemma_pack_injective(self.data@[i], d);
            assert(self.data@[i] == d);
        }
        assert forall|i: int, j: int|
            0 <= i < self.data@.len() && 0 <= j < self.data@.len() && i != j implies self.data@[i]
            != self.data@[j] by {
            if self.data@[i] == self.data@[j] {
                assert(self.index@.contains_key(pack(self.data@[i])));
                assert(self.index@.contains_key(pack(self.data@[j])));
            }
        }
        if self@.contains(d) {
            let j = self@.index_of(d);
            assert(self.data@[j] == d);
            assert(self.index@.contains_key(pack(self.data@[j])));
        }
    }

    /// An empty table.
    pub fn new() -> (r: Self)
        ensures
            r.wf(),
            r@ == Seq::<InflectionData>::empty(),
    {
        InflectionTable { data: Vec::new(), index: HashMap::new() }
    }

    /// The data of the inflection at a position.
    pub fn get(&self, position: usize) -> (r: Option<InflectionData>)
        ensures
            r == (if position < self@.len() {
                Some(self@[position as int])
            } else {
                None
            }),
    {
        if position < self.data.len() {
            Some(self.data[position])
        } else {
            None
        }
    }

    /// The data of the inflections in order of position.
    pub fn data(&self) -> (r: &Vec<InflectionData>)
        ensures
            r@ == self@,
    {
        &self.data
    }

    /// A copy of the table.
    pub fn duplicate(&self) -> (r: Self)
        requires
            self.wf(),
        ensures
            r.wf(),
            r@ == self@,
    {
        proof {
            self.lemma_found(self.data@[0]);
        }
        let mut copy = InflectionTable::new();
        let mut i: usize = 0;
        while i < self.data.len()
            invariant
                self.wf(),
                self@.no_duplicates(),
                i <= self@.len(),
                copy.wf(),
                copy@ == self@.take(i as int),
            decreases self@.len() - i,
        {
            assert(!copy@.contains(self@[i as int])) by {
                if copy@.contains(self@[i as int]) {
                    let j = copy@.index_of(self@[i as int]);
                    assert(self@[j] == self@[i as int]);
                }
            }
            copy.position(self.data[i]);
            assert(copy@ =~= self@.take(i + 1));
            i = i + 1;
        }
        assert(self@.take(self@.len() as int) =~= self@);
        copy
    }

    /// Test if the conjugations can be added, that is if every inflection
    /// of them gets a position that can be stored.
    pub fn fits<'a>(&self, conjugations: &Vec<(Reading, Inflections<'a>, Kind)>) -> (r: bool)
        requires
            self.wf(),
        ensures
            r == (table_after(self@, item_data(conjugation_items(conjugations@))).len() <= u16::MAX),
    {
        let ghost items = item_data(conjugation_items(conjugations@));
        if self.data.len() > 65535 {
            proof {
                lemma_table_after_len(self@, items, 0);
            }
            return false;
        }
        let mut copy = self.duplicate();
        assert(conjugations@.take(0) =~= Seq::<(Reading, Inflections<'a>, Kind)>::empty());
        let mut i: usize = 0;
        while i < conjugations.len()
            invariant
                i <= conjugations@.len(),
                items == item_data(conjugation_items(conjugations@)),
                copy.wf(),
                copy@.len() <= u16::MAX,
                copy@ == table_after(self@, item_data(conjugation_items(conjugations@.take(i as int)))),
            decreases conjugations@.len() - i,
        {
            let reading = conjugations[i].0;
            let entries = conjugations[i].1.iter();
            let ghost done = conjugation_items(conjugations@.take(i as int));
            proof {
                lemma_items_prefix(conjugations@, i as int);
                lemma_items_take(conjugations@, conjugations@.len() as int);
            }
            let mut k: usize = 0;
            while k < entries.len()
                invariant
                    i < conjugations@.len(),
                    reading == conjugations@[i as int].0,
                    entries@ == conjugations@[i as int].1.entries(),
                    k <= entries@.len(),
                    items == item_data(conjugation_items(conjugations@)),
                    done + reading_items(reading, entries@) == conjugation_items(conjugations@).take(
                        (done.len() + entries@.len()) as int,
                    ),
                    done.len() + entries@.len() <= conjugation_items(conjugations@).len(),
                    copy.wf(),
                    copy@.len() <= u16::MAX,
                    copy@ == table_after(self@, item_data(done + reading_items(reading, entries@.take(k as int)))),
                decreases entries@.len() - k,
            {
                let ghost prev = done + reading_items(reading, entries@.take(k as int));
                let data = InflectionData { reading, inflection: entries[k].0 };
                let ghost next = prev.push((data, entries@[k as int].1));
                assert(done + reading_items(reading, entries@.take(k + 1)) =~= next);
                assert(item_data(next).drop_last() =~= item_data(prev));
                copy.position(data);
                assert(copy@ == table_after(self@, item_data(next)));
                if copy.data().len() > 65535 {
                    proof {
                        assert(next =~= conjugation_items(conjugations@).take(prev.len() as int + 1));
                        assert(items.take(prev.len() as int + 1) =~= item_data(next));
                        lemma_table_after_len(self@, items, prev.len() as int + 1);
                    }
                    return false;
                }
                k = k + 1;
            }
            assert(entries@.take(entries@.len() as int) =~= entries@);
            assert(conjugations@.take(i + 1).drop_last() =~= conjugations@.take(i as int));
            i = i + 1;
        }
        assert(conjugations@.take(conjugations@.len() as int) =~= conjugations@);
        true
    }

    /// The position of the data, added to the table unless it is there
    /// already.
    pub fn position(&mut self, d: InflectionData) -> (r: u32)
        requires
            old(self).wf(),
            old(self)@.len() < u32::MAX,
        ensures
            final(self).wf(),
            final(self)@ == table_insert(old(self)@, d),
            r == table_position(old(self)@, d),
    {
        proof {
            self.lemma_found(d);
        }
        let key = pack_data(d);
        match self.index.get(&key) {
            Some(i) => *i,
            None => {
                let i = self.data.len() as u32;
                let ghost old_data = self.data@;
                let ghost old_index = self.index@;
                self.data.push(d);
                self.index.insert(key, i);
                assert forall|j: int| 0 <= j < self.data@.len() implies #[trigger] self.index@.contains_key(
                    pack(self.data@[j]),
                ) && self.index@[pack(self.data@[j])] == j by {
                    if j < old_data.len() {
                        assert(old_data[j] == self.data@[j]);
                        assert(old_index.contains_key(pack(old_data[j])));
                    }
                }
                i
            },
        }
    }
}

/// The stored identifier of an inflected form of the phrase at `offset`,
/// by the position of the data of its inflection.
pub open spec fn inflection_id(offset: u32, position: int) -> Id {
    Id { offset, source: Source::Inflection { inflection: position as u16 } }
}

/// The keys of an inflected form: its spelling followed by its suffix where
/// the spelling differs from the reading, then the reading followed by the
/// suffix romanized, in katakana, and as is.
pub open spec fn word_keys(w: Fragments, id: Id) -> Seq<KeyView> {
    let text = w.text_concat().text();
    let reading = w.reading_concat().text();
    let suffix = w.suffix_concat().text();
    let key = reading + suffix;
    let spelled = if text != reading {
        seq![(text + suffix, id)]
    } else {
        Seq::empty()
    };
    spelled + seq![
        (convert_text(Transform::Romaji, key), id),
        (convert_text(Transform::Katakana, key), id),
        (key, id),
    ]
}

/// An inflected form with the data of its inflection.
pub type Item<'a> = (InflectionData, Fragments<'a>);

/// The inflected forms of one reading, in order of inflection.
pub open spec fn reading_items<'a>(r: Reading, es: Seq<(Inflection, Fragments<'a>)>) -> Seq<Item<'a>> {
    es.map_values(|e: (Inflection, Fragments<'a>)| (InflectionData { reading: r, inflection: e.0 }, e.1))
}

/// The inflected forms of each conjugation in turn.
pub open spec fn conjugation_items<'a>(cs: Seq<(Reading, Inflections<'a>, Kind)>) -> Seq<Item<'a>>
    decreases cs.len(),
{
    if cs.len() == 0 {
        Seq::empty()
    } else {
        conjugation_items(cs.drop_last()) + reading_items(cs.last().0, cs.last().1.entries())
    }
}

/// The data of the inflections of the forms.
pub open spec fn item_data<'a>(items: Seq<Item<'a>>) -> Seq<InflectionData> {
    items.map_values(|x: Item<'a>| x.0)
}

/// The keys of the inflected forms of the phrase at `offset`, where each
/// inflection takes its position in the table as it grows from `t`.
pub open spec fn items_keys<'a>(t: Seq<InflectionData>, items: Seq<Item<'a>>, offset: u32) -> Seq<
    KeyView,
>
    decreases items.len(),
{
    if items.len() == 0 {
        Seq::empty()
    } else {
        let prev = items.drop_last();
        let position = table_position(table_after(t, item_data(prev)), items.last().0);
        items_keys(t, prev, offset) + word_keys(items.last().1, inflection_id(offset, position))
    }
}

/// The text of a sequence of string parts.
fn joined(parts: &[&str], more: &[&str]) -> (r: String)
    ensures
        r@ == crate::text::concat_views(parts@) + crate::text::concat_views(more@),
{
    let mut s = concat_strs(parts);
    let t = concat_strs(more);
    s.append(t.as_str());
    s
}

/// Add the keys of one inflected form under `id`.
fn add_word_keys(w: &Fragments, id: Id, lookup: &mut Vec<(String, Id)>)
    ensures
        keys_view(final(lookup)@) == keys_view(old(lookup)@) + word_keys(*w, id),
{
    let ghost start = keys_view(lookup@);
    let text = w.text().chars();
    let reading = w.reading().chars();
    if !chars_eq(&text, &reading) {
        let spelled = joined(w.text().as_slice(), w.suffix().as_slice());
        lookup.push((spelled, id));
    }
    let key = joined(w.reading().as_slice(), w.suffix().as_slice());
    other_readings(lookup, key.as_str(), id, id, Transform::Katakana);
    lookup.push((key, id));
    assert(keys_view(lookup@) =~= start + word_keys(*w, id));
}

/// Add the keys of the inflected forms of the conjugations of the phrase
/// at `offset`, giving each new inflection the next position in the table.
#[verifier::rlimit(40)]
pub fn add_conjugation_keys<'a>(
    conjugations: &Vec<(Reading, Inflections<'a>, Kind)>,
    offset: u32,
    table: &mut InflectionTable,
    lookup: &mut Vec<(String, Id)>,
)
    requires
        old(table).wf(),
        table_after(old(table)@, item_data(conjugation_items(conjugations@))).len() <= u16::MAX,
    ensures
        final(table).wf(),
        final(table)@ == table_after(old(table)@, item_data(conjugation_items(conjugations@))),
        keys_view(final(lookup)@) == keys_view(old(lookup)@) + items_keys(
            old(table)@,
            conjugation_items(conjugations@),
            offset,
        ),
{
    let ghost t0 = table@;
    let ghost all = conjugation_items(conjugations@);
    let ghost start = keys_view(lookup@);
    let mut i: usize = 0;
    while i < conjugations.len()
        invariant
            i <= conjugations@.len(),
            all == conjugation_items(conjugations@),
            table_after(t0, item_data(all)).len() <= u16::MAX,
            table.wf(),
            table@ == table_after(t0, item_data(conjugation_items(conjugations@.take(i as int)))),
            keys_view(lookup@) == start + items_keys(t0, conjugation_items(conjugations@.take(i as int)), offset),
            conjugation_items(conjugations@.take(i as int)).len() <= all.len(),
            all.take(conjugation_items(conjugations@.take(i as int)).len() as int) == conjugation_items(
                conjugations@.take(i as int),
            ),
        decreases conjugations@.len() - i,
    {
        let reading = conjugations[i].0;
        let entries = conjugations[i].1.iter();
        let ghost done = conjugation_items(conjugations@.take(i as int));
        proof {
            lemma_items_prefix(conjugations@, i as int);
        }
        let mut k: usize = 0;
        while k < entries.len()
            invariant
                i < conjugations@.len(),
                reading == conjugations@[i as int].0,
                entries@ == conjugations@[i as int].1.entries(),
                k <= entries@.len(),
                all == conjugation_items(conjugations@),
                table_after(t0, item_data(all)).len() <= u16::MAX,
                done + reading_items(reading, entries@) == all.take((done.len() + entries@.len()) as int),
                done.len() + entries@.len() <= all.len(),
                table.wf(),
                table@ == table_after(t0, item_data(done + reading_items(reading, entries@.take(k as int)))),
                keys_view(lookup@) == start + items_keys(
                    t0,
                    done + reading_items(reading, entries@.take(k as int)),
                    offset,
                ),
            decreases entries@.len() - k,
        {
            let ghost prev = done + reading_items(reading, entries@.take(k as int));
            let data = InflectionData { reading, inflection: entries[k].0 };
            let ghost next = prev.push((data, entries@[k as int].1));
            assert(done + reading_items(reading, entries@.take(k + 1)) =~= next);
            assert(next.drop_last() =~= prev);
            assert(item_data(next).drop_last() =~= item_data(prev));
            proof {
                assert(next =~= all.take(prev.len() as int + 1));
                lemma_table_after_len(t0, item_data(all), prev.len() as int + 1);
                assert(item_data(all).take(prev.len() as int + 1) =~= item_data(next));
            }
            let position = table.position(data);
            assert(table@ == table_after(t0, item_data(next)));
            assert(position < u16::MAX) by {
                if !table_after(t0, item_data(prev)).contains(data) {
                } else {
                    let p = table_after(t0, item_data(prev)).index_of(data);
                    assert(0 <= p < table_after(t0, item_data(prev)).len());
                }
            }
            let id = Id::inflection(offset, position as u16);
            add_word_keys(&entries[k].1, id, lookup);
            k = k + 1;
        }
        assert(entries@.take(entries@.len() as int) =~= entries@);
        assert(conjugations@.take(i + 1).drop_last() =~= conjugations@.take(i as int));
        i = i + 1;
    }
    assert(conjugations@.take(conjugations@.len() as int) =~= conjugations@);
}

proof fn lemma_items_prefix<'a>(cs: Seq<(Reading, Inflections<'a>, Kind)>, i: int)
    requires
        0 <= i < cs.len(),
    ensures
        conjugation_items(cs.take(i)) + reading_items(cs[i].0, cs[i].1.entries()) == conjugation_items(
            cs,
        ).take((conjugation_items(cs.take(i)).len() + cs[i].1.entries().len()) as int),
        conjugation_items(cs.take(i)).len() + cs[i].1.entries().len() <= conjugation_items(cs).len(),
    decreases cs.len(),
{
    assert(cs.take(i + 1).drop_last() =~= cs.take(i));
    let a = conjugation_items(cs.take(i + 1));
    assert(a == conjugation_items(cs.take(i)) + reading_items(cs[i].0, cs[i].1.entries()));
    lemma_items_take(cs, i + 1);
    assert(a.take(a.len() as int) =~= a);
}

proof fn lemma_items_take<'a>(cs: Seq<(Reading, Inflections<'a>, Kind)>, n: int)
    requires
        0 <= n <= cs.len(),
    ensures
        conjugation_items(cs.take(n)).len() <= conjugation_items(cs).len(),
        conjugation_items(cs).take(conjugation_items(cs.take(n)).len() as int) == conjugation_items(
            cs.take(n),
        ),
    decreases cs.len(),
{
    if n == cs.len() {
        assert(cs.take(n) =~= cs);
        assert(conjugation_items(cs).take(conjugation_items(cs).len() as int) =~= conjugation_items(cs));
    } else {
        assert(cs.take(n) =~= cs.drop_last().take(n));
        lemma_items_take(cs.drop_last(), n);
        let a = conjugation_items(cs.drop_last());
        assert(conjugation_items(cs) == a + reading_items(cs.last().0, cs.last().1.entries()));
        assert((a + reading_items(cs.last().0, cs.last().1.entries())).take(
            conjugation_items(cs.take(n)).len() as int,
        ) =~= a.take(conjugation_items(cs.take(n)).len() as int));
    }
}

} // verus!
