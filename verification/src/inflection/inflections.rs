//! A collection of inflections of one dictionary form, ordered by
//! inflection.

use vstd::prelude::*;

use super::form::Form;
use super::set::{inflection_of, lemma_raw_injective, Inflection};
use crate::concat::nonempty_parts;
use crate::kana::{Fragments, Full, OwnedFull};
use crate::text::{concat_strs, concat_views};

verus! {

/// The characters of each text, reading and suffix part of a word.
pub type FragmentsView = (Seq<Seq<char>>, Seq<Seq<char>>, Seq<Seq<char>>);

/// The entries are ordered by strictly increasing inflection.
pub open spec fn ordered<T>(entries: Seq<(Inflection, T)>) -> bool {
    forall|i: int, j: int|
        0 <= i < j < entries.len() ==> (#[trigger] entries[i]).0.raw() < (#[trigger] entries[j]).0.raw()
}

/// The map from inflection to word which ordered entries stand for.
pub open spec fn entries_map(entries: Seq<(Inflection, Fragments)>) -> Map<Inflection, FragmentsView> {
    Map::new(
        |k: Inflection| exists|i: int| 0 <= i < entries.len() && (#[trigger] entries[i]).0 == k,
        |k: Inflection|
            entries[choose|i: int| 0 <= i < entries.len() && (#[trigger] entries[i]).0 == k].1@,
    )
}

/// A collection of inflections.
pub struct Inflections<'a> {
    pub dictionary: Full<'a>,
    pub inflections: Vec<(Inflection, Fragments<'a>)>,
}

impl<'a> Inflections<'a> {
    /// The inflections with their words, ordered by inflection.
    pub open spec fn entries(&self) -> Seq<(Inflection, Fragments<'a>)> {
        self.inflections@
    }

    /// The word of each inflection.
    pub open spec fn map(&self) -> Map<Inflection, FragmentsView> {
        entries_map(self.entries())
    }

    /// The entries are ordered and each word is stored within its
    /// capacities.
    pub open spec fn wf(&self) -> bool {
        &&& ordered(self.entries())
        &&& forall|i: int| 0 <= i < self.entries().len() ==> (#[trigger] self.entries()[i]).1.wf()
    }

    /// An empty collection for the given dictionary form.
    pub fn new(dictionary: Full<'a>) -> (r: Self)
        ensures
            r.wf(),
            r.dictionary == dictionary,
            r.map() == Map::<Inflection, FragmentsView>::empty(),
    {
        let r = Self { dictionary, inflections: Vec::new() };
        assert(r.map() =~= Map::<Inflection, FragmentsView>::empty());
        r
    }

    /// Insert a word under the inflection made of the forms of `inflect`
    /// and `inflect2`, replacing any word stored under it.
    pub fn insert(&mut self, inflect: &[Form], inflect2: &[Form], word: Fragments<'a>)
        requires
            old(self).wf(),
            word.wf(),
        ensures
            final(self).wf(),
            final(self).dictionary == old(self).dictionary,
            final(self).map() == old(self).map().insert(
                inflection_of(inflect@).union(inflection_of(inflect2@)),
                word@,
            ),
    {
        let key = Inflection::new(inflect).bitor(Inflection::new(inflect2));
        self.insert_key(key, word);
    }

    /// Insert a word under the given inflection, replacing any word stored
    /// under it.
    pub fn insert_key(&mut self, key: Inflection, word: Fragments<'a>)
        requires
            old(self).wf(),
            word.wf(),
        ensures
            final(self).wf(),
            final(self).dictionary == old(self).dictionary,
            final(self).map() == old(self).map().insert(key, word@),
    {
        let ghost old_entries = self.entries();
        let raw = key.raw_value();
        let mut i: usize = 0;
        while i < self.inflections.len() && self.inflections[i].0.raw_value() < raw
            invariant
                i <= self.inflections@.len(),
                self.inflections@ == old_entries,
                forall|j: int| 0 <= j < i ==> (#[trigger] old_entries[j]).0.raw() < raw,
            decreases self.inflections@.len() - i,
        {
            i = i + 1;
        }
        let ghost v = word@;
        if i < self.inflections.len() && self.inflections[i].0.raw_value() == raw {
            proof {
                lemma_raw_injective(old_entries[i as int].0, key);
            }
            self.inflections.set(i, (key, word));
            proof {
                let e = self.entries();
                assert forall|a: int, b: int| 0 <= a < b < e.len() implies (#[trigger] e[a]).0.raw()
                    < (#[trigger] e[b]).0.raw() by {
                    assert(old_entries[a].0.raw() < old_entries[b].0.raw());
                }
                lemma_map_set(old_entries, i as int, key, word);
            }
        } else {
            self.inflections.insert(i, (key, word));
            proof {
                let e = self.entries();
                old_entries.insert_ensures(i as int, (key, word));
                assert forall|a: int, b: int| 0 <= a < b < e.len() implies (#[trigger] e[a]).0.raw()
                    < (#[trigger] e[b]).0.raw() by {
                    if b < i {
                        assert(old_entries[a].0.raw() < old_entries[b].0.raw());
                    } else if a < i && b == i {
                    } else if a < i && b > i {
                        assert(old_entries[a].0.raw() < old_entries[b - 1].0.raw());
                    } else if a == i {
                        if b - 1 > i {
                            assert(old_entries[i as int].0.raw() < old_entries[b - 1].0.raw());
                        }
                    } else {
                        assert(old_entries[a - 1].0.raw() < old_entries[b - 1].0.raw());
                    }
                }
                lemma_map_insert_at(old_entries, i as int, key, word);
            }
        }
    }

    /// Test if any polite inflections exist.
    pub fn has_polite(&self) -> (r: bool)
        ensures
            r == exists|k: Inflection|
                self.map().contains_key(k) && #[trigger] k.forms().contains(Form::Honorific),
    {
        let mut i: usize = 0;
        while i < self.inflections.len()
            invariant
                i <= self.entries().len(),
                self.inflections@ == self.entries(),
                forall|j: int|
                    0 <= j < i ==> !(#[trigger] self.entries()[j]).0.forms().contains(
                        Form::Honorific,
                    ),
            decreases self.entries().len() - i,
        {
            if self.inflections[i].0.contains(Form::Honorific) {
                proof {
                    let k = self.entries()[i as int].0;
                    assert(self.map().contains_key(k));
                }
                return true;
            }
            i = i + 1;
        }
        proof {
            assert forall|k: Inflection|
                self.map().contains_key(k) implies !#[trigger] k.forms().contains(
                Form::Honorific,
            ) by {
                let j = choose|j: int| 0 <= j < self.entries().len() && (#[trigger] self.entries()[j]).0 == k;
            }
        }
        false
    }

    /// The position of an inflection among the entries.
    fn position(&self, inflection: Inflection) -> (r: Option<usize>)
        requires
            ordered(self.entries()),
        ensures
            match r {
                Some(i) => i < self.entries().len() && self.entries()[i as int].0 == inflection,
                None => !self.map().contains_key(inflection),
            },
    {
        let raw = inflection.raw_value();
        let mut i: usize = 0;
        while i < self.inflections.len()
            invariant
                i <= self.entries().len(),
                self.inflections@ == self.entries(),
                raw == inflection.raw(),
                forall|j: int| 0 <= j < i ==> (#[trigger] self.entries()[j]).0 != inflection,
            decreases self.entries().len() - i,
        {
            let current = self.inflections[i].0;
            assert(current == self.entries()[i as int].0);
            if current.raw_value() == raw {
                proof {
                    lemma_raw_injective(current, inflection);
                }
                return Some(i);
            }
            i = i + 1;
        }
        None
    }

    /// Test if an inflection exists.
    pub fn contains(&self, inflection: Inflection) -> (r: bool)
        requires
            self.wf(),
        ensures
            r == self.map().contains_key(inflection),
    {
        match self.position(inflection) {
            Some(i) => {
                assert(self.map().contains_key(inflection));
                true
            },
            None => false,
        }
    }

    /// Get the word of an inflection.
    pub fn get(&self, inflection: Inflection) -> (r: Option<&Fragments<'a>>)
        requires
            self.wf(),
        ensures
            match r {
                Some(w) => self.map().contains_key(inflection) && w@ == self.map()[inflection]
                    && w.wf(),
                None => !self.map().contains_key(inflection),
            },
    {
        match self.position(inflection) {
            Some(i) => {
                proof {
                    lemma_map_at(self.entries(), i as int);
                }
                Some(&self.inflections[i].1)
            },
            None => None,
        }
    }

    /// All inflections with their words, ordered by inflection.
    pub fn iter(&self) -> (r: &[(Inflection, Fragments<'a>)])
        ensures
            r@ == self.entries(),
    {
        self.inflections.as_slice()
    }
}

/// The text, reading and suffix of an owned word.
pub open spec fn owned_view(w: OwnedFull) -> (Seq<char>, Seq<char>, Seq<char>) {
    (w.text@, w.reading@, w.suffix@)
}

/// The text, reading and suffix of a word, each made of its parts.
pub open spec fn joined(w: Fragments) -> (Seq<char>, Seq<char>, Seq<char>) {
    (w.text_concat().text(), w.reading_concat().text(), w.suffix_concat().text())
}

/// The owned variant of [`Inflections`].
pub struct OwnedInflections {
    pub dictionary: OwnedFull,
    pub inflections: Vec<(Inflection, OwnedFull)>,
}

/// `o` is an owned copy of `x`: the same dictionary form, and the same
/// inflections in the same order, each word with the text, reading and
/// suffix that its parts make.
pub open spec fn owns(o: OwnedInflections, x: Inflections) -> bool {
    &&& o.dictionary.text@ == x.dictionary.text@
    &&& o.dictionary.reading@ == x.dictionary.reading@
    &&& o.dictionary.suffix@ == x.dictionary.suffix@
    &&& o.inflections@.len() == x.entries().len()
    &&& forall|i: int|
        0 <= i < o.inflections@.len() ==> (#[trigger] o.inflections@[i]).0 == x.entries()[i].0
            && owned_view(o.inflections@[i].1) == joined(x.entries()[i].1)
}

/// `b` borrows `o`: the same dictionary form, and the same inflections in
/// the same order, each word made of the owned text, reading and suffix.
pub open spec fn borrows(b: Inflections, o: OwnedInflections) -> bool {
    &&& b.dictionary.text@ == o.dictionary.text@
    &&& b.dictionary.reading@ == o.dictionary.reading@
    &&& b.dictionary.suffix@ == o.dictionary.suffix@
    &&& b.entries().len() == o.inflections@.len()
    &&& forall|i: int|
        0 <= i < b.entries().len() ==> (#[trigger] b.entries()[i]).0 == o.inflections@[i].0
            && joined(b.entries()[i].1) == owned_view(o.inflections@[i].1)
}

/// Borrowing an owned copy gives back the same dictionary form and the same
/// inflections, in the same order, with the same texts.
pub proof fn lemma_owned_round_trip(x: Inflections, o: OwnedInflections, b: Inflections)
    requires
        owns(o, x),
        borrows(b, o),
    ensures
        b.dictionary.text@ == x.dictionary.text@,
        b.dictionary.reading@ == x.dictionary.reading@,
        b.dictionary.suffix@ == x.dictionary.suffix@,
        b.entries().len() == x.entries().len(),
        forall|i: int|
            0 <= i < b.entries().len() ==> (#[trigger] b.entries()[i]).0 == x.entries()[i].0
                && joined(b.entries()[i].1) == joined(x.entries()[i].1),
{
    assert forall|i: int| 0 <= i < b.entries().len() implies (#[trigger] b.entries()[i]).0
        == x.entries()[i].0 && joined(b.entries()[i].1) == joined(x.entries()[i].1) by {
        assert(o.inflections@[i].0 == x.entries()[i].0);
    }
}

impl OwnedInflections {
    /// The word of each inflection.
    pub open spec fn map(&self) -> Map<Inflection, (Seq<char>, Seq<char>, Seq<char>)> {
        Map::new(
            |k: Inflection|
                exists|i: int|
                    0 <= i < self.inflections@.len() && (#[trigger] self.inflections@[i]).0 == k,
            |k: Inflection|
                owned_view(
                    self.inflections@[choose|i: int|
                        0 <= i < self.inflections@.len() && (#[trigger] self.inflections@[i]).0
                            == k].1,
                ),
        )
    }

    /// The position of an inflection among the entries.
    fn position(&self, inflection: Inflection) -> (r: Option<usize>)
        requires
            ordered(self.inflections@),
        ensures
            match r {
                Some(i) => i < self.inflections@.len() && self.inflections@[i as int].0
                    == inflection,
                None => !self.map().contains_key(inflection),
            },
    {
        let raw = inflection.raw_value();
        let mut i: usize = 0;
        while i < self.inflections.len()
            invariant
                i <= self.inflections@.len(),
                raw == inflection.raw(),
                forall|j: int| 0 <= j < i ==> (#[trigger] self.inflections@[j]).0 != inflection,
            decreases self.inflections@.len() - i,
        {
            let current = self.inflections[i].0;
            if current.raw_value() == raw {
                proof {
                    lemma_raw_injective(current, inflection);
                }
                return Some(i);
            }
            i = i + 1;
        }
        None
    }

    /// Test if an inflection exists.
    pub fn contains(&self, inflection: Inflection) -> (r: bool)
        requires
            ordered(self.inflections@),
        ensures
            r == self.map().contains_key(inflection),
    {
        match self.position(inflection) {
            Some(i) => {
                assert(self.map().contains_key(inflection));
                true
            },
            None => false,
        }
    }

    /// Get the word of an inflection.
    pub fn get(&self, inflection: Inflection) -> (r: Option<&OwnedFull>)
        requires
            ordered(self.inflections@),
        ensures
            match r {
                Some(w) => self.map().contains_key(inflection) && owned_view(*w) == self.map()[inflection],
                None => !self.map().contains_key(inflection),
            },
    {
        match self.position(inflection) {
            Some(i) => {
                proof {
                    let k = inflection;
                    assert(self.map().contains_key(k));
                    let c = choose|c: int|
                        0 <= c < self.inflections@.len() && (#[trigger] self.inflections@[c]).0 == k;
                    if c != i {
                        if c < i {
                            assert(self.inflections@[c].0.raw() < self.inflections@[i as int].0.raw());
                        } else {
                            assert(self.inflections@[i as int].0.raw() < self.inflections@[c].0.raw());
                        }
                    }
                }
                Some(&self.inflections[i].1)
            },
            None => None,
        }
    }

    /// Borrow the owned inflections: each word as its text, reading and
    /// suffix, each a single part.
    pub fn borrow(&self) -> (r: Inflections<'_>)
        requires
            ordered(self.inflections@),
        ensures
            r.wf(),
            borrows(r, *self),
    {
        let mut out: Vec<(Inflection, Fragments<'_>)> = Vec::new();
        let mut i: usize = 0;
        while i < self.inflections.len()
            invariant
                i <= self.inflections@.len(),
                out@.len() == i,
                ordered(self.inflections@),
                forall|j: int|
                    0 <= j < i ==> (#[trigger] out@[j]).0 == self.inflections@[j].0 && joined(out@[j].1)
                        == owned_view(self.inflections@[j].1) && out@[j].1.wf(),
            decreases self.inflections@.len() - i,
        {
            let (key, value) = &self.inflections[i];
            let ts = value.text.as_str();
            let rs = value.reading.as_str();
            let ss = value.suffix.as_str();
            let t = [ts];
            let r = [rs];
            let s = [ss];
            proof {
                assert(t@ =~= seq![ts]);
                assert(r@ =~= seq![rs]);
                assert(s@ =~= seq![ss]);
                crate::concat::lemma_nonempty_parts_len(t@);
                crate::concat::lemma_nonempty_parts_len(r@);
                crate::concat::lemma_nonempty_parts_len(s@);
                lemma_concat_single(ts);
                lemma_concat_single(rs);
                lemma_concat_single(ss);
            }
            let w = Fragments::new(&t, &r, &s);
            out.push((*key, w));
            i = i + 1;
        }
        let r = Inflections {
            dictionary: Full::new(
                self.dictionary.text.as_str(),
                self.dictionary.reading.as_str(),
                self.dictionary.suffix.as_str(),
            ),
            inflections: out,
        };
        assert forall|a: int, b: int| 0 <= a < b < r.entries().len() implies (#[trigger] r.entries()[a]).0.raw()
            < (#[trigger] r.entries()[b]).0.raw() by {
            assert(self.inflections@[a].0.raw() < self.inflections@[b].0.raw());
        }
        r
    }
}

/// A single string, its empty parts left out, has the string's characters.
proof fn lemma_concat_single(a: &str)
    ensures
        concat_views(nonempty_parts(seq![a])) == a@,
        concat_views(seq![a]) == a@,
{
    let one = seq![a];
    let none = Seq::<&str>::empty();
    assert(one.drop_last() =~= none);
    assert(one.last() == a);
    assert(concat_views(one) =~= concat_views(none) + a@);
    assert(concat_views(none) + a@ =~= a@);
    if a@.len() > 0 {
        assert(nonempty_parts(one) =~= nonempty_parts(none).push(a));
        assert(nonempty_parts(none).push(a) =~= one);
    } else {
        assert(nonempty_parts(one) =~= nonempty_parts(none));
        assert(concat_views(nonempty_parts(none)) =~= a@);
    }
}

impl<'a> Inflections<'a> {
    /// An owned copy: each word as its text, reading and suffix.
    pub fn to_owned(&self) -> (r: OwnedInflections)
        ensures
            owns(r, *self),
            ordered(self.entries()) ==> ordered(r.inflections@),
    {
        let mut out: Vec<(Inflection, OwnedFull)> = Vec::new();
        let mut i: usize = 0;
        while i < self.inflections.len()
            invariant
                i <= self.entries().len(),
                self.inflections@ == self.entries(),
                out@.len() == i,
                forall|j: int|
                    0 <= j < i ==> (#[trigger] out@[j]).0 == self.entries()[j].0 && owned_view(out@[j].1)
                        == joined(self.entries()[j].1),
            decreases self.entries().len() - i,
        {
            let (key, value) = &self.inflections[i];
            let owned = OwnedFull {
                text: concat_strs(value.text().as_slice()),
                reading: concat_strs(value.reading().as_slice()),
                suffix: concat_strs(value.suffix().as_slice()),
            };
            out.push((*key, owned));
            i = i + 1;
        }
        let t = [self.dictionary.text];
        let r = [self.dictionary.reading];
        let s = [self.dictionary.suffix];
        proof {
            assert(t@ =~= seq![self.dictionary.text]);
            assert(r@ =~= seq![self.dictionary.reading]);
            assert(s@ =~= seq![self.dictionary.suffix]);
            lemma_concat_single(self.dictionary.text);
            lemma_concat_single(self.dictionary.reading);
            lemma_concat_single(self.dictionary.suffix);
        }
        OwnedInflections {
            dictionary: OwnedFull {
                text: concat_strs(&t),
                reading: concat_strs(&r),
                suffix: concat_strs(&s),
            },
            inflections: out,
        }
    }
}


/// The entry at a position of ordered entries is what the map holds for
/// its inflection.
pub proof fn lemma_map_at(entries: Seq<(Inflection, Fragments)>, i: int)
    requires
        ordered(entries),
        0 <= i < entries.len(),
    ensures
        entries_map(entries).contains_key(entries[i].0),
        entries_map(entries)[entries[i].0] == entries[i].1@,
{
    let k = entries[i].0;
    assert(entries_map(entries).contains_key(k));
    let c = choose|c: int| 0 <= c < entries.len() && (#[trigger] entries[c]).0 == k;
    if c != i {
        if c < i {
            assert(entries[c].0.raw() < entries[i].0.raw());
        } else {
            assert(entries[i].0.raw() < entries[c].0.raw());
        }
    }
}

proof fn lemma_map_set(
    old_entries: Seq<(Inflection, Fragments)>,
    i: int,
    key: Inflection,
    word: Fragments,
)
    requires
        ordered(old_entries),
        ordered(old_entries.update(i, (key, word))),
        0 <= i < old_entries.len(),
        old_entries[i].0 == key,
    ensures
        entries_map(old_entries.update(i, (key, word))) == entries_map(old_entries).insert(
            key,
            word@,
        ),
{
    let e = old_entries.update(i, (key, word));
    let m = entries_map(old_entries).insert(key, word@);
    assert forall|k: Inflection| #[trigger] entries_map(e).contains_key(k) == m.contains_key(k) by {
        if m.contains_key(k) && k != key {
            let j = choose|j: int| 0 <= j < old_entries.len() && (#[trigger] old_entries[j]).0 == k;
            assert(e[j].0 == k);
        }
        if k == key {
            assert(e[i].0 == k);
        }
        if entries_map(e).contains_key(k) {
            let j = choose|j: int| 0 <= j < e.len() && (#[trigger] e[j]).0 == k;
            if j != i {
                assert(old_entries[j].0 == k);
            }
        }
    }
    assert forall|k: Inflection| #[trigger] entries_map(e).contains_key(k) implies entries_map(e)[k]
        == m[k] by {
        let j = choose|j: int| 0 <= j < e.len() && (#[trigger] e[j]).0 == k;
        lemma_map_at(e, j);
        if j != i {
            assert(old_entries[j] == e[j]);
            lemma_map_at(old_entries, j);
        }
    }
    assert(entries_map(e) =~= m);
}

proof fn lemma_map_insert_at(
    old_entries: Seq<(Inflection, Fragments)>,
    i: int,
    key: Inflection,
    word: Fragments,
)
    requires
        ordered(old_entries),
        ordered(old_entries.insert(i, (key, word))),
        0 <= i <= old_entries.len(),
    ensures
        entries_map(old_entries.insert(i, (key, word))) == entries_map(old_entries).insert(
            key,
            word@,
        ),
{
    let e = old_entries.insert(i, (key, word));
    let m = entries_map(old_entries).insert(key, word@);
    old_entries.insert_ensures(i, (key, word));
    assert forall|j: int| i < j < e.len() implies #[trigger] e[j] == old_entries[j - 1] by {
        assert(e[(j - 1) + 1] == old_entries[j - 1]);
    }
    assert forall|k: Inflection| #[trigger] entries_map(e).contains_key(k) == m.contains_key(k) by {
        if m.contains_key(k) && k != key {
            let j = choose|j: int| 0 <= j < old_entries.len() && (#[trigger] old_entries[j]).0 == k;
            if j < i {
                assert(e[j].0 == k);
            } else {
                assert(e[j + 1].0 == k);
            }
        }
        if k == key {
            assert(e[i].0 == k);
        }
        if entries_map(e).contains_key(k) && k != key {
            let j = choose|j: int| 0 <= j < e.len() && (#[trigger] e[j]).0 == k;
            if j < i {
                assert(old_entries[j].0 == k);
            } else if j > i {
                assert(old_entries[j - 1].0 == k);
            }
        }
    }
    assert forall|k: Inflection| #[trigger] entries_map(e).contains_key(k) implies entries_map(e)[k]
        == m[k] by {
        let j = choose|j: int| 0 <= j < e.len() && (#[trigger] e[j]).0 == k;
        lemma_map_at(e, j);
        if j < i {
            assert(old_entries[j] == e[j]);
            lemma_map_at(old_entries, j);
        } else if j > i {
            assert(old_entries[j - 1] == e[j]);
            lemma_map_at(old_entries, j - 1);
        }
    }
    assert(entries_map(e) =~= m);
}

} // verus!
