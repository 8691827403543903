//! The spellings of an entry which can be conjugated: each kanji spelling
//! with each reading which applies to it, with the parts of speech of the
//! senses which apply to the pair.

use vstd::prelude::*;

use crate::entities::{lemma_pos_index, pos_at, pos_index, KanjiInfo, PartOfSpeech, ReadingInfo, POS_COUNT};
use crate::jmdict::elements::{contains_str, opt_view, sense_applies_to, Entry};

verus! {

/// A set of parts of speech, iterated in declaration order.
pub struct PosSet {
    present: Vec<bool>,
}

impl View for PosSet {
    type V = Set<PartOfSpeech>;

    closed spec fn view(&self) -> Set<PartOfSpeech> {
        Set::new(|p: PartOfSpeech| self.present@[pos_index(p)])
    }
}

/// The parts of speech of a set among the first `n` in declaration order,
/// in that order.
pub open spec fn pos_prefix(set: Set<PartOfSpeech>, n: int) -> Seq<PartOfSpeech>
    decreases n,
{
    if n <= 0 {
        Seq::empty()
    } else if set.contains(pos_at(n - 1)) {
        pos_prefix(set, n - 1).push(pos_at(n - 1))
    } else {
        pos_prefix(set, n - 1)
    }
}

/// The parts of speech of a set in declaration order.
pub open spec fn pos_sequence(set: Set<PartOfSpeech>) -> Seq<PartOfSpeech> {
    pos_prefix(set, POS_COUNT as int)
}

impl PosSet {
    #[verifier::type_invariant]
    spec fn one_flag_per_part(self) -> bool {
        self.present@.len() == POS_COUNT
    }

    /// The empty set.
    pub fn new() -> (r: PosSet)
        ensures
            r@ == Set::<PartOfSpeech>::empty(),
    {
        let mut present: Vec<bool> = Vec::new();
        let mut i: usize = 0;
        while i < POS_COUNT
            invariant
                i <= POS_COUNT,
                present@.len() == i,
                forall|j: int| 0 <= j < i ==> !present@[j],
            decreases POS_COUNT - i,
        {
            present.push(false);
            i = i + 1;
        }
        let r = PosSet { present };
        assert forall|p: PartOfSpeech| !r@.contains(p) by {
            lemma_pos_index(p, p);
        }
        assert(r@ =~= Set::<PartOfSpeech>::empty());
        r
    }

    /// Add a part of speech.
    pub fn insert(&mut self, p: PartOfSpeech)
        ensures
            final(self)@ == old(self)@.insert(p),
    {
        proof {
            use_type_invariant(&*self);
            lemma_pos_index(p, p);
        }
        let i = p.index();
        self.present = with_flag(&self.present, i);
        proof {
            assert forall|q: PartOfSpeech| #[trigger] self@.contains(q) == old(self)@.insert(p).contains(q) by {
                lemma_pos_index(q, p);
            }
            assert(self@ =~= old(self)@.insert(p));
        }
    }

    /// Test if a part of speech is in the set.
    pub fn contains(&self, p: PartOfSpeech) -> (r: bool)
        ensures
            r == self@.contains(p),
    {
        proof {
            use_type_invariant(self);
            lemma_pos_index(p, p);
        }
        self.present[p.index()]
    }

    /// The parts of speech of the set, in declaration order.
    pub fn iter(&self) -> (r: Vec<PartOfSpeech>)
        ensures
            r@ == pos_sequence(self@),
            forall|p: PartOfSpeech| r@.contains(p) <==> self@.contains(p),
            forall|i: int, j: int|
                0 <= i < j < r@.len() ==> pos_index(#[trigger] r@[i]) < pos_index(#[trigger] r@[j]),
    {
        proof {
            use_type_invariant(self);
        }
        let mut out: Vec<PartOfSpeech> = Vec::new();
        let mut i: usize = 0;
        while i < POS_COUNT
            invariant
                i <= POS_COUNT,
                self.present@.len() == POS_COUNT,
                out@ == pos_prefix(self@, i as int),
                forall|p: PartOfSpeech|
                    out@.contains(p) <==> (self@.contains(p) && pos_index(p) < i),
                forall|a: int, b: int|
                    0 <= a < b < out@.len() ==> pos_index(#[trigger] out@[a]) < pos_index(
                        #[trigger] out@[b],
                    ),
                forall|a: int| 0 <= a < out@.len() ==> pos_index(#[trigger] out@[a]) < i,
            decreases POS_COUNT - i,
        {
            let ghost before = out@;
            proof {
                let q = pos_at(i as int);
                lemma_pos_index(q, q);
                assert(self@.contains(q) == self.present@[i as int]);
            }
            if self.present[i] {
                let p = PartOfSpeech::from_index(i);
                out.push(p);
                proof {
                    assert forall|q: PartOfSpeech|
                        out@.contains(q) <==> (self@.contains(q) && pos_index(q) < i + 1) by {
                        lemma_pos_index(q, p);
                        if before.contains(q) {
                            let k = choose|k: int| 0 <= k < before.len() && before[k] == q;
                            assert(out@[k] == q);
                        }
                        if q == p {
                            assert(out@[before.len() as int] == q);
                        }
                        if out@.contains(q) {
                            let k = choose|k: int| 0 <= k < out@.len() && out@[k] == q;
                            if k < before.len() {
                                assert(before[k] == q);
                            }
                        }
                    }
                }
            } else {
                proof {
                    assert forall|q: PartOfSpeech|
                        out@.contains(q) <==> (self@.contains(q) && pos_index(q) < i + 1) by {
                        lemma_pos_index(q, q);
                    }
                }
            }
            i = i + 1;
        }
        proof {
            assert forall|p: PartOfSpeech| out@.contains(p) <==> self@.contains(p) by {
                lemma_pos_index(p, p);
            }
        }
        out
    }
}

/// A copy of the flags with the flag at `i` raised.
fn with_flag(flags: &Vec<bool>, i: usize) -> (r: Vec<bool>)
    requires
        i < flags@.len(),
    ensures
        r@ == flags@.update(i as int, true),
{
    let mut r: Vec<bool> = Vec::new();
    let mut j: usize = 0;
    while j < flags.len()
        invariant
            j <= flags@.len(),
            i < flags@.len(),
            r@ == flags@.update(i as int, true).subrange(0, j as int),
        decreases flags@.len() - j,
    {
        if j == i {
            r.push(true);
        } else {
            r.push(flags[j]);
        }
        assert(flags@.update(i as int, true).subrange(0, j + 1) =~= flags@.update(i as int, true).subrange(0, j as int).push(r@.last()));
        j = j + 1;
    }
    assert(flags@.update(i as int, true).subrange(0, flags@.len() as int) =~= flags@.update(i as int, true));
    r
}

/// The parts of speech of the senses of an entry which apply to a
/// spelling.
pub open spec fn pos_of(entry: Entry, kanji: Option<Seq<char>>, reading: Seq<char>) -> Set<
    PartOfSpeech,
> {
    Set::new(
        |p: PartOfSpeech|
            exists|i: int|
                0 <= i < entry.senses@.len() && sense_applies_to(
                    #[trigger] entry.senses@[i],
                    kanji,
                    reading,
                ) && entry.senses@[i].pos@.contains(p),
    )
}

/// A spelling of an entry: the kanji spelling (if any) and the reading,
/// each with its position, and the parts of speech that apply to it.
pub type PermutationView = (Option<(int, Seq<char>)>, (int, Seq<char>), Set<PartOfSpeech>);

/// The spelling which an element of the permutations stands for.
pub open spec fn permutation_view(e: (Option<(usize, &str)>, (usize, &str), PosSet)) -> PermutationView {
    (
        match e.0 {
            Some((i, k)) => Some((i as int, k@)),
            None => None,
        },
        (e.1.0 as int, e.1.1@),
        e.2@,
    )
}

/// The spellings of the reading at `ri` with the first `n` kanji spellings.
pub open spec fn kanji_permutations(entry: Entry, ri: int, n: int) -> Seq<PermutationView>
    decreases n,
{
    if n <= 0 {
        Seq::empty()
    } else {
        let prev = kanji_permutations(entry, ri, n - 1);
        let kanji = entry.kanji_elements@[n - 1];
        let reading = entry.reading_elements@[ri];
        if !kanji.info@.contains(KanjiInfo::SearchOnlyKanji) && !reading.no_kanji
            && !reading.info@.contains(ReadingInfo::SearchOnlyKana) && (
        reading.reading_string@.len() == 0 || contains_str(reading.reading_string@, kanji.text@)) {
            prev.push(
                (
                    Some((n - 1, kanji.text@)),
                    (ri, reading.text@),
                    pos_of(entry, Some(kanji.text@), reading.text@),
                ),
            )
        } else {
            prev
        }
    }
}

/// The spellings of the first `n` readings of an entry.
pub open spec fn reading_permutations_of(entry: Entry, n: int) -> Seq<PermutationView>
    decreases n,
{
    if n <= 0 {
        Seq::empty()
    } else {
        let prev = reading_permutations_of(entry, n - 1);
        let reading = entry.reading_elements@[n - 1];
        if reading.info@.contains(ReadingInfo::SearchOnlyKana) {
            prev
        } else if reading.no_kanji || entry.kanji_elements@.len() == 0 {
            prev.push((None, (n - 1, reading.text@), pos_of(entry, None, reading.text@)))
        } else {
            prev + kanji_permutations(entry, n - 1, entry.kanji_elements@.len() as int)
        }
    }
}

/// A spelling of an entry names a reading which is not search only, by its
/// position and text; with a kanji spelling, one which is not search only,
/// which the reading applies to, by its position and text; without one,
/// the reading has no kanji spelling or the entry has none.
pub open spec fn spelling_of(entry: Entry, p: PermutationView) -> bool {
    let ri = p.1.0;
    &&& 0 <= ri < entry.reading_elements@.len()
    &&& !entry.reading_elements@[ri].info@.contains(ReadingInfo::SearchOnlyKana)
    &&& p.1.1 == entry.reading_elements@[ri].text@
    &&& match p.0 {
        None => entry.reading_elements@[ri].no_kanji || entry.kanji_elements@.len() == 0,
        Some((ki, k)) => {
            &&& 0 <= ki < entry.kanji_elements@.len()
            &&& !entry.kanji_elements@[ki].info@.contains(KanjiInfo::SearchOnlyKanji)
            &&& !entry.reading_elements@[ri].no_kanji
            &&& (entry.reading_elements@[ri].reading_string@.len() == 0 || contains_str(
                entry.reading_elements@[ri].reading_string@,
                entry.kanji_elements@[ki].text@,
            ))
            &&& k == entry.kanji_elements@[ki].text@
        },
    }
    &&& p.2 == pos_of(
        entry,
        match p.0 {
            Some((_, k)) => Some(k),
            None => None,
        },
        p.1.1,
    )
}

/// The position of the kanji spelling of a spelling, -1 for none.
pub open spec fn kanji_position(p: PermutationView) -> int {
    match p.0 {
        Some((k, _)) => k,
        None => -1,
    }
}

/// Spellings ordered by the position of their reading, then by that of
/// their kanji spelling.
pub open spec fn spelling_before(a: PermutationView, b: PermutationView) -> bool {
    a.1.0 < b.1.0 || (a.1.0 == b.1.0 && kanji_position(a) < kanji_position(b))
}

proof fn lemma_kanji_permutations_shape(entry: Entry, ri: int, n: int)
    ensures
        forall|i: int|
            0 <= i < kanji_permutations(entry, ri, n).len() ==> (#[trigger] kanji_permutations(
                entry,
                ri,
                n,
            )[i]).1.0 == ri && 0 <= kanji_position(kanji_permutations(entry, ri, n)[i]) < n,
        forall|i: int, j: int|
            0 <= i < j < kanji_permutations(entry, ri, n).len() ==> kanji_position(
                #[trigger] kanji_permutations(entry, ri, n)[i],
            ) < kanji_position(#[trigger] kanji_permutations(entry, ri, n)[j]),
    decreases n,
{
    if n > 0 {
        lemma_kanji_permutations_shape(entry, ri, n - 1);
        let prev = kanji_permutations(entry, ri, n - 1);
        let all = kanji_permutations(entry, ri, n);
        assert forall|i: int| 0 <= i < all.len() implies (#[trigger] all[i]).1.0 == ri && 0
            <= kanji_position(all[i]) < n by {
            if i < prev.len() {
                assert(all[i] == prev[i]);
            }
        }
        assert forall|i: int, j: int| 0 <= i < j < all.len() implies kanji_position(#[trigger] all[i])
            < kanji_position(#[trigger] all[j]) by {
            assert(all[i] == prev[i]);
            if j < prev.len() {
                assert(all[j] == prev[j]);
            }
        }
    }
}

proof fn lemma_reading_permutations_order(entry: Entry, n: int)
    requires
        n <= entry.reading_elements@.len(),
    ensures
        forall|i: int|
            0 <= i < reading_permutations_of(entry, n).len() ==> 0 <= (
            #[trigger] reading_permutations_of(entry, n)[i]).1.0 < n,
        forall|i: int, j: int|
            0 <= i < j < reading_permutations_of(entry, n).len() ==> spelling_before(
                #[trigger] reading_permutations_of(entry, n)[i],
                #[trigger] reading_permutations_of(entry, n)[j],
            ),
    decreases n,
{
    if n > 0 {
        lemma_reading_permutations_order(entry, n - 1);
        let prev = reading_permutations_of(entry, n - 1);
        let all = reading_permutations_of(entry, n);
        let ks = kanji_permutations(entry, n - 1, entry.kanji_elements@.len() as int);
        lemma_kanji_permutations_shape(entry, n - 1, entry.kanji_elements@.len() as int);
        let reading = entry.reading_elements@[n - 1];
        let more: Seq<PermutationView> = if reading.info@.contains(ReadingInfo::SearchOnlyKana) {
            Seq::empty()
        } else if reading.no_kanji || entry.kanji_elements@.len() == 0 {
            seq![(None, (n - 1, reading.text@), pos_of(entry, None, reading.text@))]
        } else {
            ks
        };
        assert(all =~= prev + more);
        assert forall|i: int| 0 <= i < more.len() implies (#[trigger] more[i]).1.0 == n - 1 by {
            if !reading.info@.contains(ReadingInfo::SearchOnlyKana) && !(reading.no_kanji
                || entry.kanji_elements@.len() == 0) {
                assert(more[i] == ks[i]);
            }
        }
        assert forall|i: int, j: int| 0 <= i < j < more.len() implies spelling_before(
            #[trigger] more[i],
            #[trigger] more[j],
        ) by {
            assert(more[i] == ks[i]);
            assert(more[j] == ks[j]);
        }
        assert forall|i: int| 0 <= i < all.len() implies 0 <= (#[trigger] all[i]).1.0 < n by {
            if i < prev.len() {
                assert(all[i] == prev[i]);
            } else {
                assert(all[i] == more[i - prev.len()]);
            }
        }
        assert forall|i: int, j: int| 0 <= i < j < all.len() implies spelling_before(
            #[trigger] all[i],
            #[trigger] all[j],
        ) by {
            if j < prev.len() {
                assert(all[i] == prev[i]);
                assert(all[j] == prev[j]);
            } else if i < prev.len() {
                assert(all[i] == prev[i]);
                assert(all[j] == more[j - prev.len()]);
            } else {
                assert(all[i] == more[i - prev.len()]);
                assert(all[j] == more[j - prev.len()]);
            }
        }
    }
}

proof fn lemma_kanji_permutations_complete(entry: Entry, ri: int, n: int, p: PermutationView)
    requires
        spelling_of(entry, p),
        p.1.0 == ri,
        p.0 matches Some((ki, _)) && ki < n,
        n <= entry.kanji_elements@.len(),
    ensures
        kanji_permutations(entry, ri, n).contains(p),
    decreases n,
{
    let ki = kanji_position(p);
    let prev = kanji_permutations(entry, ri, n - 1);
    if ki == n - 1 {
        let all = kanji_permutations(entry, ri, n);
        assert(all.last() == p);
        assert(all[all.len() - 1] == p);
    } else {
        lemma_kanji_permutations_complete(entry, ri, n - 1, p);
        let i = choose|i: int| 0 <= i < prev.len() && prev[i] == p;
        let all = kanji_permutations(entry, ri, n);
        assert(all[i] == prev[i]);
    }
}

proof fn lemma_reading_permutations_complete(entry: Entry, n: int, p: PermutationView)
    requires
        spelling_of(entry, p),
        p.1.0 < n <= entry.reading_elements@.len(),
    ensures
        reading_permutations_of(entry, n).contains(p),
    decreases n,
{
    let prev = reading_permutations_of(entry, n - 1);
    let all = reading_permutations_of(entry, n);
    let reading = entry.reading_elements@[n - 1];
    if p.1.0 == n - 1 {
        if reading.no_kanji || entry.kanji_elements@.len() == 0 {
            assert(p.0 is None);
            assert(all.last() == p);
            assert(all[all.len() - 1] == p);
        } else {
            let ks = kanji_permutations(entry, n - 1, entry.kanji_elements@.len() as int);
            lemma_kanji_permutations_complete(entry, n - 1, entry.kanji_elements@.len() as int, p);
            let i = choose|i: int| 0 <= i < ks.len() && ks[i] == p;
            assert(all == prev + ks);
            assert(all[prev.len() + i] == ks[i]);
        }
    } else {
        lemma_reading_permutations_complete(entry, n - 1, p);
        let i = choose|i: int| 0 <= i < prev.len() && prev[i] == p;
        if reading.info@.contains(ReadingInfo::SearchOnlyKana) {
        } else if reading.no_kanji || entry.kanji_elements@.len() == 0 {
            assert(all[i] == prev[i]);
        } else {
            let ks = kanji_permutations(entry, n - 1, entry.kanji_elements@.len() as int);
            assert(all == prev + ks);
            assert(all[i] == prev[i]);
        }
    }
}

/// The permutations of an entry are exactly its spellings, each once, in
/// the order of their readings and, for one reading, of their kanji
/// spellings.
pub proof fn lemma_permutations_exact(entry: Entry)
    ensures
        ({
            let ps = reading_permutations_of(entry, entry.reading_elements@.len() as int);
            &&& forall|p: PermutationView| #[trigger] ps.contains(p) <==> spelling_of(entry, p)
            &&& forall|i: int, j: int|
                0 <= i < j < ps.len() ==> spelling_before(#[trigger] ps[i], #[trigger] ps[j])
        }),
{
    let n = entry.reading_elements@.len() as int;
    let ps = reading_permutations_of(entry, n);
    lemma_permutations_spellings(entry, n);
    lemma_reading_permutations_order(entry, n);
    assert forall|p: PermutationView| #[trigger] ps.contains(p) <==> spelling_of(entry, p) by {
        if spelling_of(entry, p) {
            lemma_reading_permutations_complete(entry, n, p);
        }
        if ps.contains(p) {
            let i = choose|i: int| 0 <= i < ps.len() && ps[i] == p;
            assert(spelling_of(entry, ps[i]));
        }
    }
}

proof fn lemma_kanji_permutations_spellings(entry: Entry, ri: int, n: int)
    requires
        0 <= ri < entry.reading_elements@.len(),
        !entry.reading_elements@[ri].info@.contains(ReadingInfo::SearchOnlyKana),
        n <= entry.kanji_elements@.len(),
    ensures
        forall|i: int|
            0 <= i < kanji_permutations(entry, ri, n).len() ==> spelling_of(
                entry,
                #[trigger] kanji_permutations(entry, ri, n)[i],
            ),
    decreases n,
{
    if n > 0 {
        lemma_kanji_permutations_spellings(entry, ri, n - 1);
        let prev = kanji_permutations(entry, ri, n - 1);
        let all = kanji_permutations(entry, ri, n);
        assert forall|i: int| 0 <= i < all.len() implies spelling_of(entry, #[trigger] all[i]) by {
            if i < prev.len() {
                assert(all[i] == prev[i]);
            }
        }
    }
}

/// Every spelling of an entry's permutations is one of its spellings.
pub proof fn lemma_permutations_spellings(entry: Entry, n: int)
    requires
        n <= entry.reading_elements@.len(),
    ensures
        forall|i: int|
            0 <= i < reading_permutations_of(entry, n).len() ==> spelling_of(
                entry,
                #[trigger] reading_permutations_of(entry, n)[i],
            ),
    decreases n,
{
    if n > 0 {
        lemma_permutations_spellings(entry, n - 1);
        let prev = reading_permutations_of(entry, n - 1);
        let reading = entry.reading_elements@[n - 1];
        if !reading.info@.contains(ReadingInfo::SearchOnlyKana) && !(reading.no_kanji
            || entry.kanji_elements@.len() == 0) {
            let ks = kanji_permutations(entry, n - 1, entry.kanji_elements@.len() as int);
            lemma_kanji_permutations_spellings(entry, n - 1, entry.kanji_elements@.len() as int);
            assert forall|i: int| 0 <= i < (prev + ks).len() implies spelling_of(
                entry,
                #[trigger] (prev + ks)[i],
            ) by {
                if i < prev.len() {
                    assert((prev + ks)[i] == prev[i]);
                } else {
                    assert((prev + ks)[i] == ks[i - prev.len()]);
                }
            }
        }
    }
}

/// The parts of speech of the senses of an entry which apply to a
/// spelling.
fn build_pos(entry: &Entry, kanji: Option<&str>, reading: &str) -> (r: PosSet)
    ensures
        r@ == pos_of(*entry, opt_view(kanji), reading@),
{
    let mut pos = PosSet::new();
    let mut i: usize = 0;
    while i < entry.senses.len()
        invariant
            i <= entry.senses@.len(),
            pos@ == Set::new(
                |p: PartOfSpeech|
                    exists|j: int|
                        0 <= j < i && sense_applies_to(
                            #[trigger] entry.senses@[j],
                            opt_view(kanji),
                            reading@,
                        ) && entry.senses@[j].pos@.contains(p),
            ),
        decreases entry.senses@.len() - i,
    {
        let sense = &entry.senses[i];
        let ghost before = pos@;
        if sense.applies_to(kanji, reading) {
            let mut k: usize = 0;
            while k < sense.pos.len()
                invariant
                    k <= sense.pos@.len(),
                    *sense == entry.senses@[i as int],
                    sense_applies_to(*sense, opt_view(kanji), reading@),
                    pos@ == before.union(Set::new(|p: PartOfSpeech| sense.pos@.subrange(0, k as int).contains(p))),
                decreases sense.pos@.len() - k,
            {
                let ghost inner = pos@;
                pos.insert(sense.pos[k]);
                proof {
                    let lo = sense.pos@.subrange(0, k as int);
                    let hi = sense.pos@.subrange(0, k + 1);
                    assert(hi =~= lo.push(sense.pos@[k as int]));
                    assert forall|p: PartOfSpeech| #[trigger] hi.contains(p)
                        == (lo.contains(p) || p == sense.pos@[k as int]) by {
                        if hi.contains(p) {
                            let c = choose|c: int| 0 <= c < hi.len() && #[trigger] hi[c] == p;
                            if c < k {
                                assert(lo[c] == p);
                            }
                        }
                        if lo.contains(p) {
                            let c = choose|c: int| 0 <= c < lo.len() && #[trigger] lo[c] == p;
                            assert(hi[c] == p);
                        }
                        if p == sense.pos@[k as int] {
                            assert(hi[k as int] == p);
                        }
                    }
                    assert(pos@ =~= before.union(Set::new(|p: PartOfSpeech| hi.contains(p))));
                }
                k = k + 1;
            }
            proof {
                assert(sense.pos@.subrange(0, sense.pos@.len() as int) =~= sense.pos@);
                assert(pos@ =~= Set::new(
                    |p: PartOfSpeech|
                        exists|j: int|
                            0 <= j < i + 1 && sense_applies_to(
                                #[trigger] entry.senses@[j],
                                opt_view(kanji),
                                reading@,
                            ) && entry.senses@[j].pos@.contains(p),
                )) by {
                    assert forall|p: PartOfSpeech| pos@.contains(p) implies exists|j: int|
                        0 <= j < i + 1 && sense_applies_to(
                            #[trigger] entry.senses@[j],
                            opt_view(kanji),
                            reading@,
                        ) && entry.senses@[j].pos@.contains(p) by {
                        if !before.contains(p) {
                            assert(sense_applies_to(entry.senses@[i as int], opt_view(kanji), reading@));
                        }
                    }
                }
            }
        } else {
            proof {
                assert(pos@ =~= Set::new(
                    |p: PartOfSpeech|
                        exists|j: int|
                            0 <= j < i + 1 && sense_applies_to(
                                #[trigger] entry.senses@[j],
                                opt_view(kanji),
                                reading@,
                            ) && entry.senses@[j].pos@.contains(p),
                )) by {
                    assert forall|p: PartOfSpeech| (exists|j: int|
                        0 <= j < i + 1 && sense_applies_to(
                            #[trigger] entry.senses@[j],
                            opt_view(kanji),
                            reading@,
                        ) && entry.senses@[j].pos@.contains(p)) implies pos@.contains(p) by {
                        let j = choose|j: int|
                            0 <= j < i + 1 && sense_applies_to(
                                #[trigger] entry.senses@[j],
                                opt_view(kanji),
                                reading@,
                            ) && entry.senses@[j].pos@.contains(p);
                        assert(j != i);
                    }
                }
            }
        }
        i = i + 1;
    }
    pos
}

/// Get all reading permutations: each reading which is not search-only,
/// alone where it takes no kanji, else with each kanji spelling it applies
/// to, along with the parts of speech of the senses which apply.
pub fn reading_permutations<'a>(entry: &Entry<'a>) -> (r: Vec<
    (Option<(usize, &'a str)>, (usize, &'a str), PosSet),
>)
    ensures
        r@.map_values(|e: (Option<(usize, &'a str)>, (usize, &'a str), PosSet)| permutation_view(e))
            == reading_permutations_of(*entry, entry.reading_elements@.len() as int),
{
    let mut readings: Vec<(Option<(usize, &'a str)>, (usize, &'a str), PosSet)> = Vec::new();
    let mut ri: usize = 0;
    while ri < entry.reading_elements.len()
        invariant
            ri <= entry.reading_elements@.len(),
            readings@.map_values(
                |e: (Option<(usize, &'a str)>, (usize, &'a str), PosSet)| permutation_view(e),
            ) == reading_permutations_of(*entry, ri as int),
        decreases entry.reading_elements@.len() - ri,
    {
        let reading = &entry.reading_elements[ri];
        let ghost before = readings@;
        if reading.is_search_only() {
        } else if reading.no_kanji || entry.kanji_elements.len() == 0 {
            let pos = build_pos(entry, None, reading.text);
            readings.push((None, (ri, reading.text), pos));
            proof {
                assert(readings@.map_values(
                    |e: (Option<(usize, &'a str)>, (usize, &'a str), PosSet)| permutation_view(e),
                ) =~= before.map_values(
                    |e: (Option<(usize, &'a str)>, (usize, &'a str), PosSet)| permutation_view(e),
                ).push(permutation_view(readings@.last())));
            }
        } else {
            let mut ki: usize = 0;
            while ki < entry.kanji_elements.len()
                invariant
                    ri < entry.reading_elements@.len(),
                    *reading == entry.reading_elements@[ri as int],
                    !reading.info@.contains(ReadingInfo::SearchOnlyKana),
                    !reading.no_kanji,
                    entry.kanji_elements@.len() > 0,
                    ki <= entry.kanji_elements@.len(),
                    readings@.map_values(
                        |e: (Option<(usize, &'a str)>, (usize, &'a str), PosSet)| permutation_view(e),
                    ) == reading_permutations_of(*entry, ri as int) + kanji_permutations(
                        *entry,
                        ri as int,
                        ki as int,
                    ),
                decreases entry.kanji_elements@.len() - ki,
            {
                let kanji = &entry.kanji_elements[ki];
                let ghost inner = readings@;
                if !kanji.is_search_only() && reading.applies_to(kanji.text) {
                    let pos = build_pos(entry, Some(kanji.text), reading.text);
                    readings.push((Some((ki, kanji.text)), (ri, reading.text), pos));
                    proof {
                        assert(readings@.map_values(
                            |e: (Option<(usize, &'a str)>, (usize, &'a str), PosSet)| permutation_view(e),
                        ) =~= inner.map_values(
                            |e: (Option<(usize, &'a str)>, (usize, &'a str), PosSet)| permutation_view(e),
                        ).push(permutation_view(readings@.last())));
                    }
                }
                ki = ki + 1;
            }
        }
        ri = ri + 1;
    }
    readings
}

} // verus!
