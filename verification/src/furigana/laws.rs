//! Laws of the furigana analysis.

use vstd::prelude::*;

use super::align::{lemma_positions_well_placed, occurs_at, positions, well_placed};
use super::emit::{emit_from, furigana_groups, starts_with, GroupView};

verus! {

/// The kanji text of a group: the kanji of a kanji group, the kana of a
/// kana group.
pub open spec fn kanji_side(g: GroupView) -> Seq<char> {
    match g {
        GroupView::Kanji(k, _) => k,
        GroupView::Kana(k) => k,
    }
}

/// The reading of a group: the reading of a kanji group, the kana of a kana
/// group.
pub open spec fn reading_side(g: GroupView) -> Seq<char> {
    match g {
        GroupView::Kanji(_, r) => r,
        GroupView::Kana(k) => k,
    }
}

/// The concatenated kanji text of a sequence of groups.
pub open spec fn kanji_text(gs: Seq<GroupView>) -> Seq<char>
    decreases gs.len(),
{
    if gs.len() == 0 {
        Seq::empty()
    } else {
        kanji_side(gs[0]) + kanji_text(gs.drop_first())
    }
}

/// The concatenated reading of a sequence of groups.
pub open spec fn reading_text(gs: Seq<GroupView>) -> Seq<char>
    decreases gs.len(),
{
    if gs.len() == 0 {
        Seq::empty()
    } else {
        reading_side(gs[0]) + reading_text(gs.drop_first())
    }
}

proof fn lemma_text_concat(a: Seq<GroupView>, b: Seq<GroupView>)
    ensures
        kanji_text(a + b) == kanji_text(a) + kanji_text(b),
        reading_text(a + b) == reading_text(a) + reading_text(b),
    decreases a.len(),
{
    if a.len() == 0 {
        assert(a + b =~= b);
    } else {
        lemma_text_concat(a.drop_first(), b);
        assert((a + b).drop_first() =~= a.drop_first() + b);
        assert((a + b)[0] == a[0]);
    }
}

/// The kanji position where the group `q[j]` starts to look for its text.
pub open spec fn prev_k(q: Seq<(int, int, int)>, j: int) -> int {
    if j == 0 {
        0
    } else {
        q[j - 1].1
    }
}

/// The reading position where the group `q[j]` starts to look for its text.
pub open spec fn prev_r(q: Seq<(int, int, int)>, j: int) -> int {
    if j == 0 {
        0
    } else {
        q[j - 1].2 + (q[j - 1].1 - q[j - 1].0)
    }
}

/// Every kana group which the analysis takes to directly follow the text
/// covered so far (in the kanji) also directly follows it in the reading,
/// and when the kanji is covered up to its end, so is the reading.
pub open spec fn aligned(kanji: Seq<char>, reading: Seq<char>) -> bool {
    let q = positions(kanji, reading).reverse();
    &&& forall|j: int|
        0 <= j < q.len() && #[trigger] starts_with(
            kanji.skip(prev_k(q, j)),
            kanji.subrange(q[j].0, q[j].1),
        ) ==> q[j].0 == prev_k(q, j) && q[j].2 == prev_r(q, j)
    &&& prev_k(q, q.len() as int) == kanji.len() ==> prev_r(q, q.len() as int) == reading.len()
}

proof fn lemma_emit(
    kanji: Seq<char>,
    reading: Seq<char>,
    suffix: Seq<char>,
    q: Seq<(int, int, int)>,
    j: int,
)
    requires
        0 <= j <= q.len(),
        well_placed(kanji, reading, q.reverse()),
        forall|i: int|
            j <= i < q.len() && #[trigger] starts_with(
                kanji.skip(prev_k(q, i)),
                kanji.subrange(q[i].0, q[i].1),
            ) ==> q[i].0 == prev_k(q, i) && q[i].2 == prev_r(q, i),
        prev_k(q, q.len() as int) == kanji.len() ==> prev_r(q, q.len() as int) == reading.len(),
        prev_k(q, j) <= kanji.len(),
        prev_r(q, j) <= reading.len(),
        j < q.len() ==> prev_k(q, j) <= q[j].0 && prev_r(q, j) <= q[j].2,
    ensures
        ({
            let out = emit_from(kanji, reading, suffix, q, j, prev_k(q, j), prev_r(q, j));
            &&& kanji_text(out) == kanji.subrange(prev_k(q, j), kanji.len() as int) + suffix
            &&& reading_text(out) == reading.subrange(prev_r(q, j), reading.len() as int) + suffix
        }),
    decreases q.len() - j,
{
    let k = prev_k(q, j);
    let r = prev_r(q, j);
    let n = q.len();
    let p = q.reverse();
    let out = emit_from(kanji, reading, suffix, q, j, k, r);
    if j == n {
        let a: Seq<GroupView> = if k < kanji.len() {
            seq![
                GroupView::Kanji(
                    kanji.subrange(k, kanji.len() as int),
                    reading.subrange(r, reading.len() as int),
                ),
            ]
        } else {
            Seq::empty()
        };
        let b: Seq<GroupView> = if suffix.len() > 0 {
            seq![GroupView::Kana(suffix)]
        } else {
            Seq::empty()
        };
        assert(out == a + b);
        lemma_text_concat(a, b);
        let empty = Seq::<GroupView>::empty();
        assert(kanji_text(empty) =~= Seq::<char>::empty());
        assert(reading_text(empty) =~= Seq::<char>::empty());
        if k < kanji.len() {
            assert(a.drop_first() =~= empty);
            assert(kanji_text(a) =~= kanji.subrange(k, kanji.len() as int));
            assert(reading_text(a) =~= reading.subrange(r, reading.len() as int));
        } else {
            assert(kanji.subrange(k, kanji.len() as int) =~= Seq::<char>::empty());
            assert(reading.subrange(r, reading.len() as int) =~= Seq::<char>::empty());
            assert(kanji_text(a) =~= kanji.subrange(k, kanji.len() as int));
            assert(reading_text(a) =~= reading.subrange(r, reading.len() as int));
        }
        if suffix.len() > 0 {
            assert(b.drop_first() =~= empty);
            assert(kanji_text(b) =~= suffix);
            assert(reading_text(b) =~= suffix);
        } else {
            assert(suffix =~= Seq::<char>::empty());
            assert(kanji_text(b) =~= suffix);
            assert(reading_text(b) =~= suffix);
        }
    } else {
        let s = q[j].0;
        let e = q[j].1;
        let at = q[j].2;
        let kana = kanji.subrange(s, e);
        assert(q[j] == p[n - 1 - j]);
        assert(0 <= p[n - 1 - j].0 < p[n - 1 - j].1 <= kanji.len());
        assert(occurs_at(reading, kana, at, reading.len() as int));
        if j + 1 < n {
            assert(q[j + 1] == p[n - 2 - j]);
            assert(p[(n - 2 - j) + 1] == p[n - 1 - j]);
        }
        assert(prev_k(q, j + 1) == e);
        assert(prev_r(q, j + 1) == at + (e - s));
        lemma_emit(kanji, reading, suffix, q, j + 1);
        let rest = emit_from(kanji, reading, suffix, q, j + 1, e, at + (e - s));
        let head: Seq<GroupView> = if starts_with(kanji.skip(k), kana) {
            seq![GroupView::Kana(kana)]
        } else {
            seq![GroupView::Kanji(kanji.subrange(k, s), reading.subrange(r, at)), GroupView::Kana(kana)]
        };
        assert(out == head + rest);
        lemma_text_concat(head, rest);
        let empty = Seq::<GroupView>::empty();
        assert(kanji_text(empty) =~= Seq::<char>::empty());
        assert(reading_text(empty) =~= Seq::<char>::empty());
        if starts_with(kanji.skip(k), kana) {
            assert(head.drop_first() =~= empty);
            assert(kanji_text(head) =~= kana);
            assert(reading_text(head) =~= kana);
        } else {
            let tail = head.drop_first();
            assert(tail.drop_first() =~= empty);
            assert(tail[0] == GroupView::Kana(kana));
            assert(kanji_text(tail) =~= kana);
            assert(reading_text(tail) =~= kana);
            assert(kanji_text(head) =~= kanji.subrange(k, s) + kana);
            assert(reading_text(head) =~= reading.subrange(r, at) + kana);
        }
        assert(kanji.subrange(k, kanji.len() as int) =~= kanji.subrange(k, s) + kana + kanji.subrange(
            e,
            kanji.len() as int,
        ));
        assert(reading.subrange(at, at + (e - s)) == kana);
        assert(reading.subrange(r, reading.len() as int) =~= reading.subrange(r, at) + kana
            + reading.subrange(at + (e - s), reading.len() as int));
    }
}

/// Furigana lose nothing: whenever the analysis is aligned, the groups spell
/// out the kanji followed by the suffix, and read as the reading followed by
/// the suffix.
pub proof fn lemma_furigana_reconstructs(kanji: Seq<char>, reading: Seq<char>, suffix: Seq<char>)
    requires
        aligned(kanji, reading),
    ensures
        kanji_text(furigana_groups(kanji, reading, suffix)) == kanji + suffix,
        reading_text(furigana_groups(kanji, reading, suffix)) == reading + suffix,
{
    lemma_positions_well_placed(kanji, reading);
    let p = positions(kanji, reading);
    let q = p.reverse();
    assert(q.reverse() =~= p);
    if q.len() > 0 {
        assert(q[0] == p[q.len() - 1]);
        assert(0 <= p[q.len() - 1].0);
        assert(0 <= p[q.len() - 1].2);
    }
    lemma_emit(kanji, reading, suffix, q, 0);
    assert(kanji.subrange(0, kanji.len() as int) =~= kanji);
    assert(reading.subrange(0, reading.len() as int) =~= reading);
}

} // verus!
