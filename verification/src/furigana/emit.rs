//! Producing furigana groups from the placed kana groups.

use vstd::prelude::*;
use vstd::string::*;

use super::align::{lemma_positions_well_placed, positions, reverse_find, well_placed, widen_triples};
use crate::text::to_chars;

verus! {

/// A single furigana group.
#[derive(Debug, Clone, Copy, PartialEq, Eq)]
pub enum FuriganaGroup<'a> {
    /// Kanji with associated kana, such as `私[わたし]`.
    Kanji(&'a str, &'a str),
    /// Literal kana, such as `する`.
    Kana(&'a str),
}

/// The mathematical content of a furigana group.
pub enum GroupView {
    Kanji(Seq<char>, Seq<char>),
    Kana(Seq<char>),
}

impl<'a> View for FuriganaGroup<'a> {
    type V = GroupView;

    open spec fn view(&self) -> GroupView {
        match *self {
            FuriganaGroup::Kanji(k, r) => GroupView::Kanji(k@, r@),
            FuriganaGroup::Kana(k) => GroupView::Kana(k@),
        }
    }
}

/// The views of a sequence of furigana groups.
pub open spec fn group_views<'a>(v: Seq<FuriganaGroup<'a>>) -> Seq<GroupView> {
    v.map_values(|g: FuriganaGroup<'a>| g@)
}

/// `a` starts with `b`.
pub open spec fn starts_with(a: Seq<char>, b: Seq<char>) -> bool {
    b.len() <= a.len() && a.take(b.len() as int) == b
}

/// Emit the furigana groups for the placed kana groups `q[j..]` (in order of
/// appearance), where `k` and `r` are the positions in the kanji and the
/// reading which have not been covered yet.
pub open spec fn emit_from(
    kanji: Seq<char>,
    reading: Seq<char>,
    suffix: Seq<char>,
    q: Seq<(int, int, int)>,
    j: int,
    k: int,
    r: int,
) -> Seq<GroupView>
    decreases q.len() - j,
{
    if j < 0 || j >= q.len() {
        (if k < kanji.len() {
            seq![
                GroupView::Kanji(
                    kanji.subrange(k, kanji.len() as int),
                    reading.subrange(r, reading.len() as int),
                ),
            ]
        } else {
            Seq::empty()
        }) + (if suffix.len() > 0 {
            seq![GroupView::Kana(suffix)]
        } else {
            Seq::empty()
        })
    } else {
        let s = q[j].0;
        let e = q[j].1;
        let at = q[j].2;
        let kana = kanji.subrange(s, e);
        let head = if starts_with(kanji.skip(k), kana) {
            seq![GroupView::Kana(kana)]
        } else {
            seq![GroupView::Kanji(kanji.subrange(k, s), reading.subrange(r, at)), GroupView::Kana(kana)]
        };
        head + emit_from(kanji, reading, suffix, q, j + 1, e, at + (e - s))
    }
}

/// The furigana groups of a kanji spelling with the given reading, followed
/// by a common kana suffix.
pub open spec fn furigana_groups(kanji: Seq<char>, reading: Seq<char>, suffix: Seq<char>) -> Seq<
    GroupView,
> {
    emit_from(kanji, reading, suffix, positions(kanji, reading).reverse(), 0, 0, 0)
}

/// Analyze the given inputs as furigana.
pub fn furigana<'a>(kanji: &'a str, reading: &'a str, suffix: &'a str) -> (r: Vec<
    FuriganaGroup<'a>,
>)
    ensures
        group_views(r@) == furigana_groups(kanji@, reading@, suffix@),
{
    let kc = to_chars(kanji);
    let rc = to_chars(reading);
    let pos = reverse_find(&kc, &rc);
    proof {
        lemma_positions_well_placed(kanji@, reading@);
    }
    let ghost p = positions(kanji@, reading@);
    let ghost q = p.reverse();
    let n = pos.len();
    let kn = kc.len();
    let rn = rc.len();
    let mut j = n;
    let mut k: usize = 0;
    let mut r: usize = 0;
    let mut out: Vec<FuriganaGroup<'a>> = Vec::new();
    while j > 0
        invariant
            kc@ == kanji@,
            rc@ == reading@,
            kn == kc@.len(),
            rn == rc@.len(),
            widen_triples(pos@) == p,
            p == positions(kanji@, reading@),
            q == p.reverse(),
            well_placed(kanji@, reading@, p),
            n == pos@.len(),
            j <= n,
            k <= kanji@.len(),
            r <= reading@.len(),
            j > 0 ==> k <= p[j - 1].0 && r <= p[j - 1].2,
            group_views(out@) + emit_from(
                kanji@,
                reading@,
                suffix@,
                q,
                n - j,
                k as int,
                r as int,
            ) == furigana_groups(kanji@, reading@, suffix@),
        decreases j,
    {
        let (s, e, at) = pos[j - 1];
        assert(widen_triples(pos@)[j - 1] == (s as int, e as int, at as int));
        assert(q[n - j] == p[j - 1]);
        let ghost kana_v = kanji@.subrange(s as int, e as int);
        let kana = kanji.substring_char(s, e);
        let len = e - s;
        let mut sw = len <= kc.len() - k;
        assert(0 <= p[j - 1].0 < p[j - 1].1 <= kanji@.len());
        assert(crate::furigana::occurs_at(reading@, kana_v, at as int, reading@.len() as int));
        if sw {
            assert(kanji@.subrange(k as int, k as int) =~= kanji@.subrange(s as int, s as int));
            let mut t: usize = 0;
            while t < len
                invariant
                    kc@ == kanji@,
                    kn == kc@.len(),
                    s < e <= kc@.len(),
                    len == e - s,
                    k + len <= kc@.len(),
                    t <= len,
                    sw == (kanji@.subrange(k as int, k + t) == kanji@.subrange(s as int, s + t)),
                decreases len - t,
            {
                if kc[k + t] != kc[s + t] {
                    assert(kanji@.subrange(k as int, k + t + 1)[t as int] != kanji@.subrange(
                        s as int,
                        s + t + 1,
                    )[t as int]);
                    sw = false;
                } else if sw {
                    assert(kanji@.subrange(k as int, k + t + 1) =~= kanji@.subrange(k as int, k + t).push(
                        kanji@[k + t],
                    ));
                    assert(kanji@.subrange(s as int, s + t + 1) =~= kanji@.subrange(s as int, s + t).push(
                        kanji@[s + t],
                    ));
                } else {
                    assert(kanji@.subrange(k as int, k + t) != kanji@.subrange(s as int, s + t));
                    assert(kanji@.subrange(k as int, k + t + 1).take(t as int) =~= kanji@.subrange(k as int, k + t));
                    assert(kanji@.subrange(s as int, s + t + 1).take(t as int) =~= kanji@.subrange(s as int, s + t));
                }
                t = t + 1;
            }
            assert(kanji@.skip(k as int).take(len as int) =~= kanji@.subrange(k as int, k + len));
        }
        assert(sw == starts_with(kanji@.skip(k as int), kana_v));
        let ghost head = if sw {
            seq![GroupView::Kana(kana_v)]
        } else {
            seq![
                GroupView::Kanji(
                    kanji@.subrange(k as int, s as int),
                    reading@.subrange(r as int, at as int),
                ),
                GroupView::Kana(kana_v),
            ]
        };
        let ghost old_out = group_views(out@);
        if sw {
            out.push(FuriganaGroup::Kana(kana));
        } else {
            let kp = kanji.substring_char(k, s);
            let rp = reading.substring_char(r, at);
            out.push(FuriganaGroup::Kanji(kp, rp));
            out.push(FuriganaGroup::Kana(kana));
        }
        assert(group_views(out@) =~= old_out + head);
        k = e;
        r = at + len;
        j = j - 1;
        if j > 0 {
            assert(p[(j - 1) + 1] == p[j as int]);
        }
    }
    let ghost before = group_views(out@);
    if k < kc.len() {
        let kp = kanji.substring_char(k, kc.len());
        let rp = reading.substring_char(r, rc.len());
        out.push(FuriganaGroup::Kanji(kp, rp));
    }
    let ghost mid = group_views(out@);
    if suffix.unicode_len() > 0 {
        out.push(FuriganaGroup::Kana(suffix));
    }
    assert(group_views(out@) =~= before + emit_from(
        kanji@,
        reading@,
        suffix@,
        q,
        n as int,
        k as int,
        r as int,
    ));
    out
}

} // verus!
