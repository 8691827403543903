//! Partitioning a string into its runs of kana.

use vstd::prelude::*;
use vstd::string::*;

use core::ops::Range;

use crate::kana::{is_hiragana, is_katakana, spec_is_kana};
use crate::text::{to_chars, utf8_width, byte_offset, char_len_utf8};

verus! {

/// Test if a character is kana (hiragana or katakana).
pub fn is_kana(c: char) -> (r: bool)
    ensures
        r == spec_is_kana(c),
{
    is_hiragana(c) || is_katakana(c)
}

/// The runs of kana found while scanning `s[..i]` backwards, where `e` is the
/// end of a run whose start has not been reached yet.
pub open spec fn runs_from(s: Seq<char>, i: int, e: Option<int>) -> Seq<(int, int)>
    decreases i,
{
    if i <= 0 {
        match e {
            Some(x) => seq![(0int, x)],
            None => Seq::empty(),
        }
    } else if spec_is_kana(s[i - 1]) {
        runs_from(
            s,
            i - 1,
            if e is None {
                Some(i)
            } else {
                e
            },
        )
    } else {
        match e {
            Some(x) => seq![(i, x)] + runs_from(s, i - 1, None),
            None => runs_from(s, i - 1, None),
        }
    }
}

/// The runs of kana in `s`, as character ranges, the last run first.
pub open spec fn kana_runs(s: Seq<char>) -> Seq<(int, int)> {
    runs_from(s, s.len() as int, None)
}

/// A non-empty, maximal range of kana in `s`.
pub open spec fn valid_run(s: Seq<char>, run: (int, int)) -> bool {
    &&& 0 <= run.0 < run.1 <= s.len()
    &&& forall|p: int| run.0 <= p < run.1 ==> #[trigger] spec_is_kana(s[p])
    &&& (run.0 == 0 || !spec_is_kana(s[run.0 - 1]))
    &&& (run.1 == s.len() || !spec_is_kana(s[run.1]))
}

proof fn lemma_runs_from(s: Seq<char>, i: int, e: Option<int>)
    requires
        0 <= i <= s.len(),
        e matches Some(x) ==> {
            &&& i < x <= s.len()
            &&& (x == s.len() || !spec_is_kana(s[x]))
            &&& forall|p: int| i <= p < x ==> #[trigger] spec_is_kana(s[p])
        },
        e is None ==> (i == s.len() || !spec_is_kana(s[i])),
    ensures
        ({
            let rs = runs_from(s, i, e);
            let bound = match e {
                Some(x) => x,
                None => i,
            };
            &&& forall|k: int| 0 <= k < rs.len() ==> valid_run(s, #[trigger] rs[k]) && rs[k].1 <= bound
            &&& forall|k1: int, k2: int|
                0 <= k1 < k2 < rs.len() ==> #[trigger] rs[k2].1 < #[trigger] rs[k1].0
            &&& forall|p: int|
                0 <= p < bound && #[trigger] spec_is_kana(s[p]) ==> exists|k: int|
                    0 <= k < rs.len() && #[trigger] rs[k].0 <= p < rs[k].1
        }),
    decreases i,
{
    let rs = runs_from(s, i, e);
    if i <= 0 {
        match e {
            Some(x) => {
                assert(rs =~= seq![(0int, x)]);
                assert forall|p: int| 0 <= p < x && #[trigger] spec_is_kana(s[p]) implies exists|
                    k: int,
                | 0 <= k < rs.len() && #[trigger] rs[k].0 <= p < rs[k].1 by {
                    assert(rs[0].0 <= p < rs[0].1);
                }
            },
            None => {},
        }
    } else if spec_is_kana(s[i - 1]) {
        let e2 = if e is None {
            Some(i)
        } else {
            e
        };
        lemma_runs_from(s, i - 1, e2);
    } else {
        lemma_runs_from(s, i - 1, None);
        let rest = runs_from(s, i - 1, None);
        match e {
            Some(x) => {
                assert(rs =~= seq![(i, x)] + rest);
                assert(valid_run(s, (i, x)));
                assert forall|k: int| 0 <= k < rs.len() implies valid_run(s, #[trigger] rs[k])
                    && rs[k].1 <= x by {
                    if k > 0 {
                        assert(rs[k] == rest[k - 1]);
                    }
                }
                assert forall|k1: int, k2: int|
                    0 <= k1 < k2 < rs.len() implies #[trigger] rs[k2].1 < #[trigger] rs[k1].0 by {
                    assert(rs[k2] == rest[k2 - 1]);
                    if k1 > 0 {
                        assert(rs[k1] == rest[k1 - 1]);
                    }
                }
                assert forall|p: int| 0 <= p < x && #[trigger] spec_is_kana(s[p]) implies exists|
                    k: int,
                | 0 <= k < rs.len() && #[trigger] rs[k].0 <= p < rs[k].1 by {
                    if p >= i {
                        assert(rs[0].0 <= p < rs[0].1);
                    } else {
                        let k = choose|k: int| 0 <= k < rest.len() && #[trigger] rest[k].0 <= p < rest[k].1;
                        assert(rs[k + 1] == rest[k]);
                    }
                }
            },
            None => {},
        }
    }
}

/// The runs of kana of a string are exactly its maximal, non-empty ranges
/// of kana, listed from the last to the first, and every kana character
/// lies in one of them.
pub proof fn lemma_kana_runs_are_maximal(s: Seq<char>)
    ensures
        forall|k: int| 0 <= k < kana_runs(s).len() ==> valid_run(s, #[trigger] kana_runs(s)[k]),
        forall|k1: int, k2: int|
            0 <= k1 < k2 < kana_runs(s).len() ==> #[trigger] kana_runs(s)[k2].1
                < #[trigger] kana_runs(s)[k1].0,
        forall|p: int|
            0 <= p < s.len() && #[trigger] spec_is_kana(s[p]) ==> exists|k: int|
                0 <= k < kana_runs(s).len() && #[trigger] kana_runs(s)[k].0 <= p < kana_runs(
                    s,
                )[k].1,
{
    lemma_runs_from(s, s.len() as int, None);
    let rs = kana_runs(s);
    assert forall|p: int| 0 <= p < s.len() && #[trigger] spec_is_kana(s[p]) implies exists|k: int|
        0 <= k < rs.len() && #[trigger] rs[k].0 <= p < rs[k].1 by {
    }
}

/// Character positions further on lie further on in bytes.
proof fn lemma_byte_offset_strict(s: Seq<char>, i: int, j: int)
    requires
        0 <= i < j,
    ensures
        byte_offset(s, i) < byte_offset(s, j),
{
    crate::text::lemma_byte_offset_step(s, i);
    crate::text::lemma_byte_offset_mono(s, i + 1, j);
}

/// What [`groups`] gives, in bytes: each group is a non-empty byte range
/// between character boundaries of a maximal run of kana, the groups come
/// from the last to the first, and between two of them lies at least one
/// character which is not kana.
pub proof fn lemma_groups_byte_ranges(s: Seq<char>)
    ensures
        forall|k: int|
            0 <= k < kana_runs(s).len() ==> valid_run(s, #[trigger] kana_runs(s)[k]) && byte_offset(
                s,
                kana_runs(s)[k].0,
            ) < byte_offset(s, kana_runs(s)[k].1),
        forall|k1: int, k2: int|
            0 <= k1 < k2 < kana_runs(s).len() ==> byte_offset(s, #[trigger] kana_runs(s)[k2].1)
                < byte_offset(s, #[trigger] kana_runs(s)[k1].0) && !spec_is_kana(
                s[kana_runs(s)[k2].1],
            ),
{
    lemma_kana_runs_are_maximal(s);
    let rs = kana_runs(s);
    assert forall|k: int| 0 <= k < rs.len() implies valid_run(s, #[trigger] rs[k]) && byte_offset(
        s,
        rs[k].0,
    ) < byte_offset(s, rs[k].1) by {
        lemma_byte_offset_strict(s, rs[k].0, rs[k].1);
    }
    assert forall|k1: int, k2: int| 0 <= k1 < k2 < rs.len() implies byte_offset(s, #[trigger] rs[k2].1)
        < byte_offset(s, #[trigger] rs[k1].0) && !spec_is_kana(s[rs[k2].1]) by {
        assert(valid_run(s, rs[k2]));
        assert(valid_run(s, rs[k1]));
        lemma_byte_offset_strict(s, rs[k2].1, rs[k1].0);
    }
}

/// Widen a sequence of index pairs to integers.
pub open spec fn widen_pairs(v: Seq<(usize, usize)>) -> Seq<(int, int)> {
    v.map_values(|p: (usize, usize)| (p.0 as int, p.1 as int))
}

/// Compute the runs of kana of a character sequence, the last run first.
pub fn kana_runs_of(s: &Vec<char>) -> (r: Vec<(usize, usize)>)
    ensures
        widen_pairs(r@) == kana_runs(s@),
{
    let n = s.len();
    let mut i = n;
    let mut e: Option<usize> = None;
    let mut out: Vec<(usize, usize)> = Vec::new();
    while i > 0
        invariant
            i <= n == s@.len(),
            e matches Some(x) ==> i < x <= n,
            widen_pairs(out@) + runs_from(
                s@,
                i as int,
                match e {
                    Some(x) => Some(x as int),
                    None => None,
                },
            ) == kana_runs(s@),
        decreases i,
    {
        let ghost ei = match e {
            Some(x) => Some(x as int),
            None => None::<int>,
        };
        let c = s[i - 1];
        if is_kana(c) {
            if e.is_none() {
                e = Some(i);
            }
        } else {
            match e {
                Some(x) => {
                    assert(widen_pairs(out@.push((i, x))) =~= widen_pairs(out@).push(
                        (i as int, x as int),
                    ));
                    out.push((i, x));
                    e = None;
                },
                None => {},
            }
        }
        i = i - 1;
    }
    match e {
        Some(x) => {
            assert(widen_pairs(out@.push((0, x))) =~= widen_pairs(out@).push((0int, x as int)));
            out.push((0, x));
        },
        None => {
            assert(widen_pairs(out@) + Seq::<(int, int)>::empty() == widen_pairs(out@));
        },
    }
    out
}

/// Partition a string by kanji and kana, producing the byte ranges of each
/// group of kana, the last group first.
pub fn groups(kanji: &str) -> (r: Vec<Range<usize>>)
    requires
        kanji.spec_bytes().len() <= usize::MAX,
    ensures
        r@.len() == kana_runs(kanji@).len(),
        forall|k: int|
            0 <= k < r@.len() ==> #[trigger] r@[k].start == byte_offset(kanji@, kana_runs(kanji@)[k].0)
                && r@[k].end == byte_offset(kanji@, kana_runs(kanji@)[k].1),
{
    let chars = to_chars(kanji);
    let runs = kana_runs_of(&chars);
    proof {
        lemma_kana_runs_are_maximal(chars@);
    }
    let mut offsets: Vec<usize> = Vec::new();
    let mut total: usize = 0;
    let mut i: usize = 0;
    offsets.push(0);
    while i < chars.len()
        invariant
            chars@ == kanji@,
            kanji.spec_bytes().len() <= usize::MAX,
            i <= chars@.len(),
            offsets@.len() == i + 1,
            total == byte_offset(kanji@, i as int),
            forall|j: int| 0 <= j <= i ==> #[trigger] offsets@[j] == byte_offset(kanji@, j),
        decreases chars@.len() - i,
    {
        proof {
            crate::text::lemma_byte_offset_step(kanji@, i as int);
            crate::text::lemma_byte_offset_bounded(kanji, i + 1);
        }
        total = total + char_len_utf8(chars[i]);
        i = i + 1;
        offsets.push(total);
    }
    let mut out: Vec<Range<usize>> = Vec::new();
    let mut k: usize = 0;
    while k < runs.len()
        invariant
            chars@ == kanji@,
            widen_pairs(runs@) == kana_runs(kanji@),
            offsets@.len() == chars@.len() + 1,
            forall|j: int| 0 <= j <= chars@.len() ==> #[trigger] offsets@[j] == byte_offset(kanji@, j),
            forall|k: int| 0 <= k < kana_runs(kanji@).len() ==> valid_run(kanji@, #[trigger] kana_runs(kanji@)[k]),
            k <= runs@.len(),
            out@.len() == k,
            forall|j: int|
                0 <= j < k ==> #[trigger] out@[j].start == byte_offset(kanji@, kana_runs(kanji@)[j].0)
                    && out@[j].end == byte_offset(kanji@, kana_runs(kanji@)[j].1),
        decreases runs@.len() - k,
    {
        let (a, b) = runs[k];
        assert(widen_pairs(runs@)[k as int] == (a as int, b as int));
        assert(valid_run(kanji@, kana_runs(kanji@)[k as int]));
        out.push(offsets[a]..offsets[b]);
        k = k + 1;
    }
    out
}

} // verus!
