//! Locating the kana groups of a kanji spelling inside of its reading.

use vstd::prelude::*;

use super::groups::{kana_runs, kana_runs_of, lemma_kana_runs_are_maximal, valid_run, widen_pairs};
use crate::morae::{count_morae, morae};

verus! {

/// `n` occurs in `h` at `i`, ending no later than `bound`.
pub open spec fn occurs_at(h: Seq<char>, n: Seq<char>, i: int, bound: int) -> bool {
    &&& 0 <= i
    &&& i + n.len() <= bound <= h.len()
    &&& h.subrange(i, i + n.len()) == n
}

/// The last occurrence of `n` in `h[..bound]` which starts at or before `j`.
pub open spec fn rfind_upto(h: Seq<char>, n: Seq<char>, bound: int, j: int) -> Option<int>
    decreases j + 1,
{
    if j < 0 {
        None
    } else if occurs_at(h, n, j, bound) {
        Some(j)
    } else {
        rfind_upto(h, n, bound, j - 1)
    }
}

/// The last occurrence of `n` in `h[..bound]`.
pub open spec fn rfind(h: Seq<char>, n: Seq<char>, bound: int) -> Option<int> {
    rfind_upto(h, n, bound, bound - n.len())
}

/// Searching backwards through `reading[..current]` for the kana group
/// `kana`, the position where the group is placed. `reading_len` bounds the
/// reading available to the group and `kanji_count` is the number of kanji
/// between the group and the group placed after it. Each kanji is expected
/// to take at most two morae of the reading: a match is extended backwards
/// while the morae accumulated in `acc` stay within that budget.
pub open spec fn search(
    reading: Seq<char>,
    kana: Seq<char>,
    reading_len: int,
    kanji_count: int,
    current: int,
    acc: int,
    last: Option<int>,
) -> Option<int>
    decreases current,
{
    if kana.len() == 0 {
        None
    } else {
        match rfind(reading, kana, current) {
            None => last,
            Some(next) => if kanji_count == 0 {
                Some(next)
            } else {
                let m = acc + morae(reading.subrange(next + 1, reading_len)).len();
                if m > kanji_count * 2 {
                    match last {
                        Some(l) => Some(l),
                        None => Some(next),
                    }
                } else if 0 <= next < current {
                    search(reading, kana, reading_len, kanji_count, next, m, Some(next))
                } else {
                    None
                }
            },
        }
    }
}

/// Place the kana groups `gs[idx..]` (last group first) inside of the
/// reading: each placed group is `(start, end, at)`, the character range of
/// the group in the kanji and the position of its kana in the reading.
pub open spec fn place_from(
    kanji: Seq<char>,
    reading: Seq<char>,
    gs: Seq<(int, int)>,
    idx: int,
    reading_len: int,
    kanji_len: int,
) -> Seq<(int, int, int)>
    decreases gs.len() - idx,
{
    if idx < 0 || idx >= gs.len() {
        Seq::empty()
    } else {
        let s = gs[idx].0;
        let e = gs[idx].1;
        match search(
            reading,
            kanji.subrange(s, e),
            reading_len,
            kanji_len - e,
            reading_len,
            0,
            None,
        ) {
            None => place_from(kanji, reading, gs, idx + 1, reading_len, kanji_len),
            Some(at) => seq![(s, e, at)] + place_from(kanji, reading, gs, idx + 1, at, s),
        }
    }
}

/// The placed kana groups of `kanji` in `reading`, the last group first.
pub open spec fn positions(kanji: Seq<char>, reading: Seq<char>) -> Seq<(int, int, int)> {
    place_from(kanji, reading, kana_runs(kanji), 0, reading.len() as int, kanji.len() as int)
}

/// Placed groups are ordered from last to first, do not overlap, and each
/// group's kana is found at its position in the reading.
pub open spec fn well_placed(kanji: Seq<char>, reading: Seq<char>, p: Seq<(int, int, int)>) -> bool {
    &&& forall|t: int|
        0 <= t < p.len() ==> {
            &&& 0 <= (#[trigger] p[t]).0 < p[t].1 <= kanji.len()
            &&& occurs_at(reading, kanji.subrange(p[t].0, p[t].1), p[t].2, reading.len() as int)
        }
    &&& forall|t: int|
        0 <= t < p.len() - 1 ==> {
            &&& (#[trigger] p[t + 1]).1 <= p[t].0
            &&& p[t + 1].2 + (p[t + 1].1 - p[t + 1].0) <= p[t].2
        }
}

proof fn lemma_rfind_upto(h: Seq<char>, n: Seq<char>, bound: int, j: int)
    ensures
        rfind_upto(h, n, bound, j) matches Some(i) ==> occurs_at(h, n, i, bound) && i <= j,
    decreases j + 1,
{
    if j >= 0 && !occurs_at(h, n, j, bound) {
        lemma_rfind_upto(h, n, bound, j - 1);
    }
}

proof fn lemma_search(
    reading: Seq<char>,
    kana: Seq<char>,
    reading_len: int,
    kanji_count: int,
    current: int,
    acc: int,
    last: Option<int>,
)
    requires
        current <= reading_len <= reading.len(),
        last matches Some(l) ==> occurs_at(reading, kana, l, reading_len),
    ensures
        search(reading, kana, reading_len, kanji_count, current, acc, last) matches Some(at)
            ==> occurs_at(reading, kana, at, reading_len),
    decreases current,
{
    if kana.len() > 0 {
        lemma_rfind_upto(reading, kana, current, current - kana.len());
        match rfind(reading, kana, current) {
            None => {},
            Some(next) => {
                if kanji_count != 0 {
                    let m = acc + morae(reading.subrange(next + 1, reading_len)).len();
                    if m <= kanji_count * 2 && 0 <= next < current {
                        lemma_search(reading, kana, reading_len, kanji_count, next, m, Some(next));
                    }
                }
            },
        }
    }
}

proof fn lemma_place_from(
    kanji: Seq<char>,
    reading: Seq<char>,
    gs: Seq<(int, int)>,
    idx: int,
    reading_len: int,
    kanji_len: int,
)
    requires
        0 <= idx,
        reading_len <= reading.len(),
        kanji_len <= kanji.len(),
        forall|k: int| 0 <= k < gs.len() ==> valid_run(kanji, #[trigger] gs[k]),
        forall|k1: int, k2: int| 0 <= k1 < k2 < gs.len() ==> #[trigger] gs[k2].1 < #[trigger] gs[k1].0,
        forall|k: int| idx <= k < gs.len() ==> #[trigger] gs[k].1 <= kanji_len,
    ensures
        ({
            let p = place_from(kanji, reading, gs, idx, reading_len, kanji_len);
            &&& well_placed(kanji, reading, p)
            &&& p.len() > 0 ==> p[0].1 <= kanji_len && p[0].2 + (p[0].1 - p[0].0) <= reading_len
        }),
    decreases gs.len() - idx,
{
    if idx < gs.len() {
        let s = gs[idx].0;
        let e = gs[idx].1;
        let kana = kanji.subrange(s, e);
        lemma_search(reading, kana, reading_len, kanji_len - e, reading_len, 0, None);
        match search(reading, kana, reading_len, kanji_len - e, reading_len, 0, None) {
            None => {
                lemma_place_from(kanji, reading, gs, idx + 1, reading_len, kanji_len);
            },
            Some(at) => {
                assert forall|k: int| idx + 1 <= k < gs.len() implies #[trigger] gs[k].1 <= s by {
                    assert(gs[k].1 < gs[idx].0);
                }
                lemma_place_from(kanji, reading, gs, idx + 1, at, s);
                let rest = place_from(kanji, reading, gs, idx + 1, at, s);
                let p = place_from(kanji, reading, gs, idx, reading_len, kanji_len);
                assert(p == seq![(s, e, at)] + rest);
                assert(valid_run(kanji, gs[idx]));
                assert forall|t: int| 0 <= t < p.len() implies {
                    &&& 0 <= (#[trigger] p[t]).0 < p[t].1 <= kanji.len()
                    &&& occurs_at(reading, kanji.subrange(p[t].0, p[t].1), p[t].2, reading.len() as int)
                } by {
                    if t > 0 {
                        assert(p[t] == rest[t - 1]);
                    }
                }
                assert forall|t: int| 0 <= t < p.len() - 1 implies {
                    &&& (#[trigger] p[t + 1]).1 <= p[t].0
                    &&& p[t + 1].2 + (p[t + 1].1 - p[t + 1].0) <= p[t].2
                } by {
                    assert(p[t + 1] == rest[t]);
                    if t > 0 {
                        assert(p[t] == rest[t - 1]);
                        assert(rest[(t - 1) + 1] == rest[t]);
                    } else {
                        assert(p[0] == (s, e, at));
                        assert(rest[0].1 <= s);
                    }
                }
            },
        }
    }
}

/// The placed kana groups are well placed.
pub proof fn lemma_positions_well_placed(kanji: Seq<char>, reading: Seq<char>)
    ensures
        well_placed(kanji, reading, positions(kanji, reading)),
{
    lemma_kana_runs_are_maximal(kanji);
    lemma_place_from(
        kanji,
        reading,
        kana_runs(kanji),
        0,
        reading.len() as int,
        kanji.len() as int,
    );
}

/// Test whether `n[ns..ne]` occurs in `h` at `i`, ending within `bound`.
fn occurs_at_exec(h: &Vec<char>, n: &Vec<char>, ns: usize, ne: usize, i: usize, bound: usize) -> (r:
    bool)
    requires
        ns <= ne <= n@.len(),
        bound <= h@.len(),
        i + (ne - ns) <= bound,
    ensures
        r == occurs_at(h@, n@.subrange(ns as int, ne as int), i as int, bound as int),
{
    let len = ne - ns;
    let mut t: usize = 0;
    while t < len
        invariant
            len == ne - ns,
            ns <= ne <= n@.len(),
            i + len <= bound <= h@.len(),
            t <= len,
            h@.subrange(i as int, i + t) == n@.subrange(ns as int, ns + t),
        decreases len - t,
    {
        if h[i + t] != n[ns + t] {
            assert(h@.subrange(i as int, i + len)[t as int] != n@.subrange(
                ns as int,
                ne as int,
            )[t as int]);
            return false;
        }
        assert(h@.subrange(i as int, i + t + 1) =~= h@.subrange(i as int, i + t).push(h@[i + t]));
        assert(n@.subrange(ns as int, ns + t + 1) =~= n@.subrange(ns as int, ns + t).push(
            n@[ns + t],
        ));
        t = t + 1;
    }
    true
}

/// The last occurrence of `n[ns..ne]` in `h[..bound]`.
pub fn rfind_chars(h: &Vec<char>, n: &Vec<char>, ns: usize, ne: usize, bound: usize) -> (r: Option<
    usize,
>)
    requires
        ns <= ne <= n@.len(),
        bound <= h@.len(),
    ensures
        match r {
            Some(i) => rfind(h@, n@.subrange(ns as int, ne as int), bound as int) == Some(i as int),
            None => rfind(h@, n@.subrange(ns as int, ne as int), bound as int) is None,
        },
{
    let ghost needle = n@.subrange(ns as int, ne as int);
    let len = ne - ns;
    if len > bound {
        assert(rfind_upto(h@, needle, bound as int, bound - len) is None);
        return None;
    }
    let mut j = bound - len;
    loop
        invariant
            len == ne - ns == needle.len(),
            needle == n@.subrange(ns as int, ne as int),
            ns <= ne <= n@.len(),
            bound <= h@.len(),
            j + len <= bound,
            rfind(h@, needle, bound as int) == rfind_upto(h@, needle, bound as int, j as int),
        decreases j,
    {
        if occurs_at_exec(h, n, ns, ne, j, bound) {
            return Some(j);
        }
        if j == 0 {
            assert(rfind_upto(h@, needle, bound as int, -1) is None);
            return None;
        }
        j = j - 1;
    }
}

/// Search backwards for the position of the kana group `kanji[s..e]` in
/// `reading[..reading_len]`.
fn search_exec(
    reading: &Vec<char>,
    kanji: &Vec<char>,
    s: usize,
    e: usize,
    reading_len: usize,
    kanji_count: usize,
) -> (r: Option<usize>)
    requires
        s < e <= kanji@.len(),
        reading_len <= reading@.len(),
        kanji_count <= kanji@.len(),
    ensures
        match r {
            Some(at) => search(
                reading@,
                kanji@.subrange(s as int, e as int),
                reading_len as int,
                kanji_count as int,
                reading_len as int,
                0,
                None,
            ) == Some(at as int),
            None => search(
                reading@,
                kanji@.subrange(s as int, e as int),
                reading_len as int,
                kanji_count as int,
                reading_len as int,
                0,
                None,
            ) is None,
        },
{
    let ghost kana = kanji@.subrange(s as int, e as int);
    let ghost goal = search(
        reading@,
        kana,
        reading_len as int,
        kanji_count as int,
        reading_len as int,
        0,
        None,
    );
    let mut current = reading_len;
    let mut acc: u128 = 0;
    let mut last: Option<usize> = None;
    loop
        invariant
            s < e <= kanji@.len(),
            kana == kanji@.subrange(s as int, e as int),
            kana.len() > 0,
            reading_len <= reading@.len(),
            kanji_count <= kanji@.len(),
            current <= reading_len,
            acc <= 2 * kanji_count,
            goal == search(reading@, kana, reading_len as int, kanji_count as int, reading_len as int, 0, None),
            goal == search(
                reading@,
                kana,
                reading_len as int,
                kanji_count as int,
                current as int,
                acc as int,
                match last {
                    Some(l) => Some(l as int),
                    None => None,
                },
            ),
        decreases current,
    {
        proof {
            lemma_rfind_upto(reading@, kana, current as int, current - kana.len());
        }
        match rfind_chars(reading, kanji, s, e, current) {
            None => {
                assert(goal == match last {
                    Some(l) => Some(l as int),
                    None => None,
                });
                return last;
            },
            Some(next) => {
                if kanji_count == 0 {
                    return Some(next);
                }
                let m: u128 = acc + count_morae(reading, next + 1, reading_len) as u128;
                if m > 2 * (kanji_count as u128) {
                    return match last {
                        Some(l) => Some(l),
                        None => Some(next),
                    };
                }
                acc = m;
                last = Some(next);
                current = next;
            },
        }
    }
}

/// Widen a sequence of index triples to integers.
pub open spec fn widen_triples(v: Seq<(usize, usize, usize)>) -> Seq<(int, int, int)> {
    v.map_values(|p: (usize, usize, usize)| (p.0 as int, p.1 as int, p.2 as int))
}

/// Place the kana groups of `kanji` inside of `reading`, the last group first.
pub fn reverse_find(kanji: &Vec<char>, reading: &Vec<char>) -> (r: Vec<(usize, usize, usize)>)
    ensures
        widen_triples(r@) == positions(kanji@, reading@),
{
    let gs = kana_runs_of(kanji);
    proof {
        lemma_kana_runs_are_maximal(kanji@);
    }
    let ghost runs = kana_runs(kanji@);
    let mut reading_len = reading.len();
    let mut kanji_len = kanji.len();
    let mut out: Vec<(usize, usize, usize)> = Vec::new();
    let mut idx: usize = 0;
    while idx < gs.len()
        invariant
            widen_pairs(gs@) == runs,
            runs == kana_runs(kanji@),
            forall|k: int| 0 <= k < runs.len() ==> valid_run(kanji@, #[trigger] runs[k]),
            forall|k1: int, k2: int|
                0 <= k1 < k2 < runs.len() ==> #[trigger] runs[k2].1 < #[trigger] runs[k1].0,
            idx <= gs@.len(),
            reading_len <= reading@.len(),
            kanji_len <= kanji@.len(),
            forall|k: int| idx <= k < runs.len() ==> #[trigger] runs[k].1 <= kanji_len,
            widen_triples(out@) + place_from(
                kanji@,
                reading@,
                runs,
                idx as int,
                reading_len as int,
                kanji_len as int,
            ) == positions(kanji@, reading@),
        decreases gs@.len() - idx,
    {
        let (s, e) = gs[idx];
        assert(widen_pairs(gs@)[idx as int] == (s as int, e as int));
        assert(valid_run(kanji@, runs[idx as int]));
        let kanji_count = kanji_len - e;
        let found = search_exec(reading, kanji, s, e, reading_len, kanji_count);
        proof {
            lemma_search(
                reading@,
                kanji@.subrange(s as int, e as int),
                reading_len as int,
                kanji_count as int,
                reading_len as int,
                0,
                None,
            );
        }
        match found {
            None => {},
            Some(at) => {
                assert(widen_triples(out@.push((s, e, at))) =~= widen_triples(out@).push(
                    (s as int, e as int, at as int),
                ));
                out.push((s, e, at));
                assert forall|k: int| idx + 1 <= k < runs.len() implies #[trigger] runs[k].1 <= s by {
                    assert(runs[k].1 < runs[idx as int].0);
                }
                reading_len = at;
                kanji_len = s;
            },
        }
        idx = idx + 1;
    }
    assert(widen_triples(out@) + Seq::<(int, int, int)>::empty() == widen_triples(out@));
    out
}

} // verus!
