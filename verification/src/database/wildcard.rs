//! Free text queries with wildcards, as used to look up index keys.
//!
//! A query made of wildcards only matches everything, a query without
//! wildcards matches its own text, and otherwise the text before the first
//! wildcard is a prefix of every matching key, the middle pieces occur in
//! order after it, and the last piece ends the key.

use vstd::prelude::*;
use vstd::string::*;

use crate::text::to_chars;

verus! {

/// A wildcard character, in its ASCII or full width form.
pub open spec fn is_wildcard(c: char) -> bool {
    c == '*' || c == '＊'
}

/// Test if a character is a wildcard.
pub fn is_wildcard_char(c: char) -> (r: bool)
    ensures
        r == is_wildcard(c),
{
    c == '*' || c == '＊'
}

/// Every character of the query is a wildcard.
pub open spec fn all_wildcards(q: Seq<char>) -> bool {
    forall|i: int| 0 <= i < q.len() ==> is_wildcard(#[trigger] q[i])
}

/// The position of the first wildcard at or after `i`.
pub open spec fn first_wildcard_from(q: Seq<char>, i: int) -> Option<int>
    decreases q.len() - i,
{
    if i < 0 || i >= q.len() {
        None
    } else if is_wildcard(q[i]) {
        Some(i)
    } else {
        first_wildcard_from(q, i + 1)
    }
}

/// The non-empty pieces of `s` between wildcards, scanning from `i` with the
/// current piece starting at `start`.
pub open spec fn pieces_from(s: Seq<char>, start: int, i: int) -> Seq<Seq<char>>
    decreases s.len() - i,
{
    if i < 0 || i >= s.len() {
        if 0 <= start < s.len() {
            seq![s.subrange(start, s.len() as int)]
        } else {
            Seq::empty()
        }
    } else if is_wildcard(s[i]) {
        (if 0 <= start < i {
            seq![s.subrange(start, i)]
        } else {
            Seq::<Seq<char>>::empty()
        }) + pieces_from(s, i + 1, i + 1)
    } else {
        pieces_from(s, start, i + 1)
    }
}

/// The first position at or after `i` where `n` occurs in `h`.
pub open spec fn find_from(h: Seq<char>, n: Seq<char>, i: int) -> Option<int>
    decreases h.len() + 1 - i,
{
    if i < 0 || i + n.len() > h.len() {
        None
    } else if h.subrange(i, i + n.len()) == n {
        Some(i)
    } else {
        find_from(h, n, i + 1)
    }
}

/// After position `pos` of `key`, each piece but the last occurs in order,
/// each at its first occurrence after the one before, and the last piece
/// ends the key.
pub open spec fn pieces_match(key: Seq<char>, pos: int, parts: Seq<Seq<char>>) -> bool
    decreases parts.len(),
{
    if parts.len() == 0 {
        true
    } else if parts.len() == 1 {
        parts[0].len() <= key.len() - pos && key.subrange(key.len() - parts[0].len(), key.len() as int)
            == parts[0]
    } else {
        match find_from(key, parts[0], pos) {
            Some(p) => pieces_match(key, p + parts[0].len(), parts.skip(1)),
            None => false,
        }
    }
}

/// A key matches a query with wildcards when it starts with the prefix and
/// the pieces match after it.
pub open spec fn wildcard_match(prefix: Seq<char>, parts: Seq<Seq<char>>, key: Seq<char>) -> bool {
    prefix.len() <= key.len() && key.take(prefix.len() as int) == prefix && pieces_match(
        key,
        prefix.len() as int,
        parts,
    )
}

/// A query with at least one wildcard: the text before the first wildcard,
/// and the non-empty pieces between the wildcards after it.
pub struct WildcardQuery {
    pub prefix: Vec<char>,
    pub parts: Vec<Vec<char>>,
}

impl WildcardQuery {
    /// The pieces as sequences of characters.
    pub open spec fn parts_view(&self) -> Seq<Seq<char>> {
        self.parts@.map_values(|p: Vec<char>| p@)
    }

    /// Test if an index key matches the query.
    pub fn matches(&self, key: &str) -> (r: bool)
        ensures
            r == wildcard_match(self.prefix@, self.parts_view(), key@),
    {
        let k = to_chars(key);
        let n = self.prefix.len();
        if n > k.len() {
            return false;
        }
        let mut i: usize = 0;
        while i < n
            invariant
                k@ == key@,
                k@.len() <= usize::MAX,
                n == self.prefix@.len(),
                n <= k@.len(),
                i <= n,
                forall|j: int| 0 <= j < i ==> k@[j] == self.prefix@[j],
            decreases n - i,
        {
            if k[i] != self.prefix[i] {
                assert(k@.take(n as int)[i as int] != self.prefix@[i as int]);
                return false;
            }
            i = i + 1;
        }
        assert(k@.take(n as int) =~= self.prefix@);
        let ghost parts = self.parts_view();
        let mut pos: usize = n;
        let mut j: usize = 0;
        if self.parts.len() == 0 {
            return true;
        }
        assert(parts.skip(0) =~= parts);
        while j + 1 < self.parts.len()
            invariant
                k@ == key@,
                k@.len() <= usize::MAX,
                parts == self.parts_view(),
                parts.len() > 0,
                parts.len() == self.parts@.len(),
                self.parts@.len() <= usize::MAX,
                n == self.prefix@.len(),
                n <= k@.len(),
                k@.take(n as int) == self.prefix@,
                j < parts.len(),
                pos <= k@.len(),
                pieces_match(k@, n as int, parts) == pieces_match(k@, pos as int, parts.skip(j as int)),
            decreases parts.len() - j,
        {
            let part = &self.parts[j];
            assert(parts.skip(j as int)[0] == part@);
            assert(parts.skip(j as int).skip(1) =~= parts.skip(j + 1));
            match find_in(&k, part, pos) {
                None => {
                    return false;
                },
                Some(p) => {
                    pos = p + part.len();
                    j = j + 1;
                },
            }
        }
        let tail = &self.parts[j];
        assert(parts.skip(j as int) =~= seq![tail@]);
        if tail.len() > k.len() - pos {
            return false;
        }
        let start = k.len() - tail.len();
        assert(pieces_match(k@, n as int, parts) == (k@.subrange(start as int, k@.len() as int)
            == tail@));
        let mut t: usize = 0;
        while t < tail.len()
            invariant
                k@ == key@,
                k@.len() <= usize::MAX,
                start + tail@.len() == k@.len(),
                n == self.prefix@.len(),
                n <= k@.len(),
                k@.take(n as int) == self.prefix@,
                pieces_match(k@, n as int, parts) == (k@.subrange(start as int, k@.len() as int)
                    == tail@),
                parts == self.parts_view(),
                t <= tail@.len(),
                forall|x: int| 0 <= x < t ==> k@[start + x] == tail@[x],
            decreases tail@.len() - t,
        {
            if k[start + t] != tail[t] {
                assert(k@.subrange(start as int, k@.len() as int)[t as int] != tail@[t as int]);
                return false;
            }
            t = t + 1;
        }
        assert(k@.subrange(start as int, k@.len() as int) =~= tail@);
        true
    }
}

/// Find the first occurrence of `n` in `h` at or after `from`.
fn find_in(h: &Vec<char>, n: &Vec<char>, from: usize) -> (r: Option<usize>)
    requires
        from <= h@.len(),
    ensures
        r matches Some(p) ==> find_from(h@, n@, from as int) == Some(p as int) && p + n@.len()
            <= h@.len(),
        r is None ==> find_from(h@, n@, from as int) is None,
    decreases h@.len() - from,
{
    if n.len() > h.len() - from {
        return None;
    }
    let mut t: usize = 0;
    let mut same = true;
    while t < n.len()
        invariant
            h@.len() <= usize::MAX,
            from + n@.len() <= h@.len(),
            t <= n@.len(),
            same == forall|x: int| 0 <= x < t ==> h@[from + x] == n@[x],
        decreases n@.len() - t,
    {
        if h[from + t] != n[t] {
            same = false;
        }
        t = t + 1;
    }
    if same {
        assert(h@.subrange(from as int, from + n@.len()) =~= n@);
        Some(from)
    } else {
        assert(h@.subrange(from as int, from + n@.len()) != n@) by {
            let x = choose|x: int| 0 <= x < n@.len() && h@[from + x] != n@[x];
            assert(h@.subrange(from as int, from + n@.len())[x] != n@[x]);
        }
        find_in(h, n, from + 1)
    }
}

/// What a free text query asks for.
pub enum LookupQuery<'a> {
    /// Every phrase: the query is made of wildcards only.
    All,
    /// The keys equal to the query, which has no wildcard.
    Exact(&'a str),
    /// The keys that match a query with wildcards.
    Wildcard(WildcardQuery),
}

/// The non-empty pieces between the wildcards after the first one.
pub open spec fn query_pieces(q: Seq<char>, first: int) -> Seq<Seq<char>> {
    pieces_from(q, first + 1, first + 1)
}

/// Parse a free text query.
pub fn parse_query(query: &str) -> (r: LookupQuery<'_>)
    ensures
        all_wildcards(query@) <==> r is All,
        r matches LookupQuery::Exact(q) ==> q@ == query@ && first_wildcard_from(query@, 0) is None,
        !all_wildcards(query@) && first_wildcard_from(query@, 0) is None ==> r is Exact,
        !all_wildcards(query@) ==> (first_wildcard_from(query@, 0) matches Some(w) ==> (
        r matches LookupQuery::Wildcard(wq) && wq.prefix@ == query@.take(w) && wq.parts_view()
            == query_pieces(query@, w))),
{
    let q = to_chars(query);
    let mut all = true;
    let mut first: Option<usize> = None;
    let mut i: usize = 0;
    while i < q.len()
        invariant
            q@ == query@,
            i <= q@.len(),
            all == forall|x: int| 0 <= x < i ==> is_wildcard(#[trigger] q@[x]),
            first is None ==> forall|x: int| 0 <= x < i ==> !is_wildcard(#[trigger] q@[x]),
            first matches Some(w) ==> w < i && first_wildcard_from(q@, 0) == Some(w as int),
        decreases q@.len() - i,
    {
        if is_wildcard_char(q[i]) {
            if first.is_none() {
                proof {
                    lemma_first_wildcard(q@, 0, i as int);
                }
                first = Some(i);
            }
        } else {
            all = false;
        }
        i = i + 1;
    }
    if all {
        return LookupQuery::All;
    }
    match first {
        None => {
            proof {
                lemma_no_wildcard(q@, 0);
            }
            LookupQuery::Exact(query)
        },
        Some(w) => {
            let mut prefix: Vec<char> = Vec::new();
            let mut k: usize = 0;
            while k < w
                invariant
                    w < q@.len(),
                    k <= w,
                    prefix@ == q@.take(k as int),
                decreases w - k,
            {
                prefix.push(q[k]);
                assert(q@.take(k + 1) =~= q@.take(k as int).push(q@[k as int]));
                k = k + 1;
            }
            let parts = split_pieces(&q, w + 1);
            LookupQuery::Wildcard(WildcardQuery { prefix, parts })
        },
    }
}

proof fn lemma_first_wildcard(q: Seq<char>, i: int, w: int)
    requires
        0 <= i <= w < q.len(),
        is_wildcard(q[w]),
        forall|x: int| i <= x < w ==> !is_wildcard(#[trigger] q[x]),
    ensures
        first_wildcard_from(q, i) == Some(w),
    decreases w - i,
{
    if i < w {
        lemma_first_wildcard(q, i + 1, w);
    }
}

proof fn lemma_no_wildcard(q: Seq<char>, i: int)
    requires
        0 <= i,
        forall|x: int| i <= x < q.len() ==> !is_wildcard(#[trigger] q[x]),
    ensures
        first_wildcard_from(q, i) is None,
    decreases q.len() - i,
{
    if i < q.len() {
        lemma_no_wildcard(q, i + 1);
    }
}

/// The non-empty pieces between wildcards of `q` from position `from`.
fn split_pieces(q: &Vec<char>, from: usize) -> (r: Vec<Vec<char>>)
    requires
        from <= q@.len(),
    ensures
        r@.map_values(|p: Vec<char>| p@) == pieces_from(q@, from as int, from as int),
{
    let mut out: Vec<Vec<char>> = Vec::new();
    let mut current: Vec<char> = Vec::new();
    let mut start: usize = from;
    let mut i: usize = from;
    while i < q.len()
        invariant
            from <= start <= i <= q@.len(),
            current@ == q@.subrange(start as int, i as int),
            out@.map_values(|p: Vec<char>| p@) + pieces_from(q@, start as int, i as int)
                == pieces_from(q@, from as int, from as int),
        decreases q@.len() - i,
    {
        let ghost before = out@.map_values(|p: Vec<char>| p@);
        if is_wildcard_char(q[i]) {
            if start < i {
                out.push(current);
                assert(out@.map_values(|p: Vec<char>| p@) =~= before.push(
                    q@.subrange(start as int, i as int),
                ));
                assert(before + pieces_from(q@, start as int, i as int) =~= out@.map_values(
                    |p: Vec<char>| p@,
                ) + pieces_from(q@, i + 1, i + 1));
            } else {
                assert(before + pieces_from(q@, start as int, i as int) =~= before + pieces_from(
                    q@,
                    i + 1,
                    i + 1,
                ));
            }
            current = Vec::new();
            start = i + 1;
        } else {
            current.push(q[i]);
            assert(current@ =~= q@.subrange(start as int, i + 1));
        }
        i = i + 1;
    }
    let ghost before = out@.map_values(|p: Vec<char>| p@);
    if start < q.len() {
        out.push(current);
        assert(out@.map_values(|p: Vec<char>| p@) =~= before.push(
            q@.subrange(start as int, q@.len() as int),
        ));
        assert(out@.map_values(|p: Vec<char>| p@) =~= before + pieces_from(
            q@,
            start as int,
            i as int,
        ));
    } else {
        assert(before + pieces_from(q@, start as int, i as int) =~= before);
    }
    out
}

} // verus!
