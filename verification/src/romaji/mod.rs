//! Types to perform romaji - hiragana - katakana conversions.
//!
//! Conversions follow a fixed table of kana with their Hepburn romanization,
//! where composite kana come before the kana they start with so that the
//! longest form is recognized first.

mod table;
pub mod laws;

pub use self::table::{table, table_entry, TABLE_LEN};

use vstd::prelude::*;
use vstd::string::*;

use crate::furigana::starts_with;
use crate::text::{str_eq, to_chars};

verus! {

/// A transformation to perform.
pub enum Transform {
    /// Transform to hiragana.
    Hiragana,
    /// Transform to katakana.
    Katakana,
    /// Transform to romaji.
    Romaji,
}

/// `p` is a non-empty prefix of `s`.
pub open spec fn has_prefix(s: Seq<char>, p: Seq<char>) -> bool {
    p.len() > 0 && starts_with(s, p)
}

/// The length of the first segment of `s`, trying the table entries from `i`
/// on: the hiragana, katakana or a romanization of an entry, or a single
/// character when no entry matches.
pub open spec fn segment_len_from(s: Seq<char>, i: int) -> int
    decreases TABLE_LEN - i,
{
    if i < 0 || i >= TABLE_LEN {
        if s.len() > 0 {
            1
        } else {
            0
        }
    } else {
        let (h, k, w, w2) = table(i);
        if has_prefix(s, h) {
            h.len() as int
        } else if has_prefix(s, k) {
            k.len() as int
        } else if has_prefix(s, w) {
            w.len() as int
        } else if w2 is Some && has_prefix(s, w2->0) {
            w2->0.len() as int
        } else {
            segment_len_from(s, i + 1)
        }
    }
}

/// The length of the first segment of `s`.
pub open spec fn segment_len(s: Seq<char>) -> int {
    segment_len_from(s, 0)
}

/// The segments of `s`, in order.
pub open spec fn segments(s: Seq<char>) -> Seq<Seq<char>>
    decreases s.len(),
{
    if s.len() == 0 {
        Seq::empty()
    } else {
        let n = segment_len(s);
        if 0 < n <= s.len() {
            seq![s.take(n)] + segments(s.skip(n))
        } else {
            seq![s]
        }
    }
}

proof fn lemma_segment_len_from(s: Seq<char>, i: int)
    requires
        s.len() > 0,
    ensures
        0 < segment_len_from(s, i) <= s.len(),
    decreases TABLE_LEN - i,
{
    if 0 <= i < TABLE_LEN {
        lemma_segment_len_from(s, i + 1);
    }
}

proof fn lemma_segment_len_short(s: Seq<char>, i: int)
    ensures
        segment_len_from(s, i) <= 4,
    decreases TABLE_LEN - i,
{
    if 0 <= i < TABLE_LEN {
        self::table::lemma_table_short(i);
        lemma_segment_len_short(s, i + 1);
    }
}

/// Segmenting loses nothing: the segments concatenate back to the string,
/// none is empty or longer than four characters, and there are no more of
/// them than characters.
pub proof fn lemma_segments_partition(s: Seq<char>)
    ensures
        crate::morae::concat_all(segments(s)) == s,
        forall|i: int| 0 <= i < segments(s).len() ==> 0 < #[trigger] segments(s)[i].len() <= 4,
        segments(s).len() <= s.len(),
    decreases s.len(),
{
    if s.len() > 0 {
        lemma_segment_len_from(s, 0);
        lemma_segment_len_short(s, 0);
        let n = segment_len(s);
        lemma_segments_partition(s.skip(n));
        let m = segments(s);
        assert(m.drop_first() == segments(s.skip(n)));
        assert(s.take(n) + s.skip(n) == s);
        assert forall|i: int| 0 <= i < m.len() implies 0 < #[trigger] m[i].len() <= 4 by {
            if i > 0 {
                assert(m[i] == segments(s.skip(n))[i - 1]);
            }
        }
    }
}

/// Test if `s[from..]` starts with the non-empty string `p`, returning its
/// length.
fn prefix_len(s: &Vec<char>, from: usize, p: &str) -> (r: Option<usize>)
    requires
        from <= s@.len(),
    ensures
        match r {
            Some(n) => has_prefix(s@.skip(from as int), p@) && n == p@.len(),
            None => !has_prefix(s@.skip(from as int), p@),
        },
{
    let pc = to_chars(p);
    let n = pc.len();
    let sn = s.len();
    if n == 0 || n > sn - from {
        return None;
    }
    let mut t: usize = 0;
    while t < n
        invariant
            pc@ == p@,
            n == p@.len(),
            sn == s@.len(),
            from + n <= s@.len(),
            t <= n,
            s@.subrange(from as int, from + t) == pc@.subrange(0, t as int),
        decreases n - t,
    {
        if s[from + t] != pc[t] {
            assert(s@.skip(from as int).take(n as int)[t as int] != p@[t as int]);
            return None;
        }
        assert(s@.subrange(from as int, from + t + 1) =~= s@.subrange(from as int, from + t).push(
            s@[from + t],
        ));
        assert(pc@.subrange(0, t + 1) =~= pc@.subrange(0, t as int).push(pc@[t as int]));
        t = t + 1;
    }
    assert(s@.skip(from as int).take(n as int) =~= s@.subrange(from as int, from + n));
    assert(pc@.subrange(0, n as int) =~= pc@);
    Some(n)
}

/// The length of the first segment of `s[from..]`.
fn first_segment_len(s: &Vec<char>, from: usize) -> (r: usize)
    requires
        from < s@.len(),
    ensures
        r == segment_len(s@.skip(from as int)),
        0 < r <= s@.len() - from,
{
    let ghost rest = s@.skip(from as int);
    proof {
        lemma_segment_len_from(rest, 0);
    }
    let mut i: usize = 0;
    while i < TABLE_LEN
        invariant
            from < s@.len(),
            rest == s@.skip(from as int),
            i <= TABLE_LEN,
            segment_len(rest) == segment_len_from(rest, i as int),
        decreases TABLE_LEN - i,
    {
        let (h, k, w, w2) = table_entry(i);
        if let Some(n) = prefix_len(s, from, h) {
            return n;
        }
        if let Some(n) = prefix_len(s, from, k) {
            return n;
        }
        if let Some(n) = prefix_len(s, from, w) {
            return n;
        }
        if let Some(w2) = w2 {
            if let Some(n) = prefix_len(s, from, w2) {
                return n;
            }
        }
        i = i + 1;
    }
    1
}

/// Perform an analysis.
pub fn analyze(input: &str) -> (r: Analysis<'_>)
    ensures
        r.remaining() == input@,
{
    Analysis { input }
}

/// A string being analyzed.
pub struct Analysis<'a> {
    input: &'a str,
}

impl<'a> Analysis<'a> {
    /// The text which remains to be analyzed.
    pub closed spec fn remaining(&self) -> Seq<char> {
        self.input@
    }

    /// Produce the next segment.
    pub fn next(&mut self) -> (r: Option<Segment<'a>>)
        ensures
            old(self).remaining().len() == 0 ==> r is None && final(self).remaining() == old(
                self,
            ).remaining(),
            old(self).remaining().len() > 0 ==> r is Some && r->0.text() == old(
                self,
            ).remaining().take(segment_len(old(self).remaining())) && final(self).remaining()
                == old(self).remaining().skip(segment_len(old(self).remaining())),
    {
        let chars = to_chars(self.input);
        let len = chars.len();
        if len == 0 {
            return None;
        }
        let n = first_segment_len(&chars, 0);
        assert(chars@.skip(0) =~= chars@);
        let string = self.input.substring_char(0, n);
        self.input = self.input.substring_char(n, len);
        Some(Segment { string })
    }

    /// Collect all remaining segments.
    pub fn collect_all(self) -> (r: Vec<Segment<'a>>)
        ensures
            r@.len() == segments(self.remaining()).len(),
            forall|i: int| 0 <= i < r@.len() ==> #[trigger] r@[i].text() == segments(self.remaining())[i],
    {
        let ghost orig = self.remaining();
        let mut this = self;
        let mut out: Vec<Segment<'a>> = Vec::new();
        loop
            invariant
                orig == self.remaining(),
                out@.len() + segments(this.remaining()).len() == segments(orig).len(),
                forall|i: int| 0 <= i < out@.len() ==> #[trigger] out@[i].text() == segments(orig)[i],
                forall|j: int|
                    0 <= j < segments(this.remaining()).len() ==> #[trigger] segments(
                        this.remaining(),
                    )[j] == segments(orig)[out@.len() + j],
            decreases this.remaining().len(),
        {
            let ghost before = this.remaining();
            proof {
                if before.len() > 0 {
                    lemma_segment_len_from(before, 0);
                }
            }
            match this.next() {
                None => {
                    assert(segments(this.remaining()).len() == 0);
                    return out;
                },
                Some(seg) => {
                    let ghost n = segment_len(before);
                    assert(segments(before) == seq![before.take(n)] + segments(before.skip(n)));
                    assert(segments(before)[0] == before.take(n));
                    assert forall|j: int|
                        0 <= j < segments(this.remaining()).len() implies #[trigger] segments(
                        this.remaining(),
                    )[j] == segments(orig)[out@.len() + 1 + j] by {
                        assert(segments(this.remaining())[j] == segments(before)[j + 1]);
                    }
                    out.push(seg);
                },
            }
        }
    }
}

/// The conversion of `s` to hiragana, trying the table entries from `i` on.
pub open spec fn to_hiragana_from(s: Seq<char>, i: int) -> Seq<char>
    decreases TABLE_LEN - i,
{
    if i < 0 || i >= TABLE_LEN {
        s
    } else {
        let (h, k, w, w2) = table(i);
        if s == k || s == w || w2 == Some(s) {
            h
        } else {
            to_hiragana_from(s, i + 1)
        }
    }
}

/// The conversion of `s` to katakana, trying the table entries from `i` on.
pub open spec fn to_katakana_from(s: Seq<char>, i: int) -> Seq<char>
    decreases TABLE_LEN - i,
{
    if i < 0 || i >= TABLE_LEN {
        s
    } else {
        let (h, k, w, w2) = table(i);
        if s == h || s == w || w2 == Some(s) {
            k
        } else {
            to_katakana_from(s, i + 1)
        }
    }
}

/// The romanization of `s`, trying the table entries from `i` on.
pub open spec fn romanize_from(s: Seq<char>, i: int) -> Seq<char>
    decreases TABLE_LEN - i,
{
    if i < 0 || i >= TABLE_LEN {
        s
    } else {
        let (h, k, w, w2) = table(i);
        if s == h || s == k {
            w
        } else {
            romanize_from(s, i + 1)
        }
    }
}

/// A section that can be restructured.
#[derive(Debug, PartialEq, Eq)]
pub struct Segment<'a> {
    string: &'a str,
}

impl<'a> Segment<'a> {
    /// The text of the segment.
    pub closed spec fn text(&self) -> Seq<char> {
        self.string@
    }

    /// The text of the segment.
    pub fn as_str(&self) -> (r: &'a str)
        ensures
            r@ == self.text(),
    {
        self.string
    }

    /// Test if the segment is the given string.
    pub fn eq_str(&self, other: &str) -> (r: bool)
        ensures
            r == (self.text() == other@),
    {
        str_eq(self.string, other)
    }

    /// Convert the analyzed segment into hiragana.
    pub fn hiragana(&self) -> (r: &'a str)
        ensures
            r@ == to_hiragana_from(self.text(), 0),
    {
        let mut i: usize = 0;
        while i < TABLE_LEN
            invariant
                i <= TABLE_LEN,
                to_hiragana_from(self.text(), 0) == to_hiragana_from(self.text(), i as int),
            decreases TABLE_LEN - i,
        {
            let (h, k, w, w2) = table_entry(i);
            let alt = match w2 {
                Some(w2) => str_eq(self.string, w2),
                None => false,
            };
            if str_eq(self.string, k) || str_eq(self.string, w) || alt {
                return h;
            }
            i = i + 1;
        }
        self.string
    }

    /// Convert the analyzed segment into katakana.
    pub fn katakana(&self) -> (r: &'a str)
        ensures
            r@ == to_katakana_from(self.text(), 0),
    {
        let mut i: usize = 0;
        while i < TABLE_LEN
            invariant
                i <= TABLE_LEN,
                to_katakana_from(self.text(), 0) == to_katakana_from(self.text(), i as int),
            decreases TABLE_LEN - i,
        {
            let (h, k, w, w2) = table_entry(i);
            let alt = match w2 {
                Some(w2) => str_eq(self.string, w2),
                None => false,
            };
            if str_eq(self.string, h) || str_eq(self.string, w) || alt {
                return k;
            }
            i = i + 1;
        }
        self.string
    }

    /// Romanize the analyzed segment.
    pub fn romanize(&self) -> (r: &'a str)
        ensures
            r@ == romanize_from(self.text(), 0),
    {
        let mut i: usize = 0;
        while i < TABLE_LEN
            invariant
                i <= TABLE_LEN,
                romanize_from(self.text(), 0) == romanize_from(self.text(), i as int),
            decreases TABLE_LEN - i,
        {
            let (h, k, w, w2) = table_entry(i);
            if str_eq(self.string, h) || str_eq(self.string, k) {
                return w;
            }
            i = i + 1;
        }
        self.string
    }
}

} // verus!
