//! Splitting kana text into morae.

use vstd::prelude::*;
use vstd::string::*;

use crate::kana::{
    is_hiragana_lower, is_hiragana_upper, is_katakana_lower, is_katakana_upper,
    spec_is_hiragana_lower, spec_is_hiragana_upper, spec_is_katakana_lower,
    spec_is_katakana_upper,
};

verus! {

/// An upper (full size) kana, which may start a composite mora.
pub open spec fn is_upper_kana(c: char) -> bool {
    spec_is_hiragana_upper(c) || spec_is_katakana_upper(c)
}

/// A lower (small) kana, which may complete a composite mora.
pub open spec fn is_lower_kana(c: char) -> bool {
    spec_is_hiragana_lower(c) || spec_is_katakana_lower(c)
}

/// The number of characters in the first mora of `s`: an upper kana followed
/// by a lower kana forms one mora, any other character is a mora by itself.
pub open spec fn first_mora_len(s: Seq<char>) -> int {
    if s.len() == 0 {
        0
    } else if s.len() >= 2 && is_upper_kana(s[0]) && is_lower_kana(s[1]) {
        2
    } else {
        1
    }
}

/// The morae of `s`, in order.
pub open spec fn morae(s: Seq<char>) -> Seq<Seq<char>>
    decreases s.len(),
{
    if s.len() == 0 {
        Seq::empty()
    } else {
        let k = first_mora_len(s);
        seq![s.take(k)] + morae(s.skip(k))
    }
}

/// Concatenate a sequence of character sequences.
pub open spec fn concat_all(parts: Seq<Seq<char>>) -> Seq<char>
    decreases parts.len(),
{
    if parts.len() == 0 {
        Seq::empty()
    } else {
        parts[0] + concat_all(parts.drop_first())
    }
}

/// One of the small kana which complete a composite mora (the hiragana ぁ
/// and ゎ count as full size).
pub open spec fn small_kana(c: char) -> bool {
    c == 'ぃ' || c == 'ぅ' || c == 'ぇ' || c == 'ぉ' || c == 'っ' || c == 'ゃ' || c == 'ゅ'
        || c == 'ょ' || c == 'ァ' || c == 'ィ' || c == 'ゥ' || c == 'ェ' || c == 'ォ' || c == 'ッ'
        || c == 'ャ' || c == 'ュ' || c == 'ョ' || c == 'ヮ'
}

/// A full size kana letter: a letter of the hiragana block (U+3041 to
/// U+3096) or of the katakana block (U+30A1 to U+30FA) which is not small.
pub open spec fn full_kana(c: char) -> bool {
    let u = c as u32;
    ((0x3041 <= u <= 0x3096) || (0x30a1 <= u <= 0x30fa)) && !small_kana(c)
}

proof fn lemma_small_kana(c: char)
    ensures
        small_kana(c) <==> is_lower_kana(c),
{
    let u = c as u32;
    vstd::utf8::char_u32_cast(c, u);
    vstd::utf8::char_u32_cast('ぃ', 0x3043u32);
    vstd::utf8::char_u32_cast('ぅ', 0x3045u32);
    vstd::utf8::char_u32_cast('ぇ', 0x3047u32);
    vstd::utf8::char_u32_cast('ぉ', 0x3049u32);
    vstd::utf8::char_u32_cast('っ', 0x3063u32);
    vstd::utf8::char_u32_cast('ゃ', 0x3083u32);
    vstd::utf8::char_u32_cast('ゅ', 0x3085u32);
    vstd::utf8::char_u32_cast('ょ', 0x3087u32);
    vstd::utf8::char_u32_cast('ァ', 0x30a1u32);
    vstd::utf8::char_u32_cast('ィ', 0x30a3u32);
    vstd::utf8::char_u32_cast('ゥ', 0x30a5u32);
    vstd::utf8::char_u32_cast('ェ', 0x30a7u32);
    vstd::utf8::char_u32_cast('ォ', 0x30a9u32);
    vstd::utf8::char_u32_cast('ッ', 0x30c3u32);
    vstd::utf8::char_u32_cast('ャ', 0x30e3u32);
    vstd::utf8::char_u32_cast('ュ', 0x30e5u32);
    vstd::utf8::char_u32_cast('ョ', 0x30e7u32);
    vstd::utf8::char_u32_cast('ヮ', 0x30eeu32);
}

/// The first mora of a string: a full size kana followed by a small kana
/// (ゃ, ゅ, ょ and the others) make one mora, as in きゅ; any other
/// character is a mora by itself.
pub proof fn lemma_first_mora(s: Seq<char>)
    requires
        s.len() > 0,
    ensures
        morae(s)[0] == if s.len() >= 2 && full_kana(s[0]) && small_kana(s[1]) {
            s.take(2)
        } else {
            s.take(1)
        },
        morae(s).drop_first() == morae(s.skip(morae(s)[0].len() as int)),
{
    let k = first_mora_len(s);
    assert(morae(s)[0] == s.take(k));
    assert(morae(s).drop_first() =~= morae(s.skip(k)));
    if s.len() >= 2 {
        lemma_small_kana(s[0]);
        lemma_small_kana(s[1]);
        assert(is_upper_kana(s[0]) <==> full_kana(s[0]));
        assert(is_lower_kana(s[1]) <==> small_kana(s[1]));
    }
}

/// Splitting into morae loses nothing: the morae of a string concatenate back
/// to the string, and each mora is one or two characters long.
pub proof fn lemma_morae_partition(s: Seq<char>)
    ensures
        concat_all(morae(s)) == s,
        forall|i: int| 0 <= i < morae(s).len() ==> 1 <= #[trigger] morae(s)[i].len() <= 2,
    decreases s.len(),
{
    if s.len() > 0 {
        let k = first_mora_len(s);
        lemma_morae_partition(s.skip(k));
        let m = morae(s);
        assert(m.drop_first() == morae(s.skip(k)));
        assert(s.take(k) + s.skip(k) == s);
        assert forall|i: int| 0 <= i < m.len() implies 1 <= #[trigger] m[i].len() <= 2 by {
            if i > 0 {
                assert(m[i] == morae(s.skip(k))[i - 1]);
            }
        }
    }
}

/// Test whether `a` followed by `b` form a single composite mora.
pub fn is_composite(a: char, b: char) -> (r: bool)
    ensures
        r == (is_upper_kana(a) && is_lower_kana(b)),
{
    (is_hiragana_upper(a) || is_katakana_upper(a)) && (is_hiragana_lower(b) || is_katakana_lower(
        b,
    ))
}

/// Count the morae in the characters `s[from..to]`.
pub fn count_morae(s: &Vec<char>, from: usize, to: usize) -> (r: usize)
    requires
        from <= to <= s@.len(),
    ensures
        r == morae(s@.subrange(from as int, to as int)).len(),
{
    let mut i = from;
    let mut n: usize = 0;
    while i < to
        invariant
            from <= i <= to <= s@.len(),
            n <= i - from,
            n + morae(s@.subrange(i as int, to as int)).len() == morae(
                s@.subrange(from as int, to as int),
            ).len(),
        decreases to - i,
    {
        let ghost rest = s@.subrange(i as int, to as int);
        let k: usize = if i + 1 < to && is_composite(s[i], s[i + 1]) {
            2
        } else {
            1
        };
        assert(k == first_mora_len(rest));
        assert(rest.skip(k as int) == s@.subrange(i + k, to as int));
        i = i + k;
        n = n + 1;
    }
    n
}

/// Construct an iterator over morae in the given input.
pub fn iter(input: &str) -> (r: Morae<'_>)
    ensures
        r.remaining() == input@,
{
    Morae { input }
}

/// Iterate over morae.
pub struct Morae<'a> {
    pub(crate) input: &'a str,
}

impl<'a> Morae<'a> {
    /// The text which remains to be split.
    pub closed spec fn remaining(&self) -> Seq<char> {
        self.input@
    }

    /// Produce the next mora, or `None` once the input is exhausted.
    pub fn next(&mut self) -> (r: Option<&'a str>)
        ensures
            old(self).remaining().len() == 0 ==> r is None && final(self).remaining() == old(
                self,
            ).remaining(),
            old(self).remaining().len() > 0 ==> r is Some && r->0@ == old(self).remaining().take(
                first_mora_len(old(self).remaining()),
            ) && final(self).remaining() == old(self).remaining().skip(
                first_mora_len(old(self).remaining()),
            ),
    {
        let n = self.input.unicode_len();
        if n == 0 {
            return None;
        }
        let a = self.input.get_char(0);
        let k: usize = if n >= 2 && is_composite(a, self.input.get_char(1)) {
            2
        } else {
            1
        };
        let head = self.input.substring_char(0, k);
        let tail = self.input.substring_char(k, n);
        self.input = tail;
        Some(head)
    }

    /// Collect all remaining morae.
    pub fn collect_all(self) -> (r: Vec<&'a str>)
        ensures
            r@.len() == morae(self.remaining()).len(),
            forall|i: int| 0 <= i < r@.len() ==> #[trigger] r@[i]@ == morae(self.remaining())[i],
    {
        let ghost orig = self.remaining();
        let mut this = self;
        let mut out: Vec<&'a str> = Vec::new();
        loop
            invariant
                orig == self.remaining(),
                out@.len() + morae(this.remaining()).len() == morae(orig).len(),
                forall|i: int| 0 <= i < out@.len() ==> #[trigger] out@[i]@ == morae(orig)[i],
                forall|j: int|
                    0 <= j < morae(this.remaining()).len() ==> #[trigger] morae(
                        this.remaining(),
                    )[j] == morae(orig)[out@.len() + j],
            decreases this.remaining().len(),
        {
            let ghost before = this.remaining();
            match this.next() {
                None => {
                    assert(morae(this.remaining()).len() == 0);
                    return out;
                },
                Some(m) => {
                    let ghost k = first_mora_len(before);
                    assert(morae(before) == seq![before.take(k)] + morae(before.skip(k)));
                    assert(morae(before)[0] == before.take(k));
                    assert forall|j: int|
                        0 <= j < morae(this.remaining()).len() implies #[trigger] morae(
                        this.remaining(),
                    )[j] == morae(orig)[out@.len() + 1 + j] by {
                        assert(morae(this.remaining())[j] == morae(before)[j + 1]);
                    }
                    out.push(m);
                },
            }
        }
    }
}

} // verus!
