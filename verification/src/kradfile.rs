//! A parser of the KRADFILE, which lists the radicals each kanji is made
//! of, one kanji per line: the kanji, ` : `, and its radicals separated by
//! whitespace. The file is encoded in EUC-JP and lines starting with `#`
//! are comments.

use encoding_rs::{DecoderResult, EUC_JP};
use vstd::prelude::*;
use vstd::string::*;
use vstd::utf8::{decode_utf8, valid_utf8};

use crate::text::{is_whitespace, skip_ws_forward, spec_is_whitespace};

verus! {

/// An entry: a kanji and the radicals it is made of.
#[derive(Debug)]
pub struct Entry<'a> {
    pub kanji: &'a str,
    pub radicals: Vec<&'a str>,
}

/// The owned variant of [`Entry`].
#[derive(Debug, Clone)]
pub struct OwnedEntry {
    pub kanji: String,
    pub radicals: Vec<String>,
}

/// What an owned entry holds: the kanji and each radical.
pub open spec fn entry_view(e: OwnedEntry) -> (Seq<char>, Seq<Seq<char>>) {
    (e.kanji@, e.radicals@.map_values(|r: String| r@))
}

/// The UTF-8 bytes which a line of EUC-JP bytes decodes to, if it decodes
/// without error into at most 2048 bytes.
pub uninterp spec fn euc_jp_to_utf8(bytes: Seq<u8>) -> Option<Seq<u8>>;

/// Decode a line from EUC-JP, by `encoding_rs`'s
/// `Decoder::decode_to_utf8_without_replacement` on a new EUC-JP decoder
/// with the whole line as the last input and a buffer of 2048 bytes: the
/// bytes written when the decoder ends with its input used up, else `None`.
/// The contract only names the result as a function of the line.
#[verifier::external_body]
fn decode_euc_jp(line: &[u8]) -> (r: Option<Vec<u8>>)
    ensures
        match r {
            Some(v) => euc_jp_to_utf8(line@) == Some(v@),
            None => euc_jp_to_utf8(line@) is None,
        },
{
    let mut buf = [0u8; 2048];
    let mut decoder = EUC_JP.new_decoder();
    let (result, _, written) = decoder.decode_to_utf8_without_replacement(line, &mut buf, true);
    match result {
        DecoderResult::InputEmpty => Some(buf[..written].to_vec()),
        DecoderResult::OutputFull | DecoderResult::Malformed(..) => None,
    }
}

/// A string of UTF-8 bytes, by `std::str::from_utf8`: the string the bytes
/// encode when they are valid UTF-8, else `None`.
#[verifier::external_body]
fn str_from_utf8(bytes: &[u8]) -> (r: Option<&str>)
    ensures
        match r {
            Some(s) => valid_utf8(bytes@) && s@ == decode_utf8(bytes@),
            None => !valid_utf8(bytes@),
        },
{
    std::str::from_utf8(bytes).ok()
}

/// A byte of ASCII whitespace.
pub open spec fn is_ascii_ws(b: u8) -> bool {
    b == 0x20 || b == 0x09 || b == 0x0a || b == 0x0c || b == 0x0d
}

/// The byte at a position, or zero past the end.
pub open spec fn peek_at(input: Seq<u8>, pos: int) -> u8 {
    if 0 <= pos < input.len() {
        input[pos]
    } else {
        0
    }
}

/// The first position from `pos` which holds no ASCII whitespace.
pub open spec fn skip_ws(input: Seq<u8>, pos: int) -> int
    decreases input.len() - pos,
{
    if 0 <= pos < input.len() && is_ascii_ws(input[pos]) {
        skip_ws(input, pos + 1)
    } else {
        pos
    }
}

/// The first position from `pos` which holds a newline or a zero byte, or
/// the end.
pub open spec fn line_end(input: Seq<u8>, pos: int) -> int
    decreases input.len() - pos,
{
    if 0 <= pos < input.len() && input[pos] != 0x0a && input[pos] != 0 {
        line_end(input, pos + 1)
    } else {
        pos
    }
}

pub proof fn lemma_skip_ws(input: Seq<u8>, pos: int)
    requires
        0 <= pos <= input.len(),
    ensures
        pos <= skip_ws(input, pos) <= input.len(),
    decreases input.len() - pos,
{
    if pos < input.len() && is_ascii_ws(input[pos]) {
        lemma_skip_ws(input, pos + 1);
    }
}

pub proof fn lemma_line_end(input: Seq<u8>, pos: int)
    requires
        0 <= pos <= input.len(),
    ensures
        pos <= line_end(input, pos) <= input.len(),
        pos < input.len() && input[pos] != 0x0a && input[pos] != 0 ==> line_end(input, pos) > pos,
    decreases input.len() - pos,
{
    if pos < input.len() && input[pos] != 0x0a && input[pos] != 0 {
        lemma_line_end(input, pos + 1);
    }
}

/// A line separates the kanji from its radicals at `i`: ` : ` stands
/// there.
pub open spec fn separator_at(s: Seq<char>, i: int) -> bool {
    0 <= i && i + 3 <= s.len() && s[i] == ' ' && s[i + 1] == ':' && s[i + 2] == ' '
}

/// The first position from `i` where ` : ` stands, if any.
pub open spec fn find_separator(s: Seq<char>, i: int) -> Option<int>
    decreases s.len() - i,
{
    if i < 0 || i + 3 > s.len() {
        None
    } else if separator_at(s, i) {
        Some(i)
    } else {
        find_separator(s, i + 1)
    }
}

/// The first position from `i` which holds whitespace, or the end.
pub open spec fn word_end(s: Seq<char>, i: int) -> int
    decreases s.len() - i,
{
    if 0 <= i < s.len() && !spec_is_whitespace(s[i]) {
        word_end(s, i + 1)
    } else {
        i
    }
}

pub proof fn lemma_word_end(s: Seq<char>, i: int)
    requires
        0 <= i <= s.len(),
    ensures
        i <= word_end(s, i) <= s.len(),
        i < s.len() && !spec_is_whitespace(s[i]) ==> word_end(s, i) > i,
    decreases s.len() - i,
{
    if i < s.len() && !spec_is_whitespace(s[i]) {
        lemma_word_end(s, i + 1);
    }
}

pub proof fn lemma_skip_ws_forward(s: Seq<char>, i: int)
    requires
        0 <= i <= s.len(),
    ensures
        i <= skip_ws_forward(s, i) <= s.len(),
        skip_ws_forward(s, i) < s.len() ==> !spec_is_whitespace(s[skip_ws_forward(s, i)]),
    decreases s.len() - i,
{
    if i < s.len() && spec_is_whitespace(s[i]) {
        lemma_skip_ws_forward(s, i + 1);
    }
}

/// The words of `s[i..]`: its runs of characters other than whitespace.
pub open spec fn words_from(s: Seq<char>, i: int) -> Seq<Seq<char>>
    decreases s.len() - i,
{
    if 0 <= i <= s.len() {
        let a = skip_ws_forward(s, i);
        if a >= s.len() {
            Seq::empty()
        } else {
            let b = word_end(s, a);
            proof {
                lemma_skip_ws_forward(s, i);
                lemma_word_end(s, a);
            }
            seq![s.subrange(a, b)] + words_from(s, b)
        }
    } else {
        Seq::empty()
    }
}

/// The entry a line of text holds: the text before the first ` : ` and
/// the words after it.
pub open spec fn line_entry(line: Seq<char>) -> Option<(Seq<char>, Seq<Seq<char>>)> {
    match find_separator(line, 0) {
        Some(i) => Some((line.subrange(0, i), words_from(line.subrange(i + 3, line.len() as int), 0))),
        None => None,
    }
}

/// The entry a line of bytes holds, if it decodes from EUC-JP into valid
/// UTF-8 and holds an entry.
pub open spec fn decoded_line_entry(bytes: Seq<u8>) -> Option<(Seq<char>, Seq<Seq<char>>)> {
    match euc_jp_to_utf8(bytes) {
        Some(utf8) => if valid_utf8(utf8) {
            line_entry(decode_utf8(utf8))
        } else {
            None
        },
        None => None,
    }
}

/// The next entry from `pos`, and the position after it: each line after
/// leading ASCII whitespace is skipped if it starts with `#`, if it does
/// not decode, or if it holds no entry.
pub open spec fn next_entry(input: Seq<u8>, pos: int) -> (Option<(Seq<char>, Seq<Seq<char>>)>, int)
    decreases input.len() - pos,
{
    if pos < 0 || pos >= input.len() {
        (None, pos)
    } else {
        let p = skip_ws(input, pos);
        let end = line_end(input, p);
        proof {
            lemma_skip_ws(input, pos);
            lemma_line_end(input, p);
        }
        if peek_at(input, p) == 0x23 {
            next_entry(input, end)
        } else {
            let next = if end + 1 < input.len() {
                end + 1
            } else {
                input.len() as int
            };
            match decoded_line_entry(input.subrange(p, end)) {
                Some(e) => (Some(e), next),
                None => next_entry(input, next),
            }
        }
    }
}

/// Reading an entry moves past at least one byte and not past the end.
pub proof fn lemma_next_entry_bounds(input: Seq<u8>, pos: int)
    requires
        0 <= pos <= input.len(),
    ensures
        pos <= next_entry(input, pos).1 <= input.len(),
        next_entry(input, pos).0 is Some ==> pos < next_entry(input, pos).1,
    decreases input.len() - pos,
{
    if pos < input.len() {
        let p = skip_ws(input, pos);
        lemma_skip_ws(input, pos);
        let end = line_end(input, p);
        lemma_line_end(input, p);
        if peek_at(input, p) == 0x23 {
            lemma_next_entry_bounds(input, end);
        } else {
            let next = if end + 1 < input.len() {
                end + 1
            } else {
                input.len() as int
            };
            if decoded_line_entry(input.subrange(p, end)) is None {
                lemma_next_entry_bounds(input, next);
            }
        }
    }
}

/// Every entry of the input from `pos` on, in order.
pub open spec fn entries_from(input: Seq<u8>, pos: int) -> Seq<(Seq<char>, Seq<Seq<char>>)>
    decreases input.len() - pos,
{
    match next_entry(input, pos) {
        (Some(e), next) => if pos < next <= input.len() {
            seq![e] + entries_from(input, next)
        } else {
            seq![e]
        },
        (None, _) => Seq::empty(),
    }
}

/// Parse the entry a line of text holds: the kanji before the first ` : `,
/// and the radicals after it, separated by whitespace.
pub fn parse_line(line: &str) -> (r: Option<OwnedEntry>)
    ensures
        match r {
            Some(e) => line_entry(line@) == Some(entry_view(e)),
            None => line_entry(line@) is None,
        },
{
    let chars = crate::text::to_chars(line);
    let len = chars.len();
    if len < 3 {
        assert(find_separator(line@, 0) is None);
        return None;
    }
    let mut i: usize = 0;
    while i <= len - 3 && !(chars[i] == ' ' && chars[i + 1] == ':' && chars[i + 2] == ' ')
        invariant
            chars@ == line@,
            len == line@.len(),
            3 <= len,
            i <= len - 2,
            find_separator(line@, 0) == find_separator(line@, i as int),
        decreases len - i,
    {
        i = i + 1;
    }
    if i > len - 3 {
        return None;
    }
    let kanji = String::from_str(line.substring_char(0, i));
    let rest = line.substring_char(i + 3, len);
    let radicals = words(rest);
    Some(OwnedEntry { kanji, radicals })
}

/// The words of a text: its runs of characters other than whitespace.
fn words(s: &str) -> (r: Vec<String>)
    ensures
        r@.map_values(|w: String| w@) == words_from(s@, 0),
{
    let chars = crate::text::to_chars(s);
    let len = chars.len();
    let mut out: Vec<String> = Vec::new();
    let mut i: usize = 0;
    while i < len
        invariant
            chars@ == s@,
            len == s@.len(),
            i <= len,
            out@.map_values(|w: String| w@) + words_from(s@, i as int) == words_from(s@, 0),
        decreases len - i,
    {
        let ghost before = out@;
        proof {
            lemma_skip_ws_forward(s@, i as int);
        }
        let mut a = i;
        while a < len && is_whitespace(chars[a])
            invariant
                chars@ == s@,
                len == s@.len(),
                i <= a <= len,
                skip_ws_forward(s@, i as int) == skip_ws_forward(s@, a as int),
            decreases len - a,
        {
            a = a + 1;
        }
        if a == len {
            assert(words_from(s@, i as int) =~= Seq::<Seq<char>>::empty());
            assert(out@.map_values(|w: String| w@) =~= out@.map_values(|w: String| w@) + words_from(s@, i as int));
            i = len;
        } else {
            let mut b = a;
            while b < len && !is_whitespace(chars[b])
                invariant
                    chars@ == s@,
                    len == s@.len(),
                    a <= b <= len,
                    word_end(s@, a as int) == word_end(s@, b as int),
                decreases len - b,
            {
                b = b + 1;
            }
            proof {
                lemma_word_end(s@, a as int);
            }
            let word = String::from_str(s.substring_char(a, b));
            out.push(word);
            proof {
                assert(out@.map_values(|w: String| w@) =~= before.map_values(|w: String| w@).push(
                    s@.subrange(a as int, b as int),
                ));
                assert(words_from(s@, i as int) == seq![s@.subrange(a as int, b as int)]
                    + words_from(s@, b as int));
                assert(out@.map_values(|w: String| w@) + words_from(s@, b as int) =~= before.map_values(
                    |w: String| w@,
                ) + words_from(s@, i as int));
            }
            i = b;
        }
    }
    assert(words_from(s@, len as int) =~= Seq::<Seq<char>>::empty());
    assert(out@.map_values(|w: String| w@) =~= out@.map_values(|w: String| w@) + words_from(s@, len as int));
    out
}

/// A KRADFILE parser.
pub struct Parser<'a> {
    input: &'a [u8],
    pos: usize,
}

impl<'a> Parser<'a> {
    /// The bytes being parsed.
    pub closed spec fn input(&self) -> Seq<u8> {
        self.input@
    }

    /// The position of the next byte.
    pub closed spec fn pos(&self) -> int {
        self.pos as int
    }

    /// Construct a new KRADFILE parser.
    pub fn new(input: &'a [u8]) -> (r: Self)
        ensures
            r.input() == input@,
            r.pos() == 0,
    {
        Self { input, pos: 0 }
    }

    /// Step to the next byte, staying at the end.
    pub fn advance(&mut self)
        ensures
            final(self).input() == old(self).input(),
            final(self).pos() == if old(self).pos() + 1 < old(self).input().len() {
                old(self).pos() + 1
            } else {
                old(self).input().len() as int
            },
    {
        let len = self.input.len();
        self.pos = if self.pos < len && self.pos + 1 < len {
            self.pos + 1
        } else {
            len
        };
    }

    /// Peek the next byte, zero at the end.
    pub fn peek(&mut self) -> (r: u8)
        ensures
            *final(self) == *old(self),
            r == peek_at(old(self).input(), old(self).pos()),
    {
        if self.pos < self.input.len() {
            self.input[self.pos]
        } else {
            0
        }
    }

    /// Parse the next entry.
    pub fn parse(&mut self) -> (r: Option<OwnedEntry>)
        requires
            old(self).pos() <= old(self).input().len(),
        ensures
            final(self).input() == old(self).input(),
            match r {
                Some(e) => next_entry(old(self).input(), old(self).pos()) == (
                    Some(entry_view(e)),
                    final(self).pos(),
                ),
                None => next_entry(old(self).input(), old(self).pos()) == (
                    None::<(Seq<char>, Seq<Seq<char>>)>,
                    final(self).pos(),
                ),
            },
    {
        let len = self.input.len();
        let ghost input = self.input@;
        while self.pos < len
            invariant
                self.input@ == input,
                input == old(self).input@,
                len == input.len(),
                self.pos <= len,
                next_entry(input, old(self).pos()) == next_entry(input, self.pos as int),
            decreases len - self.pos,
        {
            let ghost start_pos = self.pos as int;
            proof {
                lemma_skip_ws(input, start_pos);
            }
            while self.pos < len && is_ascii_whitespace(self.input[self.pos])
                invariant
                    self.input@ == input,
                    len == input.len(),
                    start_pos <= self.pos <= len,
                    skip_ws(input, start_pos) == skip_ws(input, self.pos as int),
                decreases len - self.pos,
            {
                self.pos = self.pos + 1;
            }
            let p = self.pos;
            proof {
                lemma_line_end(input, p as int);
            }
            while self.pos < len && self.input[self.pos] != 0x0a && self.input[self.pos] != 0
                invariant
                    self.input@ == input,
                    len == input.len(),
                    p <= self.pos <= len,
                    line_end(input, p as int) == line_end(input, self.pos as int),
                decreases len - self.pos,
            {
                self.pos = self.pos + 1;
            }
            let end = self.pos;
            if p < len && self.input[p] == 0x23 {
                continue;
            }
            self.pos = if end < len {
                end + 1
            } else {
                len
            };
            let bytes = slice_of(self.input, p, end);
            let decoded = match decode_euc_jp(bytes) {
                Some(decoded) => decoded,
                None => continue,
            };
            let line = match str_from_utf8(decoded.as_slice()) {
                Some(line) => line,
                None => continue,
            };
            match parse_line(line) {
                Some(entry) => {
                    assert(self.input@ == input);
                    return Some(entry);
                },
                None => {},
            }
        }
        None
    }
}

/// The bytes of a slice from `start` to `end`.
fn slice_of(input: &[u8], start: usize, end: usize) -> (r: &[u8])
    requires
        start <= end <= input@.len(),
    ensures
        r@ == input@.subrange(start as int, end as int),
{
    let (head, _) = input.split_at(end);
    let (_, r) = head.split_at(start);
    r
}

/// A byte of ASCII whitespace.
fn is_ascii_whitespace(b: u8) -> (r: bool)
    ensures
        r == is_ascii_ws(b),
{
    b == 0x20 || b == 0x09 || b == 0x0a || b == 0x0c || b == 0x0d
}

} // verus!
