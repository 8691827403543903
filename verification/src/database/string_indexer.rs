//! Index a collection of strings, re-using storage for any subsequent
//! sub-strings which are already registered.
//!
//! This achieves optimal string-reuse only if a collection of strings are
//! provided in descending order.

use vstd::prelude::*;
use vstd::string::*;

use crate::furigana::starts_with;
use crate::text::{byte_offset, char_len_utf8, lemma_byte_len_encode, lemma_byte_offset_take, to_chars};

verus! {

/// `a` precedes or equals `b` in lexicographic order.
pub open spec fn lex_le(a: Seq<char>, b: Seq<char>) -> bool
    decreases a.len(),
{
    if a.len() == 0 {
        true
    } else if b.len() == 0 {
        false
    } else if a[0] != b[0] {
        a[0] < b[0]
    } else {
        lex_le(a.drop_first(), b.drop_first())
    }
}

/// The UTF-8 bytes of a character sequence.
pub open spec fn utf8(s: Seq<char>) -> Seq<u8> {
    vstd::utf8::encode_utf8(s)
}

proof fn lemma_utf8_concat(a: Seq<char>, b: Seq<char>)
    ensures
        utf8(a + b) == utf8(a) + utf8(b),
    decreases a.len(),
{
    if a.len() == 0 {
        assert(a + b =~= b);
        assert(utf8(a) =~= Seq::<u8>::empty());
    } else {
        lemma_utf8_concat(a.drop_first(), b);
        assert((a + b).drop_first() =~= a.drop_first() + b);
        assert((a + b)[0] == a[0]);
    }
}

/// A reference to a string stored in a buffer: its offset and its length
/// in bytes.
#[derive(Clone, Copy, Debug, PartialEq, Eq, Structural)]
pub struct StrRef {
    pub offset: usize,
    pub len: usize,
}

/// The buffer holds the bytes of `s` at `offset`.
pub open spec fn holds(buf: Seq<u8>, offset: int, s: Seq<char>) -> bool {
    0 <= offset && offset + utf8(s).len() <= buf.len() && buf.subrange(offset, offset + utf8(s).len())
        == utf8(s)
}

/// `t` occurs in `s`.
pub open spec fn is_substring(t: Seq<char>, s: Seq<char>) -> bool {
    exists|a: int| 0 <= a && a + t.len() <= s.len() && #[trigger] s.subrange(a, a + t.len()) == t
}

/// `t` occurs in one of `strings`.
pub open spec fn in_some(strings: Seq<Seq<char>>, t: Seq<char>) -> bool {
    exists|k: int| 0 <= k < strings.len() && is_substring(t, #[trigger] strings[k])
}

/// An indexer of stored strings.
pub struct StringIndexer<'a> {
    existing: Vec<(&'a str, usize)>,
    reuse: usize,
    total: usize,
    /// The strings given to the indexer so far.
    given: Ghost<Seq<Seq<char>>>,
}

impl<'a> StringIndexer<'a> {
    /// The registered strings with the offsets they are stored at.
    pub closed spec fn entries(&self) -> Seq<(Seq<char>, int)> {
        self.existing@.map_values(|e: (&'a str, usize)| (e.0@, e.1 as int))
    }

    /// The number of re-used strings.
    pub closed spec fn spec_reuse(&self) -> int {
        self.reuse as int
    }

    /// The number of stored strings.
    pub closed spec fn spec_total(&self) -> int {
        self.total as int
    }

    /// The strings given to the indexer so far, in turn.
    pub closed spec fn given(&self) -> Seq<Seq<char>> {
        self.given@
    }

    /// Some registered string starts with `t`.
    pub open spec fn covered(&self, t: Seq<char>) -> bool {
        exists|j: int| 0 <= j < self.entries().len() && starts_with(#[trigger] self.entries()[j].0, t)
    }

    /// Each registered string occurs in a string given so far, and each
    /// suffix of a string given so far starts some registered string.
    pub open spec fn registers_given(&self) -> bool {
        &&& forall|i: int|
            0 <= i < self.entries().len() ==> in_some(self.given(), (#[trigger] self.entries()[i]).0)
        &&& forall|k: int, p: int|
            0 <= k < self.given().len() && 0 <= p <= self.given()[k].len() ==> self.covered(
                #[trigger] self.given()[k].skip(p),
            )
    }

    /// Every registered string is stored in `buf` at its offset, no string
    /// is registered twice, and the registered strings are those which the
    /// strings given so far hold.
    pub open spec fn stored_in(&self, buf: Seq<u8>) -> bool {
        &&& self.held_in(buf)
        &&& self.registers_given()
    }

    /// Every registered string is stored in `buf` at its offset, and no
    /// string is registered twice.
    pub open spec fn held_in(&self, buf: Seq<u8>) -> bool {
        &&& forall|i: int|
            0 <= i < self.entries().len() ==> holds(
                buf,
                (#[trigger] self.entries()[i]).1,
                self.entries()[i].0,
            )
        &&& forall|i: int, j: int|
            0 <= i < j < self.entries().len() ==> (#[trigger] self.entries()[i]).0 != (#[trigger] self.entries()[j]).0
        &&& self.spec_reuse() <= self.spec_total()
    }

    /// The entry found for `input`: the lexicographically first registered
    /// string which starts with `input`.
    pub open spec fn is_found(&self, input: Seq<char>, k: int) -> bool {
        &&& 0 <= k < self.entries().len()
        &&& starts_with(self.entries()[k].0, input)
        &&& forall|j: int|
            0 <= j < self.entries().len() && starts_with(#[trigger] self.entries()[j].0, input)
                ==> lex_le(self.entries()[k].0, self.entries()[j].0)
    }

    /// No registered string starts with `input`.
    pub open spec fn not_found(&self, input: Seq<char>) -> bool {
        forall|j: int| 0 <= j < self.entries().len() ==> !starts_with(#[trigger] self.entries()[j].0, input)
    }

    /// An empty indexer.
    pub fn new() -> (r: Self)
        ensures
            r.entries().len() == 0,
            r.spec_reuse() == 0,
            r.spec_total() == 0,
            r.given() == Seq::<Seq<char>>::empty(),
            r.stored_in(Seq::empty()),
    {
        let existing: Vec<(&'a str, usize)> = Vec::new();
        let r = Self { existing, reuse: 0, total: 0, given: Ghost(Seq::empty()) };
        assert(r.entries() =~= Seq::empty());
        r
    }

    /// Get the number of re-used strings in the collection.
    pub fn reuse(&self) -> (r: usize)
        ensures
            r == self.spec_reuse(),
    {
        self.reuse
    }

    /// Get the number of total strings in the collection.
    pub fn total(&self) -> (r: usize)
        ensures
            r == self.spec_total(),
    {
        self.total
    }

    /// Find the stored string which `input` is a prefix of.
    fn find(&self, chars: &Vec<char>, from: usize) -> (r: Option<usize>)
        requires
            from <= chars@.len(),
        ensures
            match r {
                Some(k) => self.is_found(chars@.skip(from as int), k as int),
                None => self.not_found(chars@.skip(from as int)),
            },
    {
        let ghost input = chars@.skip(from as int);
        let mut best: Option<usize> = None;
        let mut i: usize = 0;
        while i < self.existing.len()
            invariant
                from <= chars@.len(),
                input == chars@.skip(from as int),
                i <= self.entries().len(),
                self.entries().len() == self.existing@.len(),
                match best {
                    Some(k) => k < i && starts_with(self.entries()[k as int].0, input)
                        && forall|j: int|
                        0 <= j < i && starts_with(#[trigger] self.entries()[j].0, input) ==> lex_le(
                            self.entries()[k as int].0,
                            self.entries()[j].0,
                        ),
                    None => forall|j: int| 0 <= j < i ==> !starts_with(#[trigger] self.entries()[j].0, input),
                },
            decreases self.existing@.len() - i,
        {
            let key = to_chars(self.existing[i].0);
            assert(key@ == self.entries()[i as int].0);
            if chars_start_with(&key, chars, from) {
                match best {
                    None => {
                        proof {
                            lemma_lex_refl(key@);
                        }
                        best = Some(i);
                    },
                    Some(k) => {
                        let current = to_chars(self.existing[k].0);
                        assert(current@ == self.entries()[k as int].0);
                        if !lex_le_exec(&current, &key) {
                            proof {
                                lemma_lex_total(self.entries()[k as int].0, key@);
                                assert forall|j: int|
                                    0 <= j < i + 1 && starts_with(#[trigger] self.entries()[j].0, input) implies lex_le(
                                    key@,
                                    self.entries()[j].0,
                                ) by {
                                    if j < i {
                                        lemma_lex_trans(key@, self.entries()[k as int].0, self.entries()[j].0);
                                    } else {
                                        lemma_lex_refl(key@);
                                    }
                                }
                            }
                            best = Some(i);
                        }
                    },
                }
            }
            i = i + 1;
        }
        best
    }

    /// Store the given string while possibly re-using storage for it,
    /// returning where it is stored.
    pub fn store(&mut self, buf: &mut Vec<u8>, input: &'a str) -> (r: StrRef)
        requires
            old(self).stored_in(old(buf)@),
            old(self).spec_total() < usize::MAX,
            old(buf)@.len() + utf8(input@).len() <= usize::MAX,
        ensures
            final(self).stored_in(final(buf)@),
            final(self).spec_total() == old(self).spec_total() + 1,
            final(self).given() == old(self).given().push(input@),
            final(self).spec_reuse() == old(self).spec_reuse() + if in_some(old(self).given(), input@) {
                1int
            } else {
                0int
            },
            holds(final(buf)@, r.offset as int, input@),
            r.len == utf8(input@).len(),
            old(self).not_found(input@) ==> {
                &&& final(self).spec_reuse() == old(self).spec_reuse()
                &&& r.offset == old(buf)@.len()
                &&& final(buf)@ == old(buf)@ + utf8(input@)
            },
            !old(self).not_found(input@) ==> {
                &&& final(self).spec_reuse() == old(self).spec_reuse() + 1
                &&& final(buf)@ == old(buf)@
                &&& exists|k: int| old(self).is_found(input@, k) && r.offset == old(self).entries()[k].1
            },
    {
        proof {
            old(self).lemma_covered_iff(input@);
        }
        self.total = self.total + 1;
        let chars = to_chars(input);
        let bytes = input.as_bytes();
        let len = bytes.len();
        assert(chars@.skip(0) =~= input@);
        let ghost entries0 = old(self).entries();
        if let Some(k) = self.find(&chars, 0) {
            self.reuse = self.reuse + 1;
            let offset = self.existing[k].1;
            proof {
                assert(entries0 == self.entries());
                assert(old(self).is_found(input@, k as int));
                let key = entries0[k as int].0;
                assert(offset == entries0[k as int].1);
                assert(holds(buf@, offset as int, key));
                let rest = key.skip(input@.len() as int);
                assert(key =~= input@ + rest);
                lemma_utf8_concat(input@, rest);
                let l = utf8(input@).len();
                assert(buf@.subrange(offset as int, offset + l) =~= utf8(key).subrange(0, l as int));
                assert(utf8(key).subrange(0, l as int) =~= utf8(input@));
            }
            proof {
                self.given@ = self.given@.push(input@);
                assert(old(self).covered(input@));
                old(self).lemma_covered_substring(input@);
                lemma_registers_after(*old(self), *self, input@);
            }
            return StrRef { offset, len };
        }
        let base = buf.len();
        let mut b: usize = 0;
        while b < len
            invariant
                len == bytes@.len(),
                bytes@ == utf8(input@),
                base == old(buf)@.len(),
                b <= len,
                buf@ == old(buf)@ + bytes@.take(b as int),
                base + len <= usize::MAX,
            decreases len - b,
        {
            buf.push(bytes[b]);
            assert(bytes@.take(b + 1) =~= bytes@.take(b as int).push(bytes@[b as int]));
            b = b + 1;
        }
        assert(bytes@.take(len as int) =~= bytes@);
        // The strings registered so far are still stored.
        proof {
            assert(self.entries() == entries0);
            assert forall|j: int| 0 <= j < self.entries().len() implies holds(
                buf@,
                (#[trigger] self.entries()[j]).1,
                self.entries()[j].0,
            ) by {
                lemma_holds_extend(old(buf)@, utf8(input@), entries0[j].1, entries0[j].0);
            }
        }
        // The input and each of its suffixes are registered.
        let n = chars.len();
        let mut i: usize = 0;
        let mut o: usize = base;
        loop
            invariant_except_break
                forall|p: int| 0 <= p < i ==> self.covered(#[trigger] input@.skip(p)),
            invariant
                chars@ == input@,
                n == input@.len(),
                i <= n,
                len == utf8(input@).len(),
                base + len <= usize::MAX,
                base == old(buf)@.len(),
                buf@ == old(buf)@ + utf8(input@),
                o == base + byte_offset(input@, i as int),
                self.held_in(buf@),
                self.given() == old(self).given(),
                self.entries().len() >= old(self).entries().len(),
                forall|j: int| 0 <= j < old(self).entries().len() ==> #[trigger] self.entries()[j] == old(self).entries()[j],
                forall|j: int|
                    old(self).entries().len() <= j < self.entries().len() ==> is_substring(
                        (#[trigger] self.entries()[j]).0,
                        input@,
                    ),
                self.spec_total() == old(self).spec_total() + 1,
                self.reuse == old(self).reuse,
            ensures
                forall|p: int| 0 <= p <= n ==> self.covered(#[trigger] input@.skip(p)),
            decreases n - i,
        {
            proof {
                lemma_suffix_held(old(buf)@, input@, i as int);
            }
            let ghost rest = chars@.skip(i as int);
            let found = self.find(&chars, i);
            if let Some(k) = found {
                assert(starts_with(self.entries()[k as int].0, input@.skip(i as int)));
                assert(self.covered(input@.skip(i as int)));
            } else {
                let suffix = input.substring_char(i, n);
                let ghost before = self.entries();
                let ghost prev = *self;
                self.existing.push((suffix, o));
                proof {
                    assert forall|p: int| 0 <= p < i implies self.covered(#[trigger] input@.skip(p)) by {
                        assert(prev.covered(input@.skip(p)));
                        let j = choose|j: int|
                            0 <= j < prev.entries().len() && starts_with(#[trigger] prev.entries()[j].0, input@.skip(p));
                        assert(self.entries()[j] == prev.entries()[j]);
                    }
                    assert(input@.subrange(i as int, i + suffix@.len()) =~= suffix@);
                    assert(is_substring(suffix@, input@));
                    let after = self.entries();
                    assert(after =~= before.push((suffix@, o as int)));
                    assert(suffix@ =~= rest);
                    assert(starts_with(suffix@, suffix@)) by {
                        assert(suffix@.take(suffix@.len() as int) =~= suffix@);
                    }
                    assert forall|a: int, c: int| 0 <= a < c < after.len() implies (#[trigger] after[a]).0 != (#[trigger] after[c]).0 by {
                        if c == after.len() - 1 {
                            assert(!starts_with(before[a].0, rest));
                        }
                    }
                    assert(starts_with(after[after.len() - 1].0, input@.skip(i as int)));
                    assert(self.covered(input@.skip(i as int)));
                }
            }
            if i == n {
                break;
            }
            proof {
                crate::text::lemma_byte_offset_step(input@, i as int);
                lemma_byte_offset_fits(input@, i as int + 1);
            }
            o = o + char_len_utf8(chars[i]);
            i = i + 1;
        }
        proof {
            assert(utf8(input@).len() == len);
            assert(buf@.subrange(base as int, base + len) =~= utf8(input@));
            self.given@ = self.given@.push(input@);
            lemma_registers_after(*old(self), *self, input@);
        }
        StrRef { offset: base, len }
    }
}

/// A prefix of a prefix is a prefix.
proof fn lemma_prefix_trans(a: Seq<char>, b: Seq<char>, c: Seq<char>)
    requires
        starts_with(a, b),
        starts_with(b, c),
    ensures
        starts_with(a, c),
{
    assert(a.take(c.len() as int) =~= b.take(c.len() as int));
}

impl<'a> StringIndexer<'a> {
    /// Some registered string starts with `t` exactly when `t` occurs in a
    /// string given so far.
    proof fn lemma_covered_iff(&self, t: Seq<char>)
        requires
            self.registers_given(),
        ensures
            self.covered(t) <==> in_some(self.given(), t),
    {
        let given = self.given();
        if self.covered(t) {
            let j = choose|j: int| 0 <= j < self.entries().len() && starts_with(#[trigger] self.entries()[j].0, t);
            let e = self.entries()[j].0;
            assert(in_some(given, e));
            let k = choose|k: int| 0 <= k < given.len() && is_substring(e, #[trigger] given[k]);
            let a = choose|a: int|
                0 <= a && a + e.len() <= given[k].len() && #[trigger] given[k].subrange(a, a + e.len()) == e;
            assert(given[k].subrange(a, a + t.len()) =~= e.take(t.len() as int));
            assert(is_substring(t, given[k]));
        }
        if in_some(given, t) {
            let k = choose|k: int| 0 <= k < given.len() && is_substring(t, #[trigger] given[k]);
            let a = choose|a: int|
                0 <= a && a + t.len() <= given[k].len() && #[trigger] given[k].subrange(a, a + t.len()) == t;
            let suf = given[k].skip(a);
            assert(self.covered(suf));
            let j = choose|j: int| 0 <= j < self.entries().len() && starts_with(#[trigger] self.entries()[j].0, suf);
            assert(suf.take(t.len() as int) =~= given[k].subrange(a, a + t.len()));
            lemma_prefix_trans(self.entries()[j].0, suf, t);
        }
    }

    /// Each suffix of a string which occurs in a string given so far starts
    /// some registered string.
    proof fn lemma_covered_substring(&self, t: Seq<char>)
        requires
            self.registers_given(),
            in_some(self.given(), t),
        ensures
            forall|p: int| 0 <= p <= t.len() ==> self.covered(#[trigger] t.skip(p)),
    {
        let given = self.given();
        let k = choose|k: int| 0 <= k < given.len() && is_substring(t, #[trigger] given[k]);
        let a = choose|a: int|
            0 <= a && a + t.len() <= given[k].len() && #[trigger] given[k].subrange(a, a + t.len()) == t;
        assert forall|p: int| 0 <= p <= t.len() implies self.covered(#[trigger] t.skip(p)) by {
            let suf = given[k].skip(a + p);
            assert(self.covered(suf));
            let j = choose|j: int| 0 <= j < self.entries().len() && starts_with(#[trigger] self.entries()[j].0, suf);
            assert(suf.take(t.skip(p).len() as int) =~= t.skip(p));
            lemma_prefix_trans(self.entries()[j].0, suf, t.skip(p));
        }
    }
}

/// The registered strings still hold what the given ones do once a string
/// `t` is given, where the strings registered meanwhile occur in `t` and
/// each suffix of `t` starts a registered string.
proof fn lemma_registers_after<'a>(before: StringIndexer<'a>, after: StringIndexer<'a>, t: Seq<char>)
    requires
        before.registers_given(),
        after.given() == before.given().push(t),
        after.entries().len() >= before.entries().len(),
        forall|j: int| 0 <= j < before.entries().len() ==> #[trigger] after.entries()[j] == before.entries()[j],
        forall|j: int|
            before.entries().len() <= j < after.entries().len() ==> is_substring(
                (#[trigger] after.entries()[j]).0,
                t,
            ),
        forall|p: int| 0 <= p <= t.len() ==> after.covered(#[trigger] t.skip(p)),
    ensures
        after.registers_given(),
{
    let g0 = before.given();
    let g1 = after.given();
    assert forall|i: int| 0 <= i < after.entries().len() implies in_some(g1, (#[trigger] after.entries()[i]).0) by {
        let e = after.entries()[i].0;
        if i < before.entries().len() {
            assert(in_some(g0, before.entries()[i].0));
            let k = choose|k: int| 0 <= k < g0.len() && is_substring(e, #[trigger] g0[k]);
            assert(g1[k] == g0[k]);
        } else {
            assert(g1[g0.len() as int] == t);
        }
    }
    assert forall|k: int, p: int| 0 <= k < g1.len() && 0 <= p <= g1[k].len() implies after.covered(
        #[trigger] g1[k].skip(p),
    ) by {
        if k < g0.len() {
            assert(g1[k] == g0[k]);
            assert(before.covered(g0[k].skip(p)));
            let j = choose|j: int|
                0 <= j < before.entries().len() && starts_with(#[trigger] before.entries()[j].0, g0[k].skip(p));
            assert(after.entries()[j] == before.entries()[j]);
        } else {
            assert(g1[k] == t);
        }
    }
}

/// Test if `key` starts with `chars[from..]`.
fn chars_start_with(key: &Vec<char>, chars: &Vec<char>, from: usize) -> (r: bool)
    requires
        from <= chars@.len(),
    ensures
        r == starts_with(key@, chars@.skip(from as int)),
{
    let cl = chars.len();
    let n = cl - from;
    if n > key.len() {
        return false;
    }
    let mut t: usize = 0;
    while t < n
        invariant
            cl == chars@.len(),
            from + n == chars@.len(),
            n <= key@.len(),
            t <= n,
            key@.subrange(0, t as int) == chars@.subrange(from as int, from + t),
        decreases n - t,
    {
        if key[t] != chars[from + t] {
            assert(key@.take(n as int)[t as int] != chars@.skip(from as int)[t as int]);
            return false;
        }
        assert(key@.subrange(0, t + 1) =~= key@.subrange(0, t as int).push(key@[t as int]));
        assert(chars@.subrange(from as int, from + t + 1) =~= chars@.subrange(from as int, from + t).push(chars@[from + t]));
        t = t + 1;
    }
    assert(key@.take(n as int) =~= key@.subrange(0, n as int));
    assert(chars@.skip(from as int) =~= chars@.subrange(from as int, from + n));
    true
}

/// Compare two character sequences lexicographically.
fn lex_le_exec(a: &Vec<char>, b: &Vec<char>) -> (r: bool)
    ensures
        r == lex_le(a@, b@),
{
    let mut i: usize = 0;
    assert(a@.skip(0) =~= a@);
    assert(b@.skip(0) =~= b@);
    while i < a.len()
        invariant
            i <= a@.len(),
            i <= b@.len(),
            a@.take(i as int) == b@.take(i as int),
            lex_le(a@, b@) == lex_le(a@.skip(i as int), b@.skip(i as int)),
        decreases a@.len() - i,
    {
        if i >= b.len() {
            return false;
        }
        if a[i] != b[i] {
            return a[i] < b[i];
        }
        assert(a@.skip(i as int).drop_first() =~= a@.skip(i + 1));
        assert(b@.skip(i as int).drop_first() =~= b@.skip(i + 1));
        assert(a@.take(i + 1) =~= a@.take(i as int).push(a@[i as int]));
        assert(b@.take(i + 1) =~= b@.take(i as int).push(b@[i as int]));
        i = i + 1;
    }
    true
}

proof fn lemma_lex_refl(a: Seq<char>)
    ensures
        lex_le(a, a),
    decreases a.len(),
{
    if a.len() > 0 {
        lemma_lex_refl(a.drop_first());
    }
}

proof fn lemma_lex_total(a: Seq<char>, b: Seq<char>)
    ensures
        lex_le(a, b) || lex_le(b, a),
    decreases a.len(),
{
    if a.len() > 0 && b.len() > 0 && a[0] == b[0] {
        lemma_lex_total(a.drop_first(), b.drop_first());
    }
}

proof fn lemma_lex_trans(a: Seq<char>, b: Seq<char>, c: Seq<char>)
    requires
        lex_le(a, b),
        lex_le(b, c),
    ensures
        lex_le(a, c),
    decreases a.len(),
{
    if a.len() > 0 && b.len() > 0 && c.len() > 0 && a[0] == b[0] && b[0] == c[0] {
        lemma_lex_trans(a.drop_first(), b.drop_first(), c.drop_first());
    }
}

/// Each suffix of a string appended to a buffer is held in the buffer.
proof fn lemma_suffix_held(buf: Seq<u8>, input: Seq<char>, i: int)
    requires
        0 <= i <= input.len(),
    ensures
        holds(buf + utf8(input), buf.len() + byte_offset(input, i), input.skip(i)),
        buf.len() + byte_offset(input, i) <= buf.len() + utf8(input).len(),
{
    lemma_byte_offset_take(input, i);
    crate::text::lemma_byte_len_encode(input.take(i));
    lemma_utf8_concat(input.take(i), input.skip(i));
    assert(input.take(i) + input.skip(i) =~= input);
    let whole = buf + utf8(input);
    let off = buf.len() + byte_offset(input, i);
    assert(whole.subrange(off, off + utf8(input.skip(i)).len()) =~= utf8(input.skip(i)));
}

/// What a buffer holds it still holds once bytes are appended to it.
proof fn lemma_holds_extend(buf: Seq<u8>, ext: Seq<u8>, offset: int, s: Seq<char>)
    requires
        holds(buf, offset, s),
    ensures
        holds(buf + ext, offset, s),
{
    let l = utf8(s).len();
    assert((buf + ext).subrange(offset, offset + l) =~= buf.subrange(offset, offset + l));
}

proof fn lemma_byte_offset_fits(input: Seq<char>, i: int)
    requires
        0 <= i <= input.len(),
    ensures
        byte_offset(input, i) <= utf8(input).len(),
{
    crate::text::lemma_byte_offset_mono(input, i, input.len() as int);
    lemma_byte_offset_take(input, input.len() as int);
    assert(input.take(input.len() as int) =~= input);
    lemma_byte_len_encode(input);
}

} // verus!
