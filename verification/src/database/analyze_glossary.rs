//! Breaking up a glossary into the terms which should be searchable.
//!
//! Such as `to read, to write (something)` => `["to", "to read", "to", "to
//! write", "something", "to write (something)"]`.

use vstd::prelude::*;
use vstd::string::*;

use crate::text::{spec_trim, to_chars, trim};

verus! {

/// The index of the first character of `s[o..]` which is not a space.
pub open spec fn skip_spaces(s: Seq<char>, o: int) -> int
    decreases s.len() - o,
{
    if 0 <= o < s.len() && s[o] == ' ' {
        skip_spaces(s, o + 1)
    } else {
        o
    }
}

/// A character which ends a term.
pub open spec fn is_term_end(c: char) -> bool {
    c == ' ' || c == ')' || c == ','
}

/// The index of the first character of `s[o..]` which ends a term.
pub open spec fn until_term(s: Seq<char>, o: int) -> int
    decreases s.len() - o,
{
    if 0 <= o < s.len() && !is_term_end(s[o]) {
        until_term(s, o + 1)
    } else {
        o
    }
}

/// The state of the analysis: the start of the current comma-separated
/// phrase, the starts of the open parentheses and the current position.
pub struct GlossaryState {
    pub base: int,
    pub parens: Seq<int>,
    pub o: int,
}

/// The start of the innermost open parenthesis, or the phrase start.
pub open spec fn term_start(base: int, parens: Seq<int>) -> int {
    if parens.len() > 0 {
        parens.last()
    } else {
        base
    }
}

/// The next term of the glossary `s` as a character range, together with
/// the state after producing it.
pub open spec fn next_term(s: Seq<char>, st: GlossaryState) -> (Option<(int, int)>, GlossaryState)
    decreases s.len() - st.o,
{
    let o1 = skip_spaces(s, st.o);
    if o1 < 0 || o1 >= s.len() {
        (None, GlossaryState { o: o1, ..st })
    } else if s[o1] == ',' {
        if st.parens.len() == 0 {
            let o3 = skip_spaces(s, o1 + 1);
            if o3 > st.o && o3 <= s.len() {
                next_term(s, GlossaryState { base: o3, parens: st.parens, o: o3 })
            } else {
                (None, st)
            }
        } else if o1 + 1 > st.o {
            next_term(s, GlossaryState { base: st.base, parens: st.parens, o: o1 + 1 })
        } else {
            (None, st)
        }
    } else if s[o1] == '(' {
        if o1 + 1 > st.o {
            next_term(s, GlossaryState { base: st.base, parens: st.parens.push(o1 + 1), o: o1 + 1 })
        } else {
            (None, st)
        }
    } else if s[o1] == ')' {
        let p2 = if st.parens.len() > 0 {
            st.parens.drop_last()
        } else {
            st.parens
        };
        (Some((term_start(st.base, p2), o1 + 1)), GlossaryState { base: st.base, parens: p2, o: o1 + 1 })
    } else {
        let o2 = until_term(s, o1);
        (Some((term_start(st.base, st.parens), o2)), GlossaryState { base: st.base, parens: st.parens, o: o2 })
    }
}

/// All remaining terms of the glossary `s` from the state `st`.
pub open spec fn all_terms(s: Seq<char>, st: GlossaryState) -> Seq<(int, int)>
    decreases s.len() - st.o,
{
    let (t, st2) = next_term(s, st);
    match t {
        None => Seq::empty(),
        Some(term) => if st.o < st2.o <= s.len() {
            seq![term] + all_terms(s, st2)
        } else {
            seq![term]
        },
    }
}

/// Producing a term moves the analysis forward.
pub proof fn lemma_next_term_progress(s: Seq<char>, st: GlossaryState)
    requires
        0 <= st.o <= s.len(),
    ensures
        ({
            let (t, st2) = next_term(s, st);
            &&& st.o <= st2.o <= s.len()
            &&& t is Some ==> st2.o > st.o
        }),
    decreases s.len() - st.o,
{
    lemma_skip_spaces(s, st.o);
    let o1 = skip_spaces(s, st.o);
    if 0 <= o1 < s.len() {
        if s[o1] == ',' {
            if st.parens.len() == 0 {
                lemma_skip_spaces(s, o1 + 1);
                let o3 = skip_spaces(s, o1 + 1);
                if o3 > st.o && o3 <= s.len() {
                    lemma_next_term_progress(s, GlossaryState { base: o3, parens: st.parens, o: o3 });
                }
            } else {
                lemma_next_term_progress(s, GlossaryState { base: st.base, parens: st.parens, o: o1 + 1 });
            }
        } else if s[o1] == '(' {
            lemma_next_term_progress(s, GlossaryState { base: st.base, parens: st.parens.push(o1 + 1), o: o1 + 1 });
        } else if s[o1] != ')' {
            lemma_until_term(s, o1);
        }
    }
}

/// The analysis gives no more terms than characters are left.
pub proof fn lemma_all_terms_count(s: Seq<char>, st: GlossaryState)
    requires
        0 <= st.o <= s.len(),
    ensures
        all_terms(s, st).len() <= s.len() - st.o,
    decreases s.len() - st.o,
{
    lemma_next_term_progress(s, st);
    let (t, st2) = next_term(s, st);
    if t is Some && st.o < st2.o <= s.len() {
        lemma_all_terms_count(s, st2);
    }
}

/// A state of the analysis of `s`: the start of the current term and of
/// each open parenthesis lie between the start of `s` and the position.
pub open spec fn state_in(s: Seq<char>, st: GlossaryState) -> bool {
    &&& 0 <= st.base <= st.o <= s.len()
    &&& forall|i: int| 0 <= i < st.parens.len() ==> 0 <= #[trigger] st.parens[i] <= st.o
}

proof fn lemma_next_term_range(s: Seq<char>, st: GlossaryState)
    requires
        state_in(s, st),
    ensures
        ({
            let (t, st2) = next_term(s, st);
            &&& state_in(s, st2)
            &&& t matches Some((a, b)) ==> 0 <= a < b <= s.len()
        }),
    decreases s.len() - st.o,
{
    lemma_skip_spaces(s, st.o);
    let o1 = skip_spaces(s, st.o);
    if 0 <= o1 < s.len() {
        if s[o1] == ',' {
            if st.parens.len() == 0 {
                lemma_skip_spaces(s, o1 + 1);
                let o3 = skip_spaces(s, o1 + 1);
                if o3 > st.o && o3 <= s.len() {
                    lemma_next_term_range(s, GlossaryState { base: o3, parens: st.parens, o: o3 });
                }
            } else {
                lemma_next_term_range(s, GlossaryState { base: st.base, parens: st.parens, o: o1 + 1 });
            }
        } else if s[o1] == '(' {
            let st2 = GlossaryState { base: st.base, parens: st.parens.push(o1 + 1), o: o1 + 1 };
            assert forall|i: int| 0 <= i < st2.parens.len() implies 0 <= #[trigger] st2.parens[i]
                <= st2.o by {
                if i < st.parens.len() {
                    assert(st2.parens[i] == st.parens[i]);
                }
            }
            lemma_next_term_range(s, st2);
        } else if s[o1] == ')' {
            let p2 = if st.parens.len() > 0 {
                st.parens.drop_last()
            } else {
                st.parens
            };
            assert forall|i: int| 0 <= i < p2.len() implies 0 <= #[trigger] p2[i] <= o1 + 1 by {
                assert(p2[i] == st.parens[i]);
            }
            if p2.len() > 0 {
                assert(p2.last() == p2[p2.len() - 1]);
            }
        } else {
            lemma_until_term(s, o1);
            if st.parens.len() > 0 {
                assert(st.parens.last() == st.parens[st.parens.len() - 1]);
            }
        }
    }
}

/// Every remaining term of a glossary is a non-empty range of it.
proof fn lemma_all_terms_range(s: Seq<char>, st: GlossaryState)
    requires
        state_in(s, st),
    ensures
        forall|i: int|
            0 <= i < all_terms(s, st).len() ==> 0 <= (#[trigger] all_terms(s, st)[i]).0 < all_terms(
                s,
                st,
            )[i].1 <= s.len(),
    decreases s.len() - st.o,
{
    lemma_next_term_range(s, st);
    let (t, st2) = next_term(s, st);
    let all = all_terms(s, st);
    if let Some(term) = t {
        if st.o < st2.o <= s.len() {
            lemma_all_terms_range(s, st2);
            assert forall|i: int| 0 <= i < all.len() implies 0 <= (#[trigger] all[i]).0 < all[i].1
                <= s.len() by {
                if i > 0 {
                    assert(all[i] == all_terms(s, st2)[i - 1]);
                }
            }
        }
    }
}

/// The terms of a glossary, from the start of its analysis: each is a
/// non-empty range of it (the text of the term, which [`AnalyzeGlossary::next`]
/// gives, is the glossary within that range), and there are no more of them
/// than characters.
pub proof fn lemma_glossary_terms(s: Seq<char>)
    ensures
        ({
            let terms = all_terms(s, GlossaryState { base: 0, parens: Seq::empty(), o: 0 });
            &&& terms.len() <= s.len()
            &&& forall|i: int|
                0 <= i < terms.len() ==> 0 <= (#[trigger] terms[i]).0 < terms[i].1 <= s.len()
        }),
{
    let st = GlossaryState { base: 0, parens: Seq::empty(), o: 0 };
    lemma_all_terms_count(s, st);
    lemma_all_terms_range(s, st);
}

proof fn lemma_skip_spaces(s: Seq<char>, o: int)
    requires
        0 <= o <= s.len(),
    ensures
        o <= skip_spaces(s, o) <= s.len(),
        skip_spaces(s, o) < s.len() ==> s[skip_spaces(s, o)] != ' ',
    decreases s.len() - o,
{
    if o < s.len() && s[o] == ' ' {
        lemma_skip_spaces(s, o + 1);
    }
}

proof fn lemma_until_term(s: Seq<char>, o: int)
    requires
        0 <= o <= s.len(),
    ensures
        o <= until_term(s, o) <= s.len(),
        o < s.len() && !is_term_end(s[o]) ==> until_term(s, o) > o,
    decreases s.len() - o,
{
    if o < s.len() && !is_term_end(s[o]) {
        lemma_until_term(s, o + 1);
    }
}

/// Break up a glossary into the terms which should be searchable.
pub fn analyze(input: &str) -> (r: AnalyzeGlossary<'_>)
    ensures
        r.input() == spec_trim(input@),
        r.state() == (GlossaryState { base: 0, parens: Seq::empty(), o: 0 }),
        r.wf(),
{
    let input = trim(input);
    let parens: Vec<usize> = Vec::new();
    assert(parens@.map_values(|p: usize| p as int) =~= Seq::<int>::empty());
    AnalyzeGlossary { input, chars: to_chars(input), base: 0, parens, o: 0 }
}

/// An analysis of a glossary, producing its terms.
pub struct AnalyzeGlossary<'a> {
    input: &'a str,
    chars: Vec<char>,
    base: usize,
    parens: Vec<usize>,
    o: usize,
}

impl<'a> AnalyzeGlossary<'a> {
    /// The analyzed text.
    pub closed spec fn input(&self) -> Seq<char> {
        self.input@
    }

    /// The state of the analysis.
    pub closed spec fn state(&self) -> GlossaryState {
        GlossaryState {
            base: self.base as int,
            parens: self.parens@.map_values(|p: usize| p as int),
            o: self.o as int,
        }
    }

    /// Positions stay within the input and the starts of terms precede the
    /// current position.
    pub closed spec fn wf(&self) -> bool {
        &&& self.chars@ == self.input@
        &&& self.o <= self.chars@.len()
        &&& self.base <= self.o
        &&& forall|i: int| 0 <= i < self.parens@.len() ==> #[trigger] self.parens@[i] <= self.o
    }

    fn c(&self) -> (r: char)
        requires
            self.wf(),
        ensures
            r == (if self.o < self.chars@.len() {
                self.chars@[self.o as int]
            } else {
                '\0'
            }),
    {
        if self.o < self.chars.len() {
            self.chars[self.o]
        } else {
            '\0'
        }
    }

    /// Produce the next term.
    pub fn next(&mut self) -> (r: Option<&'a str>)
        requires
            old(self).wf(),
            !old(self).input().contains('\0'),
        ensures
            final(self).wf(),
            final(self).input() == old(self).input(),
            ({
                let (t, st) = next_term(old(self).input(), old(self).state());
                &&& final(self).state() == st
                &&& match t {
                    None => r is None,
                    Some((a, b)) => r is Some && r->0@ == old(self).input().subrange(a, b),
                }
            }),
    {
        let ghost s = self.input@;
        let ghost goal = next_term(s, self.state());
        loop
            invariant
                self.wf(),
                self.input@ == s,
                s == old(self).input(),
                goal == next_term(old(self).input(), old(self).state()),
                !s.contains('\0'),
                next_term(s, self.state()) == goal,
            decreases s.len() - self.o,
        {
            let ghost st0 = self.state();
            proof {
                lemma_skip_spaces(s, st0.o);
            }
            let n = self.chars.len();
            while self.o < n && self.chars[self.o] == ' '
                invariant
                    self.wf(),
                    self.input@ == s,
                    n == s.len(),
                    st0.base == self.base,
                    st0.parens == self.parens@.map_values(|p: usize| p as int),
                    st0.o <= self.o,
                    skip_spaces(s, st0.o) == skip_spaces(s, self.o as int),
                decreases n - self.o,
            {
                self.o = self.o + 1;
            }
            if self.o == n {
                return None;
            }
            let c = self.chars[self.o];
            assert(skip_spaces(s, self.o as int) == self.o);
            if c == ',' {
                self.o = self.o + 1;
                proof {
                    lemma_skip_spaces(s, self.o as int);
                }
                if self.parens.len() == 0 {
                    while self.o < n && self.chars[self.o] == ' '
                        invariant
                            self.wf(),
                            self.input@ == s,
                            n == s.len(),
                            self.parens@.len() == 0,
                            skip_spaces(s, skip_spaces(s, st0.o) + 1) == skip_spaces(s, self.o as int),
                        decreases n - self.o,
                    {
                        self.o = self.o + 1;
                    }
                    assert(skip_spaces(s, self.o as int) == self.o);
                    self.base = self.o;
                    assert(self.parens@.map_values(|p: usize| p as int) =~= st0.parens);
                    assert(self.state() == GlossaryState { base: self.o as int, parens: st0.parens, o: self.o as int });
                } else {
                    assert(self.state() == GlossaryState { base: st0.base, parens: st0.parens, o: self.o as int });
                }
            } else if c == '(' {
                self.o = self.o + 1;
                let ghost before = self.parens@;
                self.parens.push(self.o);
                assert(self.parens@.map_values(|p: usize| p as int) =~= st0.parens.push(self.o as int));
            } else if c == ')' {
                self.o = self.o + 1;
                let ghost before = self.parens@;
                self.parens.pop();
                assert(self.parens@.map_values(|p: usize| p as int) =~= (if st0.parens.len() > 0 {
                    st0.parens.drop_last()
                } else {
                    st0.parens
                }));
                let start = if self.parens.len() > 0 {
                    self.parens[self.parens.len() - 1]
                } else {
                    self.base
                };
                return Some(self.input.substring_char(start, self.o));
            } else {
                while self.o < n && self.chars[self.o] != ' ' && self.chars[self.o] != ')'
                    && self.chars[self.o] != ','
                    invariant
                        self.wf(),
                        self.input@ == s,
                        n == s.len(),
                        st0.base == self.base,
                        st0.parens == self.parens@.map_values(|p: usize| p as int),
                        until_term(s, skip_spaces(s, st0.o)) == until_term(s, self.o as int),
                    decreases n - self.o,
                {
                    self.o = self.o + 1;
                }
                let start = if self.parens.len() > 0 {
                    self.parens[self.parens.len() - 1]
                } else {
                    self.base
                };
                return Some(self.input.substring_char(start, self.o));
            }
        }
    }

    /// Produce all remaining terms.
    pub fn collect_all(self) -> (r: Vec<&'a str>)
        requires
            self.wf(),
            !self.input().contains('\0'),
        ensures
            r@.len() == all_terms(self.input(), self.state()).len(),
            forall|i: int|
                0 <= i < r@.len() ==> #[trigger] r@[i]@ == self.input().subrange(
                    all_terms(self.input(), self.state())[i].0,
                    all_terms(self.input(), self.state())[i].1,
                ),
    {
        let ghost s = self.input();
        let ghost terms = all_terms(s, self.state());
        let mut this = self;
        let mut out: Vec<&'a str> = Vec::new();
        loop
            invariant
                this.wf(),
                this.input() == s,
                s == self.input(),
                terms == all_terms(self.input(), self.state()),
                !this.input().contains('\0'),
                out@.len() + all_terms(s, this.state()).len() == terms.len(),
                forall|i: int|
                    0 <= i < out@.len() ==> #[trigger] out@[i]@ == s.subrange(terms[i].0, terms[i].1),
                forall|j: int|
                    0 <= j < all_terms(s, this.state()).len() ==> #[trigger] all_terms(s, this.state())[j]
                        == terms[out@.len() + j],
            decreases this.input().len() - this.state().o,
        {
            proof {
                lemma_next_term_progress(this.input(), this.state());
            }
            let ghost st = this.state();
            match this.next() {
                None => {
                    return out;
                },
                Some(t) => {
                    let ghost rest = all_terms(s, this.state());
                    assert(all_terms(s, st) == seq![next_term(s, st).0->0] + rest);
                    assert(all_terms(s, st)[0] == next_term(s, st).0->0);
                    assert forall|j: int| 0 <= j < rest.len() implies #[trigger] rest[j] == terms[out@.len() + 1 + j] by {
                        assert(rest[j] == all_terms(s, st)[j + 1]);
                    }
                    out.push(t);
                },
            }
        }
    }
}

} // verus!
