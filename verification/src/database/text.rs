//! Text normalization used when indexing: half-width conversion, case
//! folding and the selection of glossary terms.

use vstd::prelude::*;
use vstd::string::*;

use super::analyze_glossary::{all_terms, analyze, GlossaryState};
use crate::text::{spec_trim, str_eq, to_chars};

verus! {

/// The half-width form of a full-width character, if it has one.
pub open spec fn spec_full_to_half(c: char) -> Option<char> {
    let u = c as u32;
    if 0xFF01 <= u <= 0xFF5E {
        Some((u - 0xFEE0) as char)
    } else if u == 0xFF5F {
        Some('\u{2985}')
    } else if u == 0xFF60 {
        Some('\u{2986}')
    } else if u == 0xFFE0 {
        Some('\u{00A2}')
    } else if u == 0xFFE1 {
        Some('\u{00A3}')
    } else if u == 0xFFE2 {
        Some('\u{00AC}')
    } else if u == 0xFFE3 {
        Some('\u{00AF}')
    } else if u == 0xFFE4 {
        Some('\u{00A6}')
    } else if u == 0xFFE5 {
        Some('\u{00A5}')
    } else if u == 0xFFE6 {
        Some('\u{20A9}')
    } else {
        None
    }
}

/// Convert a full-width character into its half-width form.
pub fn full_to_half_char(c: char) -> (r: Option<char>)
    ensures
        r == spec_full_to_half(c),
{
    let u = c as u32;
    if 0xFF01 <= u && u <= 0xFF5E {
        let h = (u - 0xFEE0) as u8;
        Some(h as char)
    } else if u == 0xFF5F {
        Some('\u{2985}')
    } else if u == 0xFF60 {
        Some('\u{2986}')
    } else if u == 0xFFE0 {
        Some('\u{00A2}')
    } else if u == 0xFFE1 {
        Some('\u{00A3}')
    } else if u == 0xFFE2 {
        Some('\u{00AC}')
    } else if u == 0xFFE3 {
        Some('\u{00AF}')
    } else if u == 0xFFE4 {
        Some('\u{00A6}')
    } else if u == 0xFFE5 {
        Some('\u{00A5}')
    } else if u == 0xFFE6 {
        Some('\u{20A9}')
    } else {
        None
    }
}

/// A character converted to half-width where it has such a form.
pub open spec fn half_or_keep(c: char) -> char {
    match spec_full_to_half(c) {
        Some(h) => h,
        None => c,
    }
}

/// The half-width form of a string, if any of its characters has one.
pub open spec fn spec_full_to_half_string(s: Seq<char>) -> Option<Seq<char>> {
    if exists|i: int| 0 <= i < s.len() && (#[trigger] spec_full_to_half(s[i])) is Some {
        Some(s.map_values(|c: char| half_or_keep(c)))
    } else {
        None
    }
}

/// Convert the full-width characters of a string into half-width ones, or
/// `None` if the string holds none.
pub fn full_to_half_string(input: &str) -> (r: Option<String>)
    ensures
        match r {
            Some(s) => spec_full_to_half_string(input@) == Some(s@),
            None => spec_full_to_half_string(input@) is None,
        },
{
    let chars = to_chars(input);
    let n = chars.len();
    let mut out = String::new();
    let mut found = false;
    let mut i: usize = 0;
    while i < n
        invariant
            chars@ == input@,
            n == input@.len(),
            i <= n,
            out@ == input@.subrange(0, i as int).map_values(|c: char| half_or_keep(c)),
            found == exists|j: int| 0 <= j < i && (#[trigger] spec_full_to_half(input@[j])) is Some,
        decreases n - i,
    {
        let c = chars[i];
        let h = match full_to_half_char(c) {
            Some(h) => {
                found = true;
                h
            },
            None => c,
        };
        push_char(&mut out, h);
        assert(input@.subrange(0, i + 1).map_values(|c: char| half_or_keep(c)) =~= input@.subrange(
            0,
            i as int,
        ).map_values(|c: char| half_or_keep(c)).push(half_or_keep(c)));
        i = i + 1;
    }
    assert(input@.subrange(0, n as int) =~= input@);
    if found {
        Some(out)
    } else {
        None
    }
}

/// Append a character to a string.
#[verifier::external_body]
pub fn push_char(s: &mut String, c: char)
    ensures
        final(s)@ == old(s)@.push(c),
{
    s.push(c);
}

/// The lower case form of a string, as given by the Unicode case mapping.
pub uninterp spec fn spec_to_lowercase(s: Seq<char>) -> Seq<char>;

/// Convert a string to lower case.
#[verifier::external_body]
pub fn to_lowercase(s: &str) -> (r: String)
    ensures
        r@ == spec_to_lowercase(s@),
{
    s.to_lowercase()
}

/// Glossary phrases which are too common to be useful to index.
pub open spec fn spec_is_common(p: Seq<char>) -> bool
    decreases p.len(),
{
    if p == "to"@ || p == "a"@ || p == "in"@ || p == "of"@ || p == "for"@ || p == "so"@ || p
        == "if"@ || p == "by"@ || p == "but"@ || p == "not"@ || p == "any"@ || p == "way"@ || p
        == "into"@ {
        true
    } else if p.len() >= 5 && p.take(5) == "e.g. "@ {
        spec_is_common(p.skip(5))
    } else {
        p == "e.g."@
    }
}

/// Test if a glossary phrase is too common to be useful to index.
pub fn is_common(phrase: &str) -> (r: bool)
    ensures
        r == spec_is_common(phrase@),
    decreases phrase@.len(),
{
    if str_eq(phrase, "to") || str_eq(phrase, "a") || str_eq(phrase, "in") || str_eq(phrase, "of")
        || str_eq(phrase, "for") || str_eq(phrase, "so") || str_eq(phrase, "if") || str_eq(
        phrase,
        "by",
    ) || str_eq(phrase, "but") || str_eq(phrase, "not") || str_eq(phrase, "any") || str_eq(
        phrase,
        "way",
    ) || str_eq(phrase, "into") {
        return true;
    }
    let n = phrase.unicode_len();
    if n >= 5 && str_eq(phrase.substring_char(0, 5), "e.g. ") {
        let rest = phrase.substring_char(5, n);
        assert(rest@ == phrase@.skip(5));
        return is_common(rest);
    }
    str_eq(phrase, "e.g.")
}

/// The glossary terms of `text` which are indexed: those of at most 24
/// characters which are not too common, in lower case.
pub open spec fn indexed_terms(text: Seq<char>, terms: Seq<(int, int)>) -> Seq<Seq<char>>
    decreases terms.len(),
{
    if terms.len() == 0 {
        Seq::empty()
    } else {
        let rest = indexed_terms(text, terms.drop_last());
        let t = text.subrange(terms.last().0, terms.last().1);
        if t.len() > 24 || spec_is_common(t) {
            rest
        } else {
            rest.push(spec_to_lowercase(t))
        }
    }
}

/// Index the searchable terms of a glossary under the given identifier.
pub fn populate_analyzed<T: Copy>(text: &str, lookup: &mut Vec<(String, T)>, id: T)
    requires
        !text@.contains('\0'),
    ensures
        ({
            let t = spec_trim(text@);
            let added = indexed_terms(t, all_terms(t, GlossaryState { base: 0, parens: Seq::empty(), o: 0 }));
            &&& final(lookup)@.len() == old(lookup)@.len() + added.len()
            &&& forall|i: int| 0 <= i < old(lookup)@.len() ==> #[trigger] final(lookup)@[i] == old(lookup)@[i]
            &&& forall|i: int|
                0 <= i < added.len() ==> (#[trigger] final(lookup)@[old(lookup)@.len() + i]).0@ == added[i]
                    && final(lookup)@[old(lookup)@.len() + i].1 == id
        }),
{
    let analysis = analyze(text);
    let ghost t = spec_trim(text@);
    proof {
        crate::text::lemma_trim_is_subrange(text@);
    }
    let ghost terms = all_terms(t, GlossaryState { base: 0, parens: Seq::empty(), o: 0 });
    let phrases = analysis.collect_all();
    let ghost base = lookup@.len();
    let mut i: usize = 0;
    while i < phrases.len()
        invariant
            phrases@.len() == terms.len(),
            forall|k: int| 0 <= k < phrases@.len() ==> #[trigger] phrases@[k]@ == t.subrange(terms[k].0, terms[k].1),
            i <= phrases@.len(),
            base == old(lookup)@.len(),
            lookup@.len() == base + indexed_terms(t, terms.take(i as int)).len(),
            forall|k: int| 0 <= k < base ==> #[trigger] lookup@[k] == old(lookup)@[k],
            forall|k: int|
                0 <= k < indexed_terms(t, terms.take(i as int)).len() ==> (#[trigger] lookup@[base + k]).0@
                    == indexed_terms(t, terms.take(i as int))[k] && lookup@[base + k].1 == id,
        decreases phrases@.len() - i,
    {
        let phrase = phrases[i];
        assert(terms.take(i + 1).drop_last() =~= terms.take(i as int));
        assert(terms.take(i + 1).last() == terms[i as int]);
        if phrase.unicode_len() > 24 {
        } else if is_common(phrase) {
        } else {
            let lowercase = to_lowercase(phrase);
            lookup.push((lowercase, id));
        }
        i = i + 1;
    }
    assert(terms.take(terms.len() as int) =~= terms);
}

} // verus!
