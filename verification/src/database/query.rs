//! Looking up identifiers in a table of index keys, and combining the
//! identifiers found for the phrases of a search.

use std::collections::{HashMap, HashSet};

use vstd::prelude::*;
use vstd::string::*;

use super::index::{Id, InflectionData, Key, KanjiIndex, PhraseIndex, Source};
use super::keys::{
    glossary_keys, is_explanation, kanji_spelling_keys, phrase_id, phrase_text_keys, readings_keys,
    sense_keys, spellings_keys, tagged, text_terms, KeyView,
};
use crate::jmdict::{Entry, Glossary, KanjiElement, ReadingElement, Sense};
use super::stored;
use super::wildcard::{
    all_wildcards, first_wildcard_from, is_wildcard, parse_query, query_pieces, wildcard_match,
    LookupQuery, WildcardQuery,
};
use crate::kana::{is_hiragana, is_katakana, spec_is_hiragana, spec_is_katakana};
use crate::text::{
    byte_offset, char_len_utf8, lemma_byte_offset_bounded, lemma_byte_offset_step, str_eq, to_chars,
};

verus! {

broadcast use vstd::std_specs::hash::group_hash_axioms;

/// The identifiers stored under the keys which satisfy `pred`, in the order
/// of the table.
pub open spec fn ids_where(table: Seq<KeyView>, pred: spec_fn(Seq<char>) -> bool) -> Seq<stored::Id>
    decreases table.len(),
{
    if table.len() == 0 {
        Seq::empty()
    } else {
        let rest = ids_where(table.drop_last(), pred);
        if pred(table.last().0) {
            rest.push(table.last().1)
        } else {
            rest
        }
    }
}

/// The identifier of each phrase, as an entry.
pub open spec fn phrase_entries(phrases: Seq<u32>) -> Seq<stored::Id> {
    phrases.map_values(
        |o: u32| stored::Id { offset: o, source: stored::Source::Phrase { index: PhraseIndex::Entry } },
    )
}

/// What a free text query finds in a table of keys: every phrase for a
/// query of wildcards only; the identifiers under the query itself for a
/// query without wildcards; else the identifiers under each key that
/// matches the query with wildcards.
pub open spec fn table_lookup(table: Seq<KeyView>, phrases: Seq<u32>, q: Seq<char>) -> Seq<stored::Id> {
    if all_wildcards(q) {
        phrase_entries(phrases)
    } else {
        match first_wildcard_from(q, 0) {
            None => ids_where(table, |k: Seq<char>| k == q),
            Some(w) => ids_where(table, |k: Seq<char>| wildcard_match(q.take(w), query_pieces(q, w), k)),
        }
    }
}

/// The keys of a table, as characters.
pub open spec fn table_view(table: Seq<(String, stored::Id)>) -> Seq<KeyView> {
    table.map_values(|p: (String, stored::Id)| (p.0@, p.1))
}

/// Perform a free text lookup in a table of keys, where `phrases` holds the
/// offset of every phrase.
pub fn lookup_table(table: &Vec<(String, stored::Id)>, phrases: &Vec<u32>, query: &str) -> (r: Vec<
    stored::Id,
>)
    ensures
        r@ == table_lookup(table_view(table@), phrases@, query@),
{
    let parsed = parse_query(query);
    let ghost tv = table_view(table@);
    match parsed {
        LookupQuery::All => {
            let mut out: Vec<stored::Id> = Vec::new();
            let mut i: usize = 0;
            while i < phrases.len()
                invariant
                    i <= phrases@.len(),
                    out@ == phrase_entries(phrases@.take(i as int)),
                decreases phrases@.len() - i,
            {
                out.push(stored::Id::phrase(phrases[i], PhraseIndex::Entry));
                assert(phrase_entries(phrases@.take(i + 1)) =~= phrase_entries(phrases@.take(i as int)).push(
                    out@.last(),
                ));
                i = i + 1;
            }
            assert(phrases@.take(phrases@.len() as int) =~= phrases@);
            out
        },
        LookupQuery::Exact(q) => {
            let ghost pred = |k: Seq<char>| k == query@;
            let mut out: Vec<stored::Id> = Vec::new();
            let mut i: usize = 0;
            while i < table.len()
                invariant
                    tv == table_view(table@),
                    q@ == query@,
                    pred == (|k: Seq<char>| k == query@),
                    i <= table@.len(),
                    out@ == ids_where(tv.take(i as int), pred),
                decreases table@.len() - i,
            {
                assert(tv.take(i + 1).drop_last() =~= tv.take(i as int));
                if str_eq(table[i].0.as_str(), q) {
                    out.push(table[i].1);
                }
                i = i + 1;
            }
            assert(tv.take(tv.len() as int) =~= tv);
            out
        },
        LookupQuery::Wildcard(wq) => {
            let ghost w = first_wildcard_from(query@, 0)->0;
            let ghost pred = |k: Seq<char>| wildcard_match(query@.take(w), query_pieces(query@, w), k);
            let mut out: Vec<stored::Id> = Vec::new();
            let mut i: usize = 0;
            while i < table.len()
                invariant
                    tv == table_view(table@),
                    wq.prefix@ == query@.take(w),
                    wq.parts_view() == query_pieces(query@, w),
                    pred == (|k: Seq<char>| wildcard_match(query@.take(w), query_pieces(query@, w), k)),
                    i <= table@.len(),
                    out@ == ids_where(tv.take(i as int), pred),
                decreases table@.len() - i,
            {
                assert(tv.take(i + 1).drop_last() =~= tv.take(i as int));
                if wq.matches(table[i].0.as_str()) {
                    out.push(table[i].1);
                }
                i = i + 1;
            }
            assert(tv.take(tv.len() as int) =~= tv);
            out
        },
    }
}

/// The identifier of each kanji, as an entry.
pub open spec fn kanji_entries(kanji: Seq<u32>) -> Seq<stored::Id> {
    kanji.map_values(
        |o: u32| stored::Id { offset: o, source: stored::Source::Kanji { index: KanjiIndex::Entry } },
    )
}

/// Every entry of an index: each phrase, then each kanji.
pub fn all_entries(phrases: &Vec<u32>, kanji: &Vec<u32>) -> (r: Vec<stored::Id>)
    ensures
        r@ == phrase_entries(phrases@) + kanji_entries(kanji@),
{
    let mut out: Vec<stored::Id> = Vec::new();
    let mut i: usize = 0;
    while i < phrases.len()
        invariant
            i <= phrases@.len(),
            out@ == phrase_entries(phrases@.take(i as int)),
        decreases phrases@.len() - i,
    {
        out.push(stored::Id::phrase(phrases[i], PhraseIndex::Entry));
        assert(phrase_entries(phrases@.take(i + 1)) =~= phrase_entries(phrases@.take(i as int)).push(
            out@.last(),
        ));
        i = i + 1;
    }
    assert(phrases@.take(phrases@.len() as int) =~= phrases@);
    let ghost head = out@;
    let mut j: usize = 0;
    while j < kanji.len()
        invariant
            j <= kanji@.len(),
            out@ == head + kanji_entries(kanji@.take(j as int)),
        decreases kanji@.len() - j,
    {
        out.push(stored::Id::kanji(kanji[j], KanjiIndex::Entry));
        assert(kanji_entries(kanji@.take(j + 1)) =~= kanji_entries(kanji@.take(j as int)).push(
            out@.last(),
        ));
        j = j + 1;
    }
    assert(kanji@.take(kanji@.len() as int) =~= kanji@);
    out
}

/// Every identifier stored under the key `key` itself, in the order of the
/// table; a wildcard in `key` is taken as it stands.
pub fn exact_table(table: &Vec<(String, stored::Id)>, key: &str) -> (r: Vec<stored::Id>)
    ensures
        r@ == ids_where(table_view(table@), |k: Seq<char>| k == key@),
{
    let ghost tv = table_view(table@);
    let ghost pred = |k: Seq<char>| k == key@;
    let mut out: Vec<stored::Id> = Vec::new();
    let mut i: usize = 0;
    while i < table.len()
        invariant
            tv == table_view(table@),
            pred == (|k: Seq<char>| k == key@),
            i <= table@.len(),
            out@ == ids_where(tv.take(i as int), pred),
        decreases table@.len() - i,
    {
        assert(tv.take(i + 1).drop_last() =~= tv.take(i as int));
        if str_eq(table[i].0.as_str(), key) {
            out.push(table[i].1);
        }
        i = i + 1;
    }
    assert(tv.take(tv.len() as int) =~= tv);
    out
}

/// The offset of the last kanji among `ids` which is stored by its literal.
pub open spec fn last_literal(ids: Seq<stored::Id>) -> Option<u32>
    decreases ids.len(),
{
    if ids.len() == 0 {
        None
    } else if ids.last().source == (stored::Source::Kanji { index: KanjiIndex::Literal }) {
        Some(ids.last().offset)
    } else {
        last_literal(ids.drop_last())
    }
}

/// The offset of the kanji stored by the literal `literal`: the last one
/// where several are.
pub fn literal_to_kanji(table: &Vec<(String, stored::Id)>, literal: &str) -> (r: Option<u32>)
    ensures
        r == last_literal(ids_where(table_view(table@), |k: Seq<char>| k == literal@)),
{
    let ids = exact_table(table, literal);
    let mut i: usize = ids.len();
    assert(ids@.take(i as int) =~= ids@);
    while i > 0
        invariant
            i <= ids@.len(),
            ids@ == ids_where(table_view(table@), |k: Seq<char>| k == literal@),
            last_literal(ids@) == last_literal(ids@.take(i as int)),
        decreases i,
    {
        assert(ids@.take(i as int).drop_last() =~= ids@.take(i - 1));
        assert(ids@.take(i as int).last() == ids@[i - 1]);
        let id = ids[i - 1];
        match id.source {
            stored::Source::Kanji { index: KanjiIndex::Literal } => {
                return Some(id.offset);
            },
            _ => {},
        }
        i = i - 1;
    }
    None
}

/// A key starts with `prefix`.
pub open spec fn has_prefix(prefix: Seq<char>, k: Seq<char>) -> bool {
    prefix.len() <= k.len() && k.take(prefix.len() as int) == prefix
}

/// Every identifier stored under a key which starts with `prefix`, in the
/// order of the table.
pub fn prefix_table(table: &Vec<(String, stored::Id)>, prefix: &str) -> (r: Vec<stored::Id>)
    ensures
        r@ == ids_where(table_view(table@), |k: Seq<char>| has_prefix(prefix@, k)),
{
    let q = WildcardQuery { prefix: to_chars(prefix), parts: Vec::new() };
    assert(q.parts_view() =~= Seq::<Seq<char>>::empty());
    let ghost tv = table_view(table@);
    let ghost pred = |k: Seq<char>| has_prefix(prefix@, k);
    let mut out: Vec<stored::Id> = Vec::new();
    let mut i: usize = 0;
    while i < table.len()
        invariant
            tv == table_view(table@),
            q.prefix@ == prefix@,
            q.parts_view() == Seq::<Seq<char>>::empty(),
            pred == (|k: Seq<char>| has_prefix(prefix@, k)),
            i <= table@.len(),
            out@ == ids_where(tv.take(i as int), pred),
        decreases table@.len() - i,
    {
        assert(tv.take(i + 1).drop_last() =~= tv.take(i as int));
        if q.matches(table[i].0.as_str()) {
            out.push(table[i].1);
        }
        i = i + 1;
    }
    assert(tv.take(tv.len() as int) =~= tv);
    out
}

proof fn lemma_ids_where_contains(table: Seq<KeyView>, pred: spec_fn(Seq<char>) -> bool, i: int)
    requires
        0 <= i < table.len(),
        pred(table[i].0),
    ensures
        ids_where(table, pred).contains(table[i].1),
    decreases table.len(),
{
    let rest = ids_where(table.drop_last(), pred);
    if i == table.len() - 1 {
        assert(ids_where(table, pred) == rest.push(table.last().1));
        assert(rest.push(table.last().1)[rest.len() as int] == table[i].1);
    } else {
        lemma_ids_where_contains(table.drop_last(), pred, i);
        let k = choose|k: int| 0 <= k < rest.len() && rest[k] == table[i].1;
        if pred(table.last().0) {
            assert(rest.push(table.last().1)[k] == table[i].1);
        }
    }
}

/// Looking up a key of the table finds every identifier stored under it,
/// for a key which is not empty and holds no wildcard.
pub proof fn lemma_lookup_finds_key(table: Seq<KeyView>, phrases: Seq<u32>, i: int)
    requires
        0 <= i < table.len(),
        table[i].0.len() > 0,
        forall|k: int| 0 <= k < table[i].0.len() ==> !is_wildcard(#[trigger] table[i].0[k]),
    ensures
        table_lookup(table, phrases, table[i].0).contains(table[i].1),
{
    let q = table[i].0;
    assert(!all_wildcards(q)) by {
        assert(!is_wildcard(q[0]));
    }
    lemma_no_wildcard_from(q, 0);
    lemma_ids_where_contains(table, |k: Seq<char>| k == table[i].0, i);
}

/// Looking up a prefix followed by a wildcard finds every identifier
/// stored under a key which starts with the prefix, for a prefix which is
/// not empty and holds no wildcard.
pub proof fn lemma_lookup_finds_prefix(table: Seq<KeyView>, phrases: Seq<u32>, prefix: Seq<char>, i: int)
    requires
        0 <= i < table.len(),
        prefix.len() > 0,
        forall|k: int| 0 <= k < prefix.len() ==> !is_wildcard(#[trigger] prefix[k]),
        prefix.len() <= table[i].0.len(),
        table[i].0.take(prefix.len() as int) == prefix,
    ensures
        table_lookup(table, phrases, prefix.push('*')).contains(table[i].1),
{
    let q = prefix.push('*');
    assert(!all_wildcards(q)) by {
        assert(!is_wildcard(q[0]));
    }
    assert(q.take(prefix.len() as int) =~= prefix);
    lemma_first_wildcard_at(q, 0, prefix.len() as int);
    assert(query_pieces(q, prefix.len() as int) =~= Seq::<Seq<char>>::empty());
    lemma_ids_where_contains(
        table,
        |k: Seq<char>| wildcard_match(q.take(prefix.len() as int), query_pieces(q, prefix.len() as int), k),
        i,
    );
}

proof fn lemma_no_wildcard_from(q: Seq<char>, i: int)
    requires
        0 <= i,
        forall|k: int| 0 <= k < q.len() ==> !is_wildcard(#[trigger] q[k]),
    ensures
        first_wildcard_from(q, i) is None,
    decreases q.len() - i,
{
    if i < q.len() {
        lemma_no_wildcard_from(q, i + 1);
    }
}

proof fn lemma_first_wildcard_at(q: Seq<char>, i: int, w: int)
    requires
        0 <= i <= w < q.len(),
        is_wildcard(q[w]),
        forall|k: int| i <= k < w ==> !is_wildcard(#[trigger] q[k]),
    ensures
        first_wildcard_from(q, i) == Some(w),
    decreases w - i,
{
    if i < w {
        lemma_first_wildcard_at(q, i + 1, w);
    }
}

proof fn lemma_readings_keys_at<'a>(rs: Seq<ReadingElement<'a>>, offset: u32, j: int)
    requires
        0 <= j < rs.len(),
    ensures
        readings_keys(rs, offset).len() == 3 * rs.len(),
        readings_keys(rs, offset)[3 * j] == (rs[j].text@, phrase_id(offset, PhraseIndex::Hiragana)),
    decreases rs.len(),
{
    lemma_readings_keys_len(rs, offset);
    lemma_readings_keys_len(rs.drop_last(), offset);
    if j < rs.len() - 1 {
        lemma_readings_keys_at(rs.drop_last(), offset, j);
    }
}

proof fn lemma_readings_keys_len<'a>(rs: Seq<ReadingElement<'a>>, offset: u32)
    ensures
        readings_keys(rs, offset).len() == 3 * rs.len(),
    decreases rs.len(),
{
    if rs.len() > 0 {
        lemma_readings_keys_len(rs.drop_last(), offset);
    }
}

/// Once a phrase is indexed, looking up one of its readings finds the
/// phrase, indexed by that reading; for a reading which is not empty and
/// holds no wildcard.
pub proof fn lemma_indexed_reading_found<'a>(
    before: Seq<KeyView>,
    e: Entry<'a>,
    offset: u32,
    j: int,
    phrases: Seq<u32>,
)
    requires
        0 <= j < e.reading_elements@.len(),
        e.reading_elements@[j].text@.len() > 0,
        forall|k: int|
            0 <= k < e.reading_elements@[j].text@.len() ==> !is_wildcard(
                #[trigger] e.reading_elements@[j].text@[k],
            ),
    ensures
        table_lookup(
            before + phrase_text_keys(e, offset),
            phrases,
            e.reading_elements@[j].text@,
        ).contains(phrase_id(offset, PhraseIndex::Hiragana)),
{
    let table = before + phrase_text_keys(e, offset);
    let senses = sense_keys(e.senses@, phrase_id(offset, PhraseIndex::Meaning));
    lemma_readings_keys_at(e.reading_elements@, offset, j);
    let i = before.len() + senses.len() + 3 * j;
    assert(table[i] == (e.reading_elements@[j].text@, phrase_id(offset, PhraseIndex::Hiragana)));
    lemma_lookup_finds_key(table, phrases, i);
}

proof fn lemma_spellings_keys_prefix<'a>(ks: Seq<KanjiElement<'a>>, offset: u32, n: int)
    requires
        0 <= n <= ks.len(),
    ensures
        spellings_keys(ks.take(n), offset).len() <= spellings_keys(ks, offset).len(),
        spellings_keys(ks, offset).take(spellings_keys(ks.take(n), offset).len() as int)
            == spellings_keys(ks.take(n), offset),
    decreases ks.len(),
{
    if n == ks.len() {
        assert(ks.take(n) =~= ks);
        assert(spellings_keys(ks, offset).take(spellings_keys(ks, offset).len() as int) =~= spellings_keys(
            ks,
            offset,
        ));
    } else {
        assert(ks.take(n) =~= ks.drop_last().take(n));
        lemma_spellings_keys_prefix(ks.drop_last(), offset, n);
        let a = spellings_keys(ks.drop_last(), offset);
        let b = kanji_spelling_keys(ks.last().text@, offset);
        assert((a + b).take(spellings_keys(ks.take(n), offset).len() as int) =~= a.take(
            spellings_keys(ks.take(n), offset).len() as int,
        ));
    }
}

/// Once a phrase is indexed, looking up one of its kanji spellings finds
/// the phrase, indexed by that spelling; for a spelling which is not empty
/// and holds no wildcard.
pub proof fn lemma_indexed_spelling_found<'a>(
    before: Seq<KeyView>,
    e: Entry<'a>,
    offset: u32,
    j: int,
    phrases: Seq<u32>,
)
    requires
        0 <= j < e.kanji_elements@.len(),
        e.kanji_elements@[j].text@.len() > 0,
        forall|k: int|
            0 <= k < e.kanji_elements@[j].text@.len() ==> !is_wildcard(
                #[trigger] e.kanji_elements@[j].text@[k],
            ),
    ensures
        table_lookup(
            before + phrase_text_keys(e, offset),
            phrases,
            e.kanji_elements@[j].text@,
        ).contains(phrase_id(offset, PhraseIndex::Kanji)),
{
    let ks = e.kanji_elements@;
    let table = before + phrase_text_keys(e, offset);
    let senses = sense_keys(e.senses@, phrase_id(offset, PhraseIndex::Meaning));
    let readings = readings_keys(e.reading_elements@, offset);
    lemma_spellings_keys_prefix(ks, offset, j + 1);
    assert(ks.take(j + 1).drop_last() =~= ks.take(j));
    assert(ks.take(j + 1).last() == ks[j]);
    let upto = spellings_keys(ks.take(j + 1), offset);
    let p = upto.len() - 1;
    assert(upto[p] == (ks[j].text@, phrase_id(offset, PhraseIndex::Kanji)));
    assert(spellings_keys(ks, offset)[p] == upto[p]);
    let i = before.len() + senses.len() + readings.len() + p;
    assert(table[i] == (ks[j].text@, phrase_id(offset, PhraseIndex::Kanji)));
    lemma_lookup_finds_key(table, phrases, i);
}

proof fn lemma_glossary_keys_contain<'a>(gs: Seq<Glossary<'a>>, id: stored::Id, k: int, t: int)
    requires
        0 <= k < gs.len(),
        !is_explanation(gs[k]),
        0 <= t < text_terms(gs[k].text@).len(),
    ensures
        glossary_keys(gs, id).contains((text_terms(gs[k].text@)[t], id)),
    decreases gs.len(),
{
    let rest = glossary_keys(gs.drop_last(), id);
    if k < gs.len() - 1 {
        lemma_glossary_keys_contain(gs.drop_last(), id, k, t);
        let w = choose|w: int| 0 <= w < rest.len() && rest[w] == (text_terms(gs[k].text@)[t], id);
        let last = if is_explanation(gs.last()) {
            Seq::empty()
        } else {
            tagged(text_terms(gs.last().text@), id)
        };
        assert((rest + last)[w] == rest[w]);
    } else {
        let last = tagged(text_terms(gs.last().text@), id);
        assert((rest + last)[rest.len() + t] == last[t]);
    }
}

proof fn lemma_sense_keys_contain<'a>(ss: Seq<Sense<'a>>, id: stored::Id, j: int, k: int, t: int)
    requires
        0 <= j < ss.len(),
        0 <= k < ss[j].gloss@.len(),
        !is_explanation(ss[j].gloss@[k]),
        0 <= t < text_terms(ss[j].gloss@[k].text@).len(),
    ensures
        sense_keys(ss, id).contains((text_terms(ss[j].gloss@[k].text@)[t], id)),
    decreases ss.len(),
{
    let kv = (text_terms(ss[j].gloss@[k].text@)[t], id);
    let rest = sense_keys(ss.drop_last(), id);
    let last = glossary_keys(ss.last().gloss@, id);
    if j < ss.len() - 1 {
        lemma_sense_keys_contain(ss.drop_last(), id, j, k, t);
        let w = choose|w: int| 0 <= w < rest.len() && rest[w] == kv;
        assert((rest + last)[w] == rest[w]);
    } else {
        lemma_glossary_keys_contain(ss.last().gloss@, id, k, t);
        let w = choose|w: int| 0 <= w < last.len() && last[w] == kv;
        assert((rest + last)[rest.len() + w] == last[w]);
    }
}

/// Once a phrase is indexed, looking up a term of one of its glossaries
/// finds the phrase, indexed by its meaning; for a glossary which is not
/// an explanation, and a term which is not empty and holds no wildcard.
pub proof fn lemma_indexed_glossary_found<'a>(
    before: Seq<KeyView>,
    e: Entry<'a>,
    offset: u32,
    j: int,
    k: int,
    t: int,
    phrases: Seq<u32>,
)
    requires
        0 <= j < e.senses@.len(),
        0 <= k < e.senses@[j].gloss@.len(),
        !is_explanation(e.senses@[j].gloss@[k]),
        0 <= t < text_terms(e.senses@[j].gloss@[k].text@).len(),
        text_terms(e.senses@[j].gloss@[k].text@)[t].len() > 0,
        forall|c: int|
            0 <= c < text_terms(e.senses@[j].gloss@[k].text@)[t].len() ==> !is_wildcard(
                #[trigger] text_terms(e.senses@[j].gloss@[k].text@)[t][c],
            ),
    ensures
        table_lookup(
            before + phrase_text_keys(e, offset),
            phrases,
            text_terms(e.senses@[j].gloss@[k].text@)[t],
        ).contains(phrase_id(offset, PhraseIndex::Meaning)),
{
    let id = phrase_id(offset, PhraseIndex::Meaning);
    let term = text_terms(e.senses@[j].gloss@[k].text@)[t];
    let table = before + phrase_text_keys(e, offset);
    let senses = sense_keys(e.senses@, id);
    lemma_sense_keys_contain(e.senses@, id, j, k, t);
    let w = choose|w: int| 0 <= w < senses.len() && senses[w] == (term, id);
    let i = before.len() + w;
    assert(table[i] == (term, id));
    lemma_lookup_finds_key(table, phrases, i);
}

/// The source of an identifier as stored, with an inflection taken from the
/// table of inflections by its position.
pub open spec fn spec_convert_source(s: stored::Source, inflections: Seq<InflectionData>) -> Option<
    Source,
> {
    match s {
        stored::Source::Kanji { index } => Some(Source::Kanji { index }),
        stored::Source::Phrase { index } => Some(Source::Phrase { index }),
        stored::Source::Inflection { inflection } => if inflection < inflections.len() {
            Some(Source::Inflection { data: inflections[inflection as int] })
        } else {
            None
        },
        stored::Source::Name { index } => Some(Source::Name { index }),
    }
}

/// Convert a stored identifier found in the index at `index` into an
/// identifier, or `None` where its inflection is missing from the table.
pub fn convert_id(index: u32, id: stored::Id, inflections: &Vec<InflectionData>) -> (r: Option<Id>)
    ensures
        match spec_convert_source(id.source, inflections@) {
            Some(s) => r == Some(Id::spec_make(index, id.offset, s)),
            None => r is None,
        },
{
    let source = match id.source {
        stored::Source::Kanji { index } => Source::Kanji { index },
        stored::Source::Phrase { index } => Source::Phrase { index },
        stored::Source::Inflection { inflection } => {
            if (inflection as usize) < inflections.len() {
                Source::Inflection { data: inflections[inflection as usize] }
            } else {
                return None;
            }
        },
        stored::Source::Name { index } => Source::Name { index },
    };
    Some(Id::new(index, id.offset, source))
}

/// The number under which an entry is found: its index and offset.
pub open spec fn entry_number(index: u32, offset: u32) -> u64 {
    ((index as u64) << 32u64) | (offset as u64)
}

proof fn lemma_entry_number(a: u32, b: u32, c: u32, d: u32)
    requires
        entry_number(a, b) == entry_number(c, d),
    ensures
        a == c && b == d,
{
    assert(a == c && b == d) by (bit_vector)
        requires
            ((a as u64) << 32u64) | (b as u64) == ((c as u64) << 32u64) | (d as u64),
    ;
}

fn number_of(id: &Id) -> (r: u64)
    ensures
        r == entry_number(id.spec_index(), id.spec_offset()),
{
    let key = id.key();
    ((key.index() as u64) << 32u64) | (key.offset() as u64)
}

/// Two identifiers point to the same entry.
pub open spec fn same_entry(a: Id, b: Id) -> bool {
    a.spec_index() == b.spec_index() && a.spec_offset() == b.spec_offset()
}

/// The identifiers of `ids` which point to an entry that one of `found`
/// points to, in their order.
pub open spec fn common_ids(ids: Seq<Id>, found: Seq<Id>) -> Seq<Id>
    decreases ids.len(),
{
    if ids.len() == 0 {
        Seq::empty()
    } else {
        let rest = common_ids(ids.drop_last(), found);
        if exists|j: int| 0 <= j < found.len() && same_entry(ids.last(), #[trigger] found[j]) {
            rest.push(ids.last())
        } else {
            rest
        }
    }
}

/// Keep the identifiers which point to an entry that one of `found` points
/// to: what the phrases of a search have in common.
pub fn retain_common(ids: Vec<Id>, found: &Vec<Id>) -> (r: Vec<Id>)
    ensures
        r@ == common_ids(ids@, found@),
{
    let mut numbers: HashSet<u64> = HashSet::new();
    let mut j: usize = 0;
    while j < found.len()
        invariant
            j <= found@.len(),
            forall|n: u64|
                numbers@.contains(n) <==> exists|x: int|
                    0 <= x < j && n == entry_number(
                        (#[trigger] found@[x]).spec_index(),
                        found@[x].spec_offset(),
                    ),
        decreases found@.len() - j,
    {
        let n = number_of(&found[j]);
        numbers.insert(n);
        proof {
            assert forall|m: u64|
                numbers@.contains(m) <==> exists|x: int|
                    0 <= x < j + 1 && m == entry_number(
                        (#[trigger] found@[x]).spec_index(),
                        found@[x].spec_offset(),
                    ) by {
                if m == n {
                    assert(m == entry_number(found@[j as int].spec_index(), found@[j as int].spec_offset()));
                }
            }
        }
        j = j + 1;
    }
    let mut out: Vec<Id> = Vec::new();
    let mut i: usize = 0;
    while i < ids.len()
        invariant
            i <= ids@.len(),
            forall|n: u64|
                numbers@.contains(n) <==> exists|x: int|
                    0 <= x < found@.len() && n == entry_number(
                        (#[trigger] found@[x]).spec_index(),
                        found@[x].spec_offset(),
                    ),
            out@ == common_ids(ids@.take(i as int), found@),
        decreases ids@.len() - i,
    {
        assert(ids@.take(i + 1).drop_last() =~= ids@.take(i as int));
        let id = ids[i];
        let n = number_of(&id);
        let keep = numbers.contains(&n);
        proof {
            if keep {
                let x = choose|x: int|
                    0 <= x < found@.len() && n == entry_number(
                        (#[trigger] found@[x]).spec_index(),
                        found@[x].spec_offset(),
                    );
                lemma_entry_number(
                    id.spec_index(),
                    id.spec_offset(),
                    found@[x].spec_index(),
                    found@[x].spec_offset(),
                );
                assert(same_entry(id, found@[x]));
            } else {
                assert forall|x: int| 0 <= x < found@.len() implies !same_entry(id, #[trigger] found@[x]) by {
                    if same_entry(id, found@[x]) {
                        assert(numbers@.contains(
                            entry_number(found@[x].spec_index(), found@[x].spec_offset()),
                        ));
                    }
                }
            }
        }
        if keep {
            out.push(id);
        }
        i = i + 1;
    }
    assert(ids@.take(ids@.len() as int) =~= ids@);
    out
}

/// The position of the group of an entry.
pub open spec fn group_of(groups: Seq<(Key, Set<Source>)>, index: u32, offset: u32) -> Option<int> {
    if exists|p: int|
        0 <= p < groups.len() && (#[trigger] groups[p]).0.spec_index() == index
            && groups[p].0.spec_offset() == offset {
        Some(
            choose|p: int|
                0 <= p < groups.len() && (#[trigger] groups[p]).0.spec_index() == index
                    && groups[p].0.spec_offset() == offset,
        )
    } else {
        None
    }
}

/// The identifiers grouped by the entry they point to, in order of first
/// appearance, each group with the set of reasons its entry was found for.
pub open spec fn grouped(ids: Seq<Id>) -> Seq<(Key, Set<Source>)>
    decreases ids.len(),
{
    if ids.len() == 0 {
        Seq::empty()
    } else {
        let g = grouped(ids.drop_last());
        let id = ids.last();
        match group_of(g, id.spec_index(), id.spec_offset()) {
            Some(p) => g.update(p, (g[p].0, g[p].1.insert(id.spec_source()))),
            None => g.push((id.key_of(), set![id.spec_source()])),
        }
    }
}

/// Each group is of a distinct entry.
pub open spec fn distinct_groups(groups: Seq<(Key, Set<Source>)>) -> bool {
    forall|a: int, b: int|
        0 <= a < b < groups.len() ==> !((#[trigger] groups[a]).0.spec_index() == (
        #[trigger] groups[b]).0.spec_index() && groups[a].0.spec_offset() == groups[b].0.spec_offset())
}

proof fn lemma_grouped_distinct(ids: Seq<Id>)
    ensures
        distinct_groups(grouped(ids)),
    decreases ids.len(),
{
    if ids.len() > 0 {
        lemma_grouped_distinct(ids.drop_last());
        let g = grouped(ids.drop_last());
        let id = ids.last();
        let r = grouped(ids);
        match group_of(g, id.spec_index(), id.spec_offset()) {
            Some(p) => {
                assert(0 <= p < g.len());
                assert forall|a: int, b: int| 0 <= a < b < r.len() implies !((#[trigger] r[a]).0.spec_index()
                    == (#[trigger] r[b]).0.spec_index() && r[a].0.spec_offset() == r[b].0.spec_offset()) by {
                    assert(r[a].0 == g[a].0 && r[b].0 == g[b].0);
                }
            },
            None => {
                id.lemma_key_of();
                assert forall|a: int, b: int| 0 <= a < b < r.len() implies !((#[trigger] r[a]).0.spec_index()
                    == (#[trigger] r[b]).0.spec_index() && r[a].0.spec_offset() == r[b].0.spec_offset()) by {
                    if b == g.len() {
                        assert(r[a] == g[a]);
                    } else {
                        assert(r[a] == g[a] && r[b] == g[b]);
                    }
                }
            },
        }
    }
}

fn copy_sources(sources: &Vec<Source>) -> (r: Vec<Source>)
    ensures
        r@ == sources@,
{
    let mut out: Vec<Source> = Vec::new();
    let mut i: usize = 0;
    while i < sources.len()
        invariant
            i <= sources@.len(),
            out@ == sources@.take(i as int),
        decreases sources@.len() - i,
    {
        out.push(sources[i]);
        assert(out@ =~= sources@.take(i + 1));
        i = i + 1;
    }
    assert(sources@.take(sources@.len() as int) =~= sources@);
    out
}

/// The groups as keys with their sources, each source stored once.
pub open spec fn groups_view(groups: Seq<(Key, Vec<Source>)>) -> Seq<(Key, Set<Source>)> {
    groups.map_values(|g: (Key, Vec<Source>)| (g.0, g.1@.to_set()))
}

/// Group identifiers by the entry they point to, in order of first
/// appearance, collecting the distinct reasons each entry was found for.
pub fn group_results(ids: &Vec<Id>) -> (r: Vec<(Key, Vec<Source>)>)
    ensures
        groups_view(r@) == grouped(ids@),
        forall|i: int| 0 <= i < r@.len() ==> (#[trigger] r@[i]).1@.no_duplicates(),
{
    let mut groups: Vec<(Key, Vec<Source>)> = Vec::new();
    let mut positions: HashMap<u64, usize> = HashMap::new();
    let mut i: usize = 0;
    while i < ids.len()
        invariant
            i <= ids@.len(),
            groups_view(groups@) == grouped(ids@.take(i as int)),
            forall|k: int| 0 <= k < groups@.len() ==> (#[trigger] groups@[k]).1@.no_duplicates(),
            forall|n: u64|
                #[trigger] positions@.contains_key(n) ==> positions@[n] < groups@.len() && entry_number(
                    groups@[positions@[n] as int].0.spec_index(),
                    groups@[positions@[n] as int].0.spec_offset(),
                ) == n,
            forall|k: int|
                0 <= k < groups@.len() ==> #[trigger] positions@.contains_key(
                    entry_number(groups@[k].0.spec_index(), groups@[k].0.spec_offset()),
                ),
        decreases ids@.len() - i,
    {
        assert(ids@.take(i + 1).drop_last() =~= ids@.take(i as int));
        proof {
            lemma_grouped_distinct(ids@.take(i as int));
        }
        let id = ids[i];
        let n = number_of(&id);
        let ghost g = grouped(ids@.take(i as int));
        match positions.get(&n) {
            Some(p) => {
                let p = *p;
                proof {
                    lemma_entry_number(
                        groups@[p as int].0.spec_index(),
                        groups@[p as int].0.spec_offset(),
                        id.spec_index(),
                        id.spec_offset(),
                    );
                    assert(g[p as int] == (groups@[p as int].0, groups@[p as int].1@.to_set()));
                    let q = group_of(g, id.spec_index(), id.spec_offset())->0;
                    assert(group_of(g, id.spec_index(), id.spec_offset()) is Some);
                    assert(q == p as int);
                }
                let mut sources = copy_sources(&groups[p].1);
                let key = groups[p].0;
                let source = *id.source();
                let ghost old_sources = sources@;
                if !contains_source(&sources, &source) {
                    sources.push(source);
                    assert forall|x: Source| sources@.to_set().contains(x) <==> old_sources.to_set().insert(
                        source,
                    ).contains(x) by {
                        if x == source {
                            assert(sources@[old_sources.len() as int] == source);
                        } else if old_sources.contains(x) {
                            let k = choose|k: int| 0 <= k < old_sources.len() && old_sources[k] == x;
                            assert(sources@[k] == x);
                        } else if sources@.contains(x) {
                            let k = choose|k: int| 0 <= k < sources@.len() && sources@[k] == x;
                            assert(old_sources[k] == x);
                        }
                    }
                    assert forall|a: int, b: int| 0 <= a < b < sources@.len() implies sources@[a] != sources@[b] by {
                        if b == old_sources.len() {
                            assert(old_sources[a] == sources@[a]);
                        } else {
                            assert(old_sources[a] == sources@[a] && old_sources[b] == sources@[b]);
                        }
                    }
                }
                assert(sources@.to_set() =~= groups@[p as int].1@.to_set().insert(id.spec_source()));
                let ghost before = groups@;
                groups.set(p, (key, sources));
                assert(groups_view(groups@) =~= g.update(
                    p as int,
                    (g[p as int].0, g[p as int].1.insert(id.spec_source())),
                ));
                assert forall|k: int| 0 <= k < groups@.len() implies #[trigger] positions@.contains_key(
                    entry_number(groups@[k].0.spec_index(), groups@[k].0.spec_offset()),
                ) by {
                    assert(groups@[k].0 == before[k].0);
                }
            },
            None => {
                proof {
                    assert forall|q: int|
                        0 <= q < g.len() implies !((#[trigger] g[q]).0.spec_index() == id.spec_index()
                        && g[q].0.spec_offset() == id.spec_offset()) by {
                        assert(g[q] == (groups@[q].0, groups@[q].1@.to_set()));
                        assert(positions@.contains_key(
                            entry_number(groups@[q].0.spec_index(), groups@[q].0.spec_offset()),
                        ));
                    }
                }
                let mut sources: Vec<Source> = Vec::new();
                sources.push(*id.source());
                assert forall|x: Source| sources@.to_set().contains(x) <==> x == id.spec_source() by {
                    if x == id.spec_source() {
                        assert(sources@[0] == x);
                    }
                }
                assert(sources@.to_set() =~= set![id.spec_source()]);
                let ghost before = groups@;
                groups.push((id.key(), sources));
                positions.insert(n, groups.len() - 1);
                assert(groups_view(groups@) =~= g.push((id.key_of(), set![id.spec_source()])));
                assert forall|k: int| 0 <= k < groups@.len() implies #[trigger] positions@.contains_key(
                    entry_number(groups@[k].0.spec_index(), groups@[k].0.spec_offset()),
                ) by {
                    if k < before.len() {
                        assert(groups@[k] == before[k]);
                    }
                }
            },
        }
        i = i + 1;
    }
    assert(ids@.take(ids@.len() as int) =~= ids@);
    groups
}

fn contains_source(sources: &Vec<Source>, s: &Source) -> (r: bool)
    ensures
        r == sources@.contains(*s),
{
    let mut i: usize = 0;
    while i < sources.len()
        invariant
            i <= sources@.len(),
            forall|k: int| 0 <= k < i ==> sources@[k] != *s,
        decreases sources@.len() - i,
    {
        if sources[i] == *s {
            return true;
        }
        i = i + 1;
    }
    false
}

/// A character of a search which may be a kanji: one that is neither kana
/// nor an ASCII letter.
pub open spec fn kanji_candidate(c: char) -> bool {
    !spec_is_katakana(c) && !spec_is_hiragana(c) && !(('a' <= c && c <= 'z') || ('A' <= c && c
        <= 'Z'))
}

/// The characters of a search which are looked up as kanji, in order.
pub open spec fn kanji_candidates_of(s: Seq<char>) -> Seq<char>
    decreases s.len(),
{
    if s.len() == 0 {
        Seq::empty()
    } else {
        let rest = kanji_candidates_of(s.drop_last());
        if kanji_candidate(s.last()) {
            rest.push(s.last())
        } else {
            rest
        }
    }
}

/// The characters of a search which are looked up as kanji.
pub fn kanji_candidates(input: &str) -> (r: Vec<char>)
    ensures
        r@ == kanji_candidates_of(input@),
{
    let chars = to_chars(input);
    let mut out: Vec<char> = Vec::new();
    let mut i: usize = 0;
    while i < chars.len()
        invariant
            chars@ == input@,
            i <= chars@.len(),
            out@ == kanji_candidates_of(chars@.take(i as int)),
        decreases chars@.len() - i,
    {
        assert(chars@.take(i + 1).drop_last() =~= chars@.take(i as int));
        let c = chars[i];
        if !is_katakana(c) && !is_hiragana(c) && !(('a' <= c && c <= 'z') || ('A' <= c && c <= 'Z')) {
            out.push(c);
        }
        i = i + 1;
    }
    assert(chars@.take(chars@.len() as int) =~= chars@);
    out
}

/// The index of the character which starts at byte `start`, where one
/// does (the end of the text counts).
pub open spec fn start_char(q: Seq<char>, start: int) -> Option<int> {
    if exists|i: int| 0 <= i <= q.len() && #[trigger] byte_offset(q, i) == start {
        Some(choose|i: int| 0 <= i <= q.len() && #[trigger] byte_offset(q, i) == start)
    } else {
        None
    }
}

/// The texts which an analysis from byte `start` looks up: the rest of the
/// text from there, then that rest shortened by one character at a time,
/// down to one character; none where `start` is not the start of a
/// character or the end of the text.
pub open spec fn analysis_candidates_of(q: Seq<char>, start: int) -> Seq<Seq<char>> {
    match start_char(q, start) {
        Some(i) => Seq::new((q.len() - i) as nat, |k: int| q.subrange(i, q.len() - k)),
        None => Seq::empty(),
    }
}

proof fn lemma_byte_offset_strict(s: Seq<char>, i: int, j: int)
    requires
        0 <= i < j <= s.len(),
    ensures
        byte_offset(s, i) < byte_offset(s, j),
    decreases j - i,
{
    lemma_byte_offset_step(s, i);
    if i + 1 < j {
        lemma_byte_offset_strict(s, i + 1, j);
    }
}

/// The texts to look up when analyzing `q` from byte `start`.
pub fn analysis_candidates(q: &str, start: usize) -> (r: Vec<&str>)
    ensures
        r@.map_values(|t: &str| t@) == analysis_candidates_of(q@, start as int),
{
    let n = q.unicode_len();
    let total = q.as_bytes().len();
    let mut off: usize = 0;
    let mut i: usize = 0;
    while i < n && off != start
        invariant
            n == q@.len(),
            total == q.spec_bytes().len(),
            i <= n,
            off == byte_offset(q@, i as int),
            forall|x: int| 0 <= x < i ==> #[trigger] byte_offset(q@, x) != start,
        decreases n - i,
    {
        proof {
            lemma_byte_offset_step(q@, i as int);
            lemma_byte_offset_bounded(q, i as int + 1);
        }
        off = off + char_len_utf8(q.get_char(i));
        i = i + 1;
    }
    let found: Option<usize> = if off == start {
        Some(i)
    } else {
        None
    };
    let mut out: Vec<&str> = Vec::new();
    match found {
        None => {
            assert forall|x: int| 0 <= x <= q@.len() implies #[trigger] byte_offset(q@, x) != start by {
            }
            out
        },
        Some(f) => {
            assert(start_char(q@, start as int) == Some(f as int)) by {
                let c = choose|x: int| 0 <= x <= q@.len() && #[trigger] byte_offset(q@, x) == start;
                if c < f {
                    lemma_byte_offset_strict(q@, c, f as int);
                } else if c > f {
                    lemma_byte_offset_strict(q@, f as int, c);
                }
            }
            let ghost expected = analysis_candidates_of(q@, start as int);
            let mut k: usize = 0;
            while k < n - f
                invariant
                    n == q@.len(),
                    f <= n,
                    expected == Seq::new((n - f) as nat, |x: int| q@.subrange(f as int, n - x)),
                    k <= n - f,
                    out@.map_values(|t: &str| t@) == expected.take(k as int),
                decreases n - f - k,
            {
                let t = q.substring_char(f, n - k);
                let ghost before = out@;
                out.push(t);
                assert(expected[k as int] == t@);
                assert(out@.map_values(|t: &str| t@) =~= before.map_values(|t: &str| t@).push(t@));
                assert(expected.take(k + 1) =~= expected.take(k as int).push(expected[k as int]));
                assert(out@.map_values(|t: &str| t@) =~= expected.take(k + 1));
                k = k + 1;
            }
            assert(expected.take((n - f) as int) =~= expected);
            out
        },
    }
}

} // verus!
