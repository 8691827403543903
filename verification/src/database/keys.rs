//! The keys under which dictionary entries are indexed.
//!
//! Each entry is looked up by its texts: a phrase by its readings, kanji
//! spellings, the terms of its glossaries and its inflected forms; a kanji
//! by its literal, readings and meanings; a name by its spellings and
//! readings. Kana texts are also indexed romanized and in the other kana
//! script.

use vstd::prelude::*;
use vstd::string::*;

use super::analyze_glossary::{all_terms, GlossaryState};
use super::index::{KanjiIndex, NameIndex, PhraseIndex};
use super::readings::{convert_text, other_readings};
use super::stored::{Id, Source};
use super::text::{full_to_half_string, indexed_terms, populate_analyzed, spec_full_to_half_string};
use crate::jmdict::{Entry, Glossary, KanjiElement, ReadingElement, Sense};
use crate::jmnedict;
use crate::kanjidic2::{Character, Meaning, Reading};
use crate::romaji::Transform;
use crate::text::{spec_trim, str_eq};

verus! {

/// An index key and the identifier stored under it.
pub type KeyView = (Seq<char>, Id);

/// The keys of a lookup table, as characters.
pub open spec fn keys_view(v: Seq<(String, Id)>) -> Seq<KeyView> {
    v.map_values(|p: (String, Id)| (p.0@, p.1))
}

/// Each text stored under the same identifier.
pub open spec fn tagged(texts: Seq<Seq<char>>, id: Id) -> Seq<KeyView> {
    texts.map_values(|t: Seq<char>| (t, id))
}

/// The stored identifier of a phrase at `offset`, indexed by `index`.
pub open spec fn phrase_id(offset: u32, index: PhraseIndex) -> Id {
    Id { offset, source: Source::Phrase { index } }
}

/// The searchable terms of a text, as glossaries and meanings are indexed.
pub open spec fn text_terms(text: Seq<char>) -> Seq<Seq<char>> {
    let t = spec_trim(text);
    indexed_terms(t, all_terms(t, GlossaryState { base: 0, parens: Seq::empty(), o: 0 }))
}

/// A glossary is an explanation rather than a translation.
pub open spec fn is_explanation(g: Glossary) -> bool {
    g.ty matches Some(t) && t@ == "expl"@
}

/// The keys of the glossaries of a sense: the terms of each glossary that
/// is not an explanation.
pub open spec fn glossary_keys(gs: Seq<Glossary>, id: Id) -> Seq<KeyView>
    decreases gs.len(),
{
    if gs.len() == 0 {
        Seq::empty()
    } else {
        let last = if is_explanation(gs.last()) {
            Seq::empty()
        } else {
            tagged(text_terms(gs.last().text@), id)
        };
        glossary_keys(gs.drop_last(), id) + last
    }
}

/// The keys of the senses of a phrase.
pub open spec fn sense_keys(ss: Seq<Sense>, id: Id) -> Seq<KeyView>
    decreases ss.len(),
{
    if ss.len() == 0 {
        Seq::empty()
    } else {
        sense_keys(ss.drop_last(), id) + glossary_keys(ss.last().gloss@, id)
    }
}

/// The keys of a reading: the reading itself, romanized, and in katakana.
pub open spec fn reading_keys(text: Seq<char>, offset: u32) -> Seq<KeyView> {
    seq![
        (text, phrase_id(offset, PhraseIndex::Hiragana)),
        (convert_text(Transform::Romaji, text), phrase_id(offset, PhraseIndex::Romanized)),
        (convert_text(Transform::Katakana, text), phrase_id(offset, PhraseIndex::Katakana)),
    ]
}

/// The keys of the readings of a phrase.
pub open spec fn readings_keys(rs: Seq<ReadingElement>, offset: u32) -> Seq<KeyView>
    decreases rs.len(),
{
    if rs.len() == 0 {
        Seq::empty()
    } else {
        readings_keys(rs.drop_last(), offset) + reading_keys(rs.last().text@, offset)
    }
}

/// The keys of a kanji spelling: its half width form where it has full
/// width characters, then the spelling itself.
pub open spec fn kanji_spelling_keys(text: Seq<char>, offset: u32) -> Seq<KeyView> {
    let half = match spec_full_to_half_string(text) {
        Some(h) => seq![(h, phrase_id(offset, PhraseIndex::KanjiHalf))],
        None => Seq::empty(),
    };
    half + seq![(text, phrase_id(offset, PhraseIndex::Kanji))]
}

/// The keys of the kanji spellings of a phrase.
pub open spec fn spellings_keys(ks: Seq<KanjiElement>, offset: u32) -> Seq<KeyView>
    decreases ks.len(),
{
    if ks.len() == 0 {
        Seq::empty()
    } else {
        spellings_keys(ks.drop_last(), offset) + kanji_spelling_keys(ks.last().text@, offset)
    }
}

/// The keys of the texts of a phrase: the terms of its glossaries, its
/// readings, and its kanji spellings, in that order.
pub open spec fn phrase_text_keys(e: Entry, offset: u32) -> Seq<KeyView> {
    sense_keys(e.senses@, phrase_id(offset, PhraseIndex::Meaning)) + readings_keys(
        e.reading_elements@,
        offset,
    ) + spellings_keys(e.kanji_elements@, offset)
}

/// No glossary of the phrase holds a NUL character.
pub open spec fn glossaries_without_nul(e: Entry) -> bool {
    forall|i: int, k: int|
        0 <= i < e.senses@.len() && 0 <= k < e.senses@[i].gloss@.len() ==> !(
        #[trigger] e.senses@[i].gloss@[k]).text@.contains('\0')
}

/// Test if a glossary is an explanation.
fn explanation(g: &Glossary) -> (r: bool)
    ensures
        r == is_explanation(*g),
{
    match g.ty {
        Some(t) => {
            proof {
                reveal_strlit("expl");
            }
            str_eq(t, "expl")
        },
        None => false,
    }
}

/// Add the keys of the glossaries of the senses of a phrase.
fn add_sense_keys(senses: &Vec<Sense>, id: Id, lookup: &mut Vec<(String, Id)>)
    requires
        forall|i: int, k: int|
            0 <= i < senses@.len() && 0 <= k < senses@[i].gloss@.len() ==> !(
            #[trigger] senses@[i].gloss@[k]).text@.contains('\0'),
    ensures
        keys_view(final(lookup)@) == keys_view(old(lookup)@) + sense_keys(senses@, id),
{
    let mut i: usize = 0;
    while i < senses.len()
        invariant
            i <= senses@.len(),
            forall|a: int, k: int|
                0 <= a < senses@.len() && 0 <= k < senses@[a].gloss@.len() ==> !(
                #[trigger] senses@[a].gloss@[k]).text@.contains('\0'),
            keys_view(lookup@) == keys_view(old(lookup)@) + sense_keys(senses@.take(i as int), id),
        decreases senses@.len() - i,
    {
        let sense = &senses[i];
        assert(senses@.take(i + 1).drop_last() =~= senses@.take(i as int));
        let ghost before = keys_view(lookup@);
        let mut k: usize = 0;
        while k < sense.gloss.len()
            invariant
                i < senses@.len(),
                *sense == senses@[i as int],
                k <= sense.gloss@.len(),
                forall|b: int| 0 <= b < sense.gloss@.len() ==> !(#[trigger] sense.gloss@[b]).text@.contains('\0'),
                keys_view(lookup@) == before + glossary_keys(sense.gloss@.take(k as int), id),
            decreases sense.gloss@.len() - k,
        {
            let g = &sense.gloss[k];
            assert(sense.gloss@.take(k + 1).drop_last() =~= sense.gloss@.take(k as int));
            let ghost mid = lookup@;
            if !explanation(g) {
                populate_analyzed(g.text, lookup, id);
                let ghost added = text_terms(g.text@);
                assert(lookup@.len() == mid.len() + added.len());
                assert forall|x: int| 0 <= x < lookup@.len() implies #[trigger] keys_view(lookup@)[x]
                    == (keys_view(mid) + tagged(added, id))[x] by {
                    if x >= mid.len() {
                        let y = x - mid.len();
                        assert(lookup@[mid.len() + y].0@ == added[y]);
                    }
                }
                assert(keys_view(lookup@) =~= keys_view(mid) + tagged(added, id));
            }
            k = k + 1;
        }
        assert(sense.gloss@.take(sense.gloss@.len() as int) =~= sense.gloss@);
        i = i + 1;
    }
    assert(senses@.take(senses@.len() as int) =~= senses@);
}

/// Add the keys of the readings of a phrase.
fn add_reading_keys(readings: &Vec<ReadingElement>, offset: u32, lookup: &mut Vec<(String, Id)>)
    ensures
        keys_view(final(lookup)@) == keys_view(old(lookup)@) + readings_keys(readings@, offset),
{
    let mut i: usize = 0;
    while i < readings.len()
        invariant
            i <= readings@.len(),
            keys_view(lookup@) == keys_view(old(lookup)@) + readings_keys(readings@.take(i as int), offset),
        decreases readings@.len() - i,
    {
        let text = readings[i].text;
        assert(readings@.take(i + 1).drop_last() =~= readings@.take(i as int));
        let ghost before = lookup@;
        lookup.push((text.to_string(), Id::phrase(offset, PhraseIndex::Hiragana)));
        other_readings(
            lookup,
            text,
            Id::phrase(offset, PhraseIndex::Romanized),
            Id::phrase(offset, PhraseIndex::Katakana),
            Transform::Katakana,
        );
        assert(keys_view(lookup@) =~= keys_view(before) + reading_keys(text@, offset));
        i = i + 1;
    }
    assert(readings@.take(readings@.len() as int) =~= readings@);
}

/// Add the keys of the kanji spellings of a phrase.
fn add_spelling_keys(kanji: &Vec<KanjiElement>, offset: u32, lookup: &mut Vec<(String, Id)>)
    ensures
        keys_view(final(lookup)@) == keys_view(old(lookup)@) + spellings_keys(kanji@, offset),
{
    let mut i: usize = 0;
    while i < kanji.len()
        invariant
            i <= kanji@.len(),
            keys_view(lookup@) == keys_view(old(lookup)@) + spellings_keys(kanji@.take(i as int), offset),
        decreases kanji@.len() - i,
    {
        let text = kanji[i].text;
        assert(kanji@.take(i + 1).drop_last() =~= kanji@.take(i as int));
        let ghost before = lookup@;
        match full_to_half_string(text) {
            Some(half) => {
                lookup.push((half, Id::phrase(offset, PhraseIndex::KanjiHalf)));
            },
            None => {},
        }
        lookup.push((text.to_string(), Id::phrase(offset, PhraseIndex::Kanji)));
        assert(keys_view(lookup@) =~= keys_view(before) + kanji_spelling_keys(text@, offset));
        i = i + 1;
    }
    assert(kanji@.take(kanji@.len() as int) =~= kanji@);
}

/// Add the keys of the texts of a phrase stored at `offset`: the terms of
/// its glossaries, its readings and its kanji spellings.
pub fn add_phrase_text_keys(entry: &Entry, offset: u32, lookup: &mut Vec<(String, Id)>)
    requires
        glossaries_without_nul(*entry),
    ensures
        keys_view(final(lookup)@) == keys_view(old(lookup)@) + phrase_text_keys(*entry, offset),
{
    let ghost start = keys_view(lookup@);
    add_sense_keys(&entry.senses, Id::phrase(offset, PhraseIndex::Meaning), lookup);
    add_reading_keys(&entry.reading_elements, offset, lookup);
    add_spelling_keys(&entry.kanji_elements, offset, lookup);
    assert(keys_view(lookup@) =~= start + phrase_text_keys(*entry, offset));
}

/// The stored identifier of a kanji at `offset`, indexed by `index`.
pub open spec fn kanji_id(offset: u32, index: KanjiIndex) -> Id {
    Id { offset, source: Source::Kanji { index } }
}

/// The position of the first `.` at or after `i`.
pub open spec fn first_dot_from(s: Seq<char>, i: int) -> Option<int>
    decreases s.len() - i,
{
    if i < 0 || i >= s.len() {
        None
    } else if s[i] == '.' {
        Some(i)
    } else {
        first_dot_from(s, i + 1)
    }
}

/// The keys of a reading of a kanji. A kun'yomi is indexed romanized, in
/// katakana and as is, first up to its first `.` where it has one, then
/// whole; an on'yomi romanized, in hiragana and as is; any other reading
/// as is.
pub open spec fn kanji_reading_keys(r: Reading, offset: u32) -> Seq<KeyView> {
    let text = r.text@;
    if r.ty@ == "ja_kun"@ {
        let okurigana = match first_dot_from(text, 0) {
            Some(d) => seq![
                (convert_text(Transform::Romaji, text.take(d)), kanji_id(offset, KanjiIndex::KunyomiRomanize)),
                (convert_text(Transform::Katakana, text.take(d)), kanji_id(offset, KanjiIndex::KunyomiKatakana)),
                (text.take(d), kanji_id(offset, KanjiIndex::KunyomiHiragana)),
            ],
            None => Seq::empty(),
        };
        okurigana + seq![
            (convert_text(Transform::Romaji, text), kanji_id(offset, KanjiIndex::KunyomiFullRomanized)),
            (convert_text(Transform::Katakana, text), kanji_id(offset, KanjiIndex::KunyomiFullKatakana)),
            (text, kanji_id(offset, KanjiIndex::KunyomiFullHiragana)),
        ]
    } else if r.ty@ == "ja_on"@ {
        seq![
            (convert_text(Transform::Romaji, text), kanji_id(offset, KanjiIndex::OnyomiRomanized)),
            (convert_text(Transform::Hiragana, text), kanji_id(offset, KanjiIndex::OnyomiHiragana)),
            (text, kanji_id(offset, KanjiIndex::OnyomiKatakana)),
        ]
    } else {
        seq![(text, kanji_id(offset, KanjiIndex::Other))]
    }
}

/// The keys of the readings of a kanji.
pub open spec fn kanji_readings_keys(rs: Seq<Reading>, offset: u32) -> Seq<KeyView>
    decreases rs.len(),
{
    if rs.len() == 0 {
        Seq::empty()
    } else {
        kanji_readings_keys(rs.drop_last(), offset) + kanji_reading_keys(rs.last(), offset)
    }
}

/// The keys of the meanings of a kanji: the terms of each.
pub open spec fn meaning_keys(ms: Seq<Meaning>, id: Id) -> Seq<KeyView>
    decreases ms.len(),
{
    if ms.len() == 0 {
        Seq::empty()
    } else {
        meaning_keys(ms.drop_last(), id) + tagged(text_terms(ms.last().text@), id)
    }
}

/// The keys of a kanji: its literal, its readings, and the terms of its
/// meanings.
pub open spec fn character_keys(c: Character, offset: u32) -> Seq<KeyView> {
    seq![(c.literal@, kanji_id(offset, KanjiIndex::Literal))] + kanji_readings_keys(
        c.readings@,
        offset,
    ) + meaning_keys(c.meanings@, kanji_id(offset, KanjiIndex::Meaning))
}

/// No meaning of the kanji holds a NUL character.
pub open spec fn meanings_without_nul(c: Character) -> bool {
    forall|i: int| 0 <= i < c.meanings@.len() ==> !(#[trigger] c.meanings@[i]).text@.contains('\0')
}

/// The text up to the first `.`, where it has one.
fn before_dot(s: &str) -> (r: Option<&str>)
    ensures
        match first_dot_from(s@, 0) {
            Some(d) => r matches Some(p) && p@ == s@.take(d),
            None => r is None,
        },
{
    let n = s.unicode_len();
    let mut i: usize = 0;
    while i < n
        invariant
            n == s@.len(),
            i <= n,
            first_dot_from(s@, 0) == first_dot_from(s@, i as int),
        decreases n - i,
    {
        if s.get_char(i) == '.' {
            let p = s.substring_char(0, i);
            assert(p@ =~= s@.take(i as int));
            return Some(p);
        }
        i = i + 1;
    }
    None
}

/// Add the keys of one reading of a kanji.
fn add_kanji_reading_keys(r: &Reading, offset: u32, lookup: &mut Vec<(String, Id)>)
    ensures
        keys_view(final(lookup)@) == keys_view(old(lookup)@) + kanji_reading_keys(*r, offset),
{
    let ghost start = keys_view(lookup@);
    proof {
        reveal_strlit("ja_kun");
        reveal_strlit("ja_on");
    }
    if str_eq(r.ty, "ja_kun") {
        match before_dot(r.text) {
            Some(prefix) => {
                other_readings(
                    lookup,
                    prefix,
                    Id::kanji(offset, KanjiIndex::KunyomiRomanize),
                    Id::kanji(offset, KanjiIndex::KunyomiKatakana),
                    Transform::Katakana,
                );
                lookup.push((prefix.to_string(), Id::kanji(offset, KanjiIndex::KunyomiHiragana)));
            },
            None => {},
        }
        other_readings(
            lookup,
            r.text,
            Id::kanji(offset, KanjiIndex::KunyomiFullRomanized),
            Id::kanji(offset, KanjiIndex::KunyomiFullKatakana),
            Transform::Katakana,
        );
        lookup.push((r.text.to_string(), Id::kanji(offset, KanjiIndex::KunyomiFullHiragana)));
    } else if str_eq(r.ty, "ja_on") {
        other_readings(
            lookup,
            r.text,
            Id::kanji(offset, KanjiIndex::OnyomiRomanized),
            Id::kanji(offset, KanjiIndex::OnyomiHiragana),
            Transform::Hiragana,
        );
        lookup.push((r.text.to_string(), Id::kanji(offset, KanjiIndex::OnyomiKatakana)));
    } else {
        lookup.push((r.text.to_string(), Id::kanji(offset, KanjiIndex::Other)));
    }
    assert(keys_view(lookup@) =~= start + kanji_reading_keys(*r, offset));
}

/// Add the keys of the terms of a text under `id`.
fn add_terms(text: &str, id: Id, lookup: &mut Vec<(String, Id)>)
    requires
        !text@.contains('\0'),
    ensures
        keys_view(final(lookup)@) == keys_view(old(lookup)@) + tagged(text_terms(text@), id),
{
    let ghost mid = lookup@;
    populate_analyzed(text, lookup, id);
    let ghost added = text_terms(text@);
    assert(lookup@.len() == mid.len() + added.len());
    assert forall|x: int| 0 <= x < lookup@.len() implies #[trigger] keys_view(lookup@)[x] == (
    keys_view(mid) + tagged(added, id))[x] by {
        if x >= mid.len() {
            let y = x - mid.len();
            assert(lookup@[mid.len() + y].0@ == added[y]);
        }
    }
    assert(keys_view(lookup@) =~= keys_view(mid) + tagged(added, id));
}

/// Add the keys of a kanji stored at `offset`: its literal, its readings
/// and the terms of its meanings.
pub fn add_character_keys(c: &Character, offset: u32, lookup: &mut Vec<(String, Id)>)
    requires
        meanings_without_nul(*c),
    ensures
        keys_view(final(lookup)@) == keys_view(old(lookup)@) + character_keys(*c, offset),
{
    let ghost start = keys_view(lookup@);
    lookup.push((c.literal.to_string(), Id::kanji(offset, KanjiIndex::Literal)));
    let mut i: usize = 0;
    while i < c.readings.len()
        invariant
            i <= c.readings@.len(),
            keys_view(lookup@) == start + seq![(c.literal@, kanji_id(offset, KanjiIndex::Literal))]
                + kanji_readings_keys(c.readings@.take(i as int), offset),
        decreases c.readings@.len() - i,
    {
        assert(c.readings@.take(i + 1).drop_last() =~= c.readings@.take(i as int));
        let ghost before = keys_view(lookup@);
        add_kanji_reading_keys(&c.readings[i], offset, lookup);
        assert(keys_view(lookup@) =~= before + kanji_reading_keys(c.readings@[i as int], offset));
        i = i + 1;
    }
    assert(c.readings@.take(c.readings@.len() as int) =~= c.readings@);
    let ghost mid = keys_view(lookup@);
    let id = Id::kanji(offset, KanjiIndex::Meaning);
    let mut m: usize = 0;
    while m < c.meanings.len()
        invariant
            m <= c.meanings@.len(),
            meanings_without_nul(*c),
            id == kanji_id(offset, KanjiIndex::Meaning),
            keys_view(lookup@) == mid + meaning_keys(c.meanings@.take(m as int), id),
        decreases c.meanings@.len() - m,
    {
        assert(c.meanings@.take(m + 1).drop_last() =~= c.meanings@.take(m as int));
        add_terms(c.meanings[m].text, id, lookup);
        m = m + 1;
    }
    assert(c.meanings@.take(c.meanings@.len() as int) =~= c.meanings@);
    assert(keys_view(lookup@) =~= start + character_keys(*c, offset));
}

/// The stored identifier of a name at `offset`, indexed by `index`.
pub open spec fn name_id(offset: u32, index: NameIndex) -> Id {
    Id { offset, source: Source::Name { index } }
}

/// The keys of the kanji spellings of a name.
pub open spec fn name_spelling_keys(ks: Seq<&str>, offset: u32) -> Seq<KeyView>
    decreases ks.len(),
{
    if ks.len() == 0 {
        Seq::empty()
    } else {
        name_spelling_keys(ks.drop_last(), offset) + seq![(ks.last()@, name_id(offset, NameIndex::Literal))]
    }
}

/// The keys of the readings of a name: each reading as is, romanized and
/// in katakana.
pub open spec fn name_reading_keys(rs: Seq<jmnedict::Reading>, offset: u32) -> Seq<KeyView>
    decreases rs.len(),
{
    if rs.len() == 0 {
        Seq::empty()
    } else {
        let t = rs.last().text@;
        name_reading_keys(rs.drop_last(), offset) + seq![
            (t, name_id(offset, NameIndex::Hiragana)),
            (convert_text(Transform::Romaji, t), name_id(offset, NameIndex::Romanized)),
            (convert_text(Transform::Katakana, t), name_id(offset, NameIndex::Katakana)),
        ]
    }
}

/// The keys of a name: its kanji spellings, then its readings.
pub open spec fn name_keys(e: jmnedict::Entry, offset: u32) -> Seq<KeyView> {
    name_spelling_keys(e.kanji@, offset) + name_reading_keys(e.reading@, offset)
}

/// Add the keys of a name stored at `offset`: its kanji spellings and its
/// readings.
pub fn add_name_keys(e: &jmnedict::Entry, offset: u32, lookup: &mut Vec<(String, Id)>)
    ensures
        keys_view(final(lookup)@) == keys_view(old(lookup)@) + name_keys(*e, offset),
{
    let ghost start = keys_view(lookup@);
    let mut i: usize = 0;
    while i < e.kanji.len()
        invariant
            i <= e.kanji@.len(),
            keys_view(lookup@) == start + name_spelling_keys(e.kanji@.take(i as int), offset),
        decreases e.kanji@.len() - i,
    {
        assert(e.kanji@.take(i + 1).drop_last() =~= e.kanji@.take(i as int));
        let ghost before = keys_view(lookup@);
        lookup.push((e.kanji[i].to_string(), Id::name(offset, NameIndex::Literal)));
        assert(keys_view(lookup@) =~= before + seq![(e.kanji@[i as int]@, name_id(offset, NameIndex::Literal))]);
        i = i + 1;
    }
    assert(e.kanji@.take(e.kanji@.len() as int) =~= e.kanji@);
    let ghost mid = keys_view(lookup@);
    let mut k: usize = 0;
    while k < e.reading.len()
        invariant
            k <= e.reading@.len(),
            keys_view(lookup@) == mid + name_reading_keys(e.reading@.take(k as int), offset),
        decreases e.reading@.len() - k,
    {
        assert(e.reading@.take(k + 1).drop_last() =~= e.reading@.take(k as int));
        let ghost before = keys_view(lookup@);
        let text = e.reading[k].text;
        lookup.push((text.to_string(), Id::name(offset, NameIndex::Hiragana)));
        other_readings(
            lookup,
            text,
            Id::name(offset, NameIndex::Romanized),
            Id::name(offset, NameIndex::Katakana),
            Transform::Katakana,
        );
        assert(keys_view(lookup@) =~= before + seq![
            (text@, name_id(offset, NameIndex::Hiragana)),
            (convert_text(Transform::Romaji, text@), name_id(offset, NameIndex::Romanized)),
            (convert_text(Transform::Katakana, text@), name_id(offset, NameIndex::Katakana)),
        ]);
        k = k + 1;
    }
    assert(e.reading@.take(e.reading@.len() as int) =~= e.reading@);
    assert(keys_view(lookup@) =~= start + name_keys(*e, offset));
}

/// Test if a text holds a NUL character.
fn has_nul(text: &str) -> (r: bool)
    ensures
        r == text@.contains('\0'),
{
    let n = text.unicode_len();
    let mut i: usize = 0;
    while i < n
        invariant
            n == text@.len(),
            i <= n,
            forall|k: int| 0 <= k < i ==> text@[k] != '\0',
        decreases n - i,
    {
        if text.get_char(i) == '\0' {
            return true;
        }
        i = i + 1;
    }
    false
}

/// Test if no glossary of the phrase holds a NUL character, which the
/// analysis of glossaries into terms needs.
pub fn phrase_is_indexable(entry: &Entry) -> (r: bool)
    ensures
        r == glossaries_without_nul(*entry),
{
    let mut i: usize = 0;
    while i < entry.senses.len()
        invariant
            i <= entry.senses@.len(),
            forall|a: int, k: int|
                0 <= a < i && 0 <= k < entry.senses@[a].gloss@.len() ==> !(
                #[trigger] entry.senses@[a].gloss@[k]).text@.contains('\0'),
        decreases entry.senses@.len() - i,
    {
        let sense = &entry.senses[i];
        let mut k: usize = 0;
        while k < sense.gloss.len()
            invariant
                i < entry.senses@.len(),
                *sense == entry.senses@[i as int],
                k <= sense.gloss@.len(),
                forall|a: int, b: int|
                    0 <= a < i && 0 <= b < entry.senses@[a].gloss@.len() ==> !(
                    #[trigger] entry.senses@[a].gloss@[b]).text@.contains('\0'),
                forall|b: int| 0 <= b < k ==> !(#[trigger] sense.gloss@[b]).text@.contains('\0'),
            decreases sense.gloss@.len() - k,
        {
            if has_nul(sense.gloss[k].text) {
                assert(entry.senses@[i as int].gloss@[k as int].text@.contains('\0'));
                return false;
            }
            k = k + 1;
        }
        i = i + 1;
    }
    true
}

/// Test if no meaning of the kanji holds a NUL character, which the
/// analysis of meanings into terms needs.
pub fn character_is_indexable(c: &Character) -> (r: bool)
    ensures
        r == meanings_without_nul(*c),
{
    let mut i: usize = 0;
    while i < c.meanings.len()
        invariant
            i <= c.meanings@.len(),
            forall|k: int| 0 <= k < i ==> !(#[trigger] c.meanings@[k]).text@.contains('\0'),
        decreases c.meanings@.len() - i,
    {
        if has_nul(c.meanings[i].text) {
            return false;
        }
        i = i + 1;
    }
    true
}

} // verus!
