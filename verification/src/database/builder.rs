//! Building an index held in memory from the dictionaries: each entry is
//! parsed in turn and stored under its keys.

use vstd::prelude::*;

use super::by_pos::{add_pos_keys, senses_pos_keys};
use super::index::{Input, InflectionData};
use super::inflections::{
    add_conjugation_keys, conjugation_items, item_data, items_keys, table_after, InflectionTable,
};
use super::keys::{
    add_character_keys, add_name_keys, add_phrase_text_keys, character_is_indexable, character_keys,
    glossaries_without_nul, keys_view, meanings_without_nul, name_keys, phrase_is_indexable, phrase_text_keys, KeyView,
};
use super::search::IndexTable;
use super::sequences::{sequence_key, SequenceTable};
use crate::entities::PartOfSpeech;
use crate::inflection::conjugate::{conjugate, conjugation_view, conjugations_of};
use crate::inflection::permutations::reading_permutations_of;
use crate::inflection::{Inflections, Kind, Reading};
use crate::jmdict;
use crate::jmnedict;
use crate::kanjidic2;
use crate::kradfile;
use crate::reporter::Reporter;
use crate::text::str_eq;
use crate::token::Token;
use crate::xml::{token_view, xml_tokens, ParseError, ReaderView, XmlToken};

verus! {

/// Why building an index stopped.
#[derive(Debug)]
pub enum BuildError {
    /// The task was shut down.
    Shutdown,
    /// A dictionary could not be parsed.
    Parse(ParseError),
    /// More entries than offsets of 32 bits can tell apart.
    TooManyEntries,
    /// A phrase has a glossary, or a character a meaning, holding NUL.
    NotIndexable,
    /// More distinct inflections than the table of inflections can hold.
    TooManyInflections,
}

/// An index held in memory: the entries of the dictionaries, and the
/// tables under which they are found.
pub struct MemoryIndex<'a> {
    pub phrases: Vec<jmdict::Entry<'a>>,
    pub characters: Vec<kanjidic2::Character<'a>>,
    pub names: Vec<jmnedict::Entry<'a>>,
    pub radicals: Vec<kradfile::OwnedEntry>,
    pub table: IndexTable,
    pub inflections: InflectionTable,
    pub by_pos: Vec<(PartOfSpeech, u32)>,
    pub sequences: SequenceTable,
}

/// What the tables of an index hold: the keys, the offset of each phrase,
/// the inflections, the parts of speech, and the phrases by sequence
/// number.
#[verifier::ext_equal]
pub struct IndexView {
    pub lookup: Seq<KeyView>,
    pub phrase_offsets: Seq<u32>,
    pub inflections: Seq<InflectionData>,
    pub by_pos: Seq<(PartOfSpeech, u32)>,
    pub sequences: Map<u32, u32>,
}

/// The conjugations of a phrase are those which `conjugate` gives.
pub open spec fn conjugated<'a>(e: jmdict::Entry<'a>, c: Seq<(Reading, Inflections<'a>, Kind)>) -> bool {
    &&& c.map_values(|x: (Reading, Inflections<'a>, Kind)| conjugation_view(x)) == conjugations_of(
        reading_permutations_of(e, e.reading_elements@.len() as int),
    )
    &&& forall|i: int| 0 <= i < c.len() ==> (#[trigger] c[i]).1.wf()
}

/// The tables after a phrase at `offset`, with the conjugations `c`, is
/// added: the keys of its texts, then those of its inflected forms, its
/// offset, its new inflections, its parts of speech, and its sequence
/// number.
pub open spec fn phrase_step<'a>(
    iv: IndexView,
    e: jmdict::Entry<'a>,
    offset: u32,
    c: Seq<(Reading, Inflections<'a>, Kind)>,
) -> IndexView {
    IndexView {
        lookup: iv.lookup + phrase_text_keys(e, offset) + items_keys(
            iv.inflections,
            conjugation_items(c),
            offset,
        ),
        phrase_offsets: iv.phrase_offsets.push(offset),
        inflections: table_after(iv.inflections, item_data(conjugation_items(c))),
        by_pos: iv.by_pos + senses_pos_keys(e.senses@, offset),
        sequences: iv.sequences.insert(sequence_key(e.sequence), offset),
    }
}

/// The tables after the phrases `es` are added in turn, the first at
/// offset `base`, with the conjugations `cs`.
pub open spec fn phrases_after<'a>(
    iv: IndexView,
    es: Seq<jmdict::Entry<'a>>,
    base: int,
    cs: Seq<Seq<(Reading, Inflections<'a>, Kind)>>,
) -> IndexView
    decreases es.len(),
{
    if es.len() == 0 {
        iv
    } else {
        phrase_step(
            phrases_after(iv, es.drop_last(), base, cs.drop_last()),
            es.last(),
            (base + es.len() - 1) as u32,
            cs[es.len() - 1],
        )
    }
}

/// The tables after the characters `cs` are added in turn, the first at
/// offset `base`: the keys of each.
pub open spec fn characters_after<'a>(iv: IndexView, cs: Seq<kanjidic2::Character<'a>>, base: int) -> IndexView
    decreases cs.len(),
{
    if cs.len() == 0 {
        iv
    } else {
        let prev = characters_after(iv, cs.drop_last(), base);
        IndexView {
            lookup: prev.lookup + character_keys(cs.last(), (base + cs.len() - 1) as u32),
            ..prev
        }
    }
}

/// The tables after the names `ns` are added in turn, the first at offset
/// `base`: the keys of each.
pub open spec fn names_after<'a>(iv: IndexView, ns: Seq<jmnedict::Entry<'a>>, base: int) -> IndexView
    decreases ns.len(),
{
    if ns.len() == 0 {
        iv
    } else {
        let prev = names_after(iv, ns.drop_last(), base);
        IndexView { lookup: prev.lookup + name_keys(ns.last(), (base + ns.len() - 1) as u32), ..prev }
    }
}

/// A reader which stands at the start of a document.
pub open spec fn reader_at_start<'a>(v: ReaderView<'a>, doc: Seq<char>) -> bool {
    &&& v.tokens.map_values(|t: Result<XmlToken<'a>, String>| token_view(t)) == xml_tokens(doc)
    &&& v.pos == 0
    &&& !v.closed
    &&& v.path == Seq::<&'a str>::empty()
}

/// A phrase has a glossary holding NUL.
pub open spec fn phrase_has_nul<'a>(e: jmdict::elements::EntryView<'a>) -> bool {
    exists|i: int, k: int|
        0 <= i < e.senses.len() && 0 <= k < e.senses[i].gloss.len() && (
        #[trigger] e.senses[i].gloss[k]).text@.contains('\0')
}

/// A character has a meaning holding NUL.
pub open spec fn character_has_nul<'a>(c: kanjidic2::elements::CharacterView<'a>) -> bool {
    exists|i: int| 0 <= i < c.meanings.len() && (#[trigger] c.meanings[i]).text@.contains('\0')
}

/// The inflections of a phrase would take the table of inflections past
/// the positions of 16 bits.
pub open spec fn inflections_overflow<'a>(
    e: jmdict::elements::EntryView<'a>,
    table: Seq<InflectionData>,
) -> bool {
    exists|x: jmdict::Entry<'a>, c: Seq<(Reading, Inflections<'a>, Kind)>|
        #![trigger conjugated(x, c)]
        x@ == e && conjugated(x, c) && table_after(table, item_data(conjugation_items(c))).len()
            > u16::MAX
}

/// Why a phrase at `offset` cannot be added: its offset does not fit in
/// 32 bits, else a glossary holds NUL, else its inflections overflow the
/// table.
pub open spec fn phrase_failure<'a>(e: jmdict::elements::EntryView<'a>, offset: int) -> BuildError {
    if offset >= 4294967295 {
        BuildError::TooManyEntries
    } else if phrase_has_nul(e) {
        BuildError::NotIndexable
    } else {
        BuildError::TooManyInflections
    }
}

/// A glossary of a phrase holds NUL exactly when one of its views does.
pub proof fn lemma_phrase_nul<'a>(e: jmdict::Entry<'a>)
    ensures
        glossaries_without_nul(e) == !phrase_has_nul(e@),
{
    if !glossaries_without_nul(e) {
        let (i, k) = choose|i: int, k: int|
            0 <= i < e.senses@.len() && 0 <= k < e.senses@[i].gloss@.len() && (
            #[trigger] e.senses@[i].gloss@[k]).text@.contains('\0');
        assert(e@.senses[i].gloss[k] == e.senses@[i].gloss@[k]);
    }
    if phrase_has_nul(e@) {
        let (i, k) = choose|i: int, k: int|
            0 <= i < e@.senses.len() && 0 <= k < e@.senses[i].gloss.len() && (
            #[trigger] e@.senses[i].gloss[k]).text@.contains('\0');
        assert(e@.senses[i].gloss[k] == e.senses@[i].gloss@[k]);
    }
}

/// What adding a jmdict document gives: the entries parsed from the
/// document in turn are added, each with its keys, and the addition ends
/// with the document, the error that stopped parsing, or earlier.
pub open spec fn jmdict_added<'a>(
    before: MemoryIndex<'a>,
    after: MemoryIndex<'a>,
    doc: Seq<char>,
    r: Result<(), BuildError>,
) -> bool {
    &&& after.characters == before.characters
    &&& after.names == before.names
    &&& after.radicals == before.radicals
    &&& after.phrases@.len() >= before.phrases@.len()
    &&& after.phrases@.take(before.phrases@.len() as int) == before.phrases@
    &&& exists|v0: ReaderView<'a>, cs: Seq<Seq<(Reading, Inflections<'a>, Kind)>>|
        #![trigger reader_at_start(v0, doc), phrases_after(
            before.view(),
            after.phrases@.skip(before.phrases@.len() as int),
            before.phrases@.len() as int,
            cs,
        )]
        reader_at_start(v0, doc) && {
            let es = after.phrases@.skip(before.phrases@.len() as int);
            let found = jmdict::parser::entries_from(Seq::empty(), v0);
            &&& es.map_values(|e: jmdict::Entry<'a>| e@) == found.0.take(es.len() as int)
            &&& cs.len() == es.len()
            &&& forall|i: int| 0 <= i < es.len() ==> conjugated(es[i], #[trigger] cs[i])
            &&& after.view() == phrases_after(
                before.view(),
                es,
                before.phrases@.len() as int,
                cs,
            )
            &&& r is Ok ==> es.len() == found.0.len() && found.1 is None
            &&& r matches Err(BuildError::Parse(p)) ==> es.len() == found.0.len()
                && found.1 == Some(p.kind)
            &&& (r is Err && !(r matches Err(BuildError::Parse(_)))) ==> es.len() < found.0.len()
            &&& es.len() < found.0.len() ==> r is Err && (r != Err::<(), BuildError>(
                BuildError::Shutdown,
            ) ==> r == Err::<(), BuildError>(
                phrase_failure(found.0[es.len() as int], (before.phrases@.len() + es.len()) as int),
            ))
            &&& r == Err::<(), BuildError>(BuildError::TooManyInflections) ==> inflections_overflow(
                found.0[es.len() as int],
                after.view().inflections,
            )
        }
}

/// What adding a kanjidic2 document gives: the entries parsed from the
/// document in turn are added, each with its keys, and the addition ends
/// with the document, the error that stopped parsing, or earlier.
pub open spec fn kanjidic2_added<'a>(
    before: MemoryIndex<'a>,
    after: MemoryIndex<'a>,
    doc: Seq<char>,
    r: Result<(), BuildError>,
) -> bool {
    &&& after.phrases == before.phrases
    &&& after.names == before.names
    &&& after.radicals == before.radicals
    &&& after.characters@.len() >= before.characters@.len()
    &&& after.characters@.take(before.characters@.len() as int) == before.characters@
    &&& after.view() == characters_after(
        before.view(),
        after.characters@.skip(before.characters@.len() as int),
        before.characters@.len() as int,
    )
    &&& exists|v0: ReaderView<'a>|
        #[trigger] reader_at_start(v0, doc) && {
            let cs = after.characters@.skip(before.characters@.len() as int);
            let found = kanjidic2::parser::characters_from(Seq::empty(), v0);
            &&& cs.map_values(|c: kanjidic2::Character<'a>| c@) == found.0.take(cs.len() as int)
            &&& r is Ok ==> cs.len() == found.0.len() && found.1 is None
            &&& r matches Err(BuildError::Parse(p)) ==> cs.len() == found.0.len()
                && found.1 == Some(p.kind)
            &&& (r is Err && !(r matches Err(BuildError::Parse(_)))) ==> cs.len() < found.0.len()
            &&& cs.len() < found.0.len() ==> r is Err && (r != Err::<(), BuildError>(
                BuildError::Shutdown,
            ) ==> r == Err::<(), BuildError>(
                if before.characters@.len() + cs.len() >= 4294967295 {
                    BuildError::TooManyEntries
                } else {
                    BuildError::NotIndexable
                },
            ))
            &&& r == Err::<(), BuildError>(BuildError::NotIndexable) ==> character_has_nul(
                found.0[cs.len() as int],
            )
        }
}

/// What adding a jmnedict document gives: the entries parsed from the
/// document in turn are added, each with its keys, and the addition ends
/// with the document, the error that stopped parsing, or earlier.
pub open spec fn jmnedict_added<'a>(
    before: MemoryIndex<'a>,
    after: MemoryIndex<'a>,
    doc: Seq<char>,
    r: Result<(), BuildError>,
) -> bool {
    &&& after.phrases == before.phrases
    &&& after.characters == before.characters
    &&& after.radicals == before.radicals
    &&& after.names@.len() >= before.names@.len()
    &&& after.names@.take(before.names@.len() as int) == before.names@
    &&& after.view() == names_after(
        before.view(),
        after.names@.skip(before.names@.len() as int),
        before.names@.len() as int,
    )
    &&& exists|toks: Seq<Result<XmlToken<'a>, String>>, trims: spec_fn(int) -> &'a str, end: int|
        #![trigger jmnedict::parser::trims_fit(toks, trims, 0, end)]
        toks.map_values(|t: Result<XmlToken<'a>, String>| token_view(t)) == xml_tokens(doc)
            && jmnedict::parser::trims_fit(toks, trims, 0, end) && {
            let ns = after.names@.skip(before.names@.len() as int);
            let found = jmnedict::parser::names_from(
                Seq::empty(),
                toks,
                0,
                Seq::empty(),
                trims,
            );
            &&& ns.map_values(|e: jmnedict::Entry<'a>| e@) == found.0.take(ns.len() as int)
            &&& r is Ok ==> ns.len() == found.0.len() && found.1 is None
            &&& r matches Err(BuildError::Parse(p)) ==> ns.len() == found.0.len()
                && found.1 == Some(p.kind)
            &&& (r is Err && !(r matches Err(BuildError::Parse(_)))) ==> ns.len() < found.0.len()
            &&& ns.len() < found.0.len() ==> r is Err && (r != Err::<(), BuildError>(
                BuildError::Shutdown,
            ) ==> r == Err::<(), BuildError>(BuildError::TooManyEntries)
                && before.names@.len() + ns.len() >= 4294967295)
        }
}

/// What adding a KRADFILE document gives: its entries in turn, all of
/// them unless the task was shut down.
pub open spec fn kradfile_added<'a>(
    before: MemoryIndex<'a>,
    after: MemoryIndex<'a>,
    doc: Seq<u8>,
    r: Result<(), BuildError>,
) -> bool {
    let es = after.radicals@.skip(before.radicals@.len() as int).map_values(
        |e: kradfile::OwnedEntry| kradfile::entry_view(e),
    );
    let found = kradfile::entries_from(doc, 0);
    &&& after.phrases == before.phrases
    &&& after.characters == before.characters
    &&& after.names == before.names
    &&& after.view() == before.view()
    &&& after.radicals@.len() >= before.radicals@.len()
    &&& after.radicals@.take(before.radicals@.len() as int) == before.radicals@
    &&& es == found.take(es.len() as int)
    &&& r is Ok ==> es.len() == found.len()
    &&& r is Err ==> r == Err::<(), BuildError>(BuildError::Shutdown) && es.len() < found.len()
}

/// What adding a dictionary gives, by its kind.
pub open spec fn input_added<'a>(
    before: MemoryIndex<'a>,
    after: MemoryIndex<'a>,
    input: Input<'a>,
    r: Result<(), BuildError>,
) -> bool {
    match input {
        Input::Jmdict(d) => jmdict_added(before, after, d@, r),
        Input::Kanjidic2(d) => kanjidic2_added(before, after, d@, r),
        Input::Jmnedict(d) => jmnedict_added(before, after, d@, r),
        Input::Kradfile(d) => kradfile_added(before, after, d@, r),
    }
}

/// An index which holds nothing.
pub open spec fn is_empty_index<'a>(ix: MemoryIndex<'a>) -> bool {
    &&& ix.wf()
    &&& ix.view() == (IndexView {
        lookup: Seq::empty(),
        phrase_offsets: Seq::empty(),
        inflections: Seq::empty(),
        by_pos: Seq::empty(),
        sequences: Map::empty(),
    })
    &&& ix.phrases@.len() == 0
    &&& ix.characters@.len() == 0
    &&& ix.names@.len() == 0
    &&& ix.radicals@.len() == 0
}

/// Copy the inflections of a table.
fn copy_data(data: &Vec<InflectionData>) -> (r: Vec<InflectionData>)
    ensures
        r@ == data@,
{
    let mut out: Vec<InflectionData> = Vec::new();
    let mut i: usize = 0;
    while i < data.len()
        invariant
            i <= data@.len(),
            out@ == data@.take(i as int),
        decreases data@.len() - i,
    {
        out.push(data[i]);
        assert(out@ =~= data@.take(i + 1));
        i = i + 1;
    }
    assert(data@.take(data@.len() as int) =~= data@);
    out
}

impl<'a> MemoryIndex<'a> {
    /// What the tables of the index hold.
    pub open spec fn view(&self) -> IndexView {
        IndexView {
            lookup: keys_view(self.table.lookup@),
            phrase_offsets: self.table.phrases@,
            inflections: self.inflections@,
            by_pos: self.by_pos@,
            sequences: self.sequences@,
        }
    }

    /// The table of inflections is well formed, and the lookup table holds
    /// its inflections.
    pub open spec fn wf(&self) -> bool {
        &&& self.inflections.wf()
        &&& self.table.inflections@ == self.inflections@
    }

    /// An empty index.
    pub fn new() -> (r: Self)
        ensures
            r.wf(),
            r.view() == (IndexView {
                lookup: Seq::empty(),
                phrase_offsets: Seq::empty(),
                inflections: Seq::empty(),
                by_pos: Seq::empty(),
                sequences: Map::empty(),
            }),
            r.phrases@.len() == 0,
            r.characters@.len() == 0,
            r.names@.len() == 0,
            r.radicals@.len() == 0,
    {
        let r = MemoryIndex {
            phrases: Vec::new(),
            characters: Vec::new(),
            names: Vec::new(),
            radicals: Vec::new(),
            table: IndexTable { lookup: Vec::new(), phrases: Vec::new(), inflections: Vec::new() },
            inflections: InflectionTable::new(),
            by_pos: Vec::new(),
            sequences: SequenceTable::new(),
        };
        assert(keys_view(r.table.lookup@) =~= Seq::<KeyView>::empty());
        assert(r.view() =~= (IndexView {
            lookup: Seq::empty(),
            phrase_offsets: Seq::empty(),
            inflections: Seq::empty(),
            by_pos: Seq::empty(),
            sequences: Map::empty(),
        }));
        r
    }

    /// Add every phrase of a JMdict document in turn: each stored under
    /// the keys of its texts and of its inflected forms, its parts of
    /// speech and its sequence number, until the document ends, parsing
    /// fails, or the task is shut down.
    pub fn add_jmdict<R: Reporter>(&mut self, reporter: &R, shutdown: &Token, input: &'a str) -> (r:
        Result<(), BuildError>)
        requires
            old(self).wf(),
        ensures
            final(self).wf(),
            jmdict_added(*old(self), *final(self), input@, r),
    {
        reporter.instrument_start("jpv_lib::database", "Processing dictionary `JMdict`", None);
        let mut parser = jmdict::parser::Parser::new(input);
        let ghost v0 = parser.reader();
        let ghost base = self.phrases@.len() as int;
        let ghost start = self.view();
        let ghost old_phrases = self.phrases@;
        let ghost mut cs: Seq<Seq<(Reading, Inflections<'a>, Kind)>> = Seq::empty();
        let mut count: usize = 0;
        proof {
            assert(parser.states() =~= Seq::<jmdict::parser::StateView<'a>>::empty());
            assert(self.phrases@.skip(base) =~= Seq::<jmdict::Entry<'a>>::empty());
            assert(self.phrases@.take(base) =~= self.phrases@);
        }
        let mut result: Result<(), BuildError> = Ok(());
        loop
            invariant_except_break
                result is Ok,
                jmdict::parser::entries_from(Seq::empty(), v0) == (
                    self.phrases@.skip(base).map_values(|e: jmdict::Entry<'a>| e@)
                        + jmdict::parser::entries_from(parser.states(), parser.reader()).0,
                    jmdict::parser::entries_from(parser.states(), parser.reader()).1,
                ),
            invariant
                self.inflections.wf(),
                count == self.phrases@.len() - base,
                self.characters == old(self).characters,
                self.names == old(self).names,
                self.radicals == old(self).radicals,
                base == old(self).phrases@.len(),
                start == old(self).view(),
                old_phrases == old(self).phrases@,
                reader_at_start(v0, input@),
                self.phrases@.len() >= base,
                self.phrases@.take(base) == old_phrases,
                cs.len() == self.phrases@.len() - base,
                forall|i: int|
                    0 <= i < cs.len() ==> conjugated(
                        self.phrases@.skip(base)[i],
                        #[trigger] cs[i],
                    ),
                self.view() == phrases_after(start, self.phrases@.skip(base), base, cs),
            ensures
                self.inflections.wf(),
                self.characters == old(self).characters,
                self.names == old(self).names,
                self.radicals == old(self).radicals,
                self.phrases@.len() >= base,
                self.phrases@.take(base) == old_phrases,
                cs.len() == self.phrases@.len() - base,
                forall|i: int|
                    0 <= i < cs.len() ==> conjugated(
                        self.phrases@.skip(base)[i],
                        #[trigger] cs[i],
                    ),
                self.view() == phrases_after(start, self.phrases@.skip(base), base, cs),
                ({
                    let es = self.phrases@.skip(base);
                    let found = jmdict::parser::entries_from(Seq::empty(), v0);
                    &&& es.map_values(|e: jmdict::Entry<'a>| e@) == found.0.take(es.len() as int)
                    &&& result is Ok ==> es.len() == found.0.len() && found.1 is None
                    &&& result matches Err(BuildError::Parse(p)) ==> es.len() == found.0.len()
                        && found.1 == Some(p.kind)
                    &&& (result is Err && !(result matches Err(BuildError::Parse(_)))) ==> es.len()
                        < found.0.len()
                    &&& es.len() < found.0.len() ==> result is Err && (result != Err::<(), BuildError>(
                        BuildError::Shutdown,
                    ) ==> result == Err::<(), BuildError>(
                        phrase_failure(found.0[es.len() as int], base + es.len()),
                    ))
                    &&& result == Err::<(), BuildError>(BuildError::TooManyInflections)
                        ==> inflections_overflow(found.0[es.len() as int], self.view().inflections)
                }),
            decreases parser.fuel(),
        {
            let ghost states = parser.states();
            let ghost v = parser.reader();
            let ghost done = self.phrases@.skip(base).map_values(|e: jmdict::Entry<'a>| e@);
            proof {
                parser.lemma_reader_pos();
                jmdict::parser::lemma_run_advances(states, v);
            }
            let entry = match parser.parse() {
                Ok(Some(entry)) => entry,
                Ok(None) => {
                    assert(jmdict::parser::entries_from(states, v) == (
                        Seq::<jmdict::elements::EntryView<'a>>::empty(),
                        None::<crate::xml::ErrorKind>,
                    ));
                    assert(done + Seq::<jmdict::elements::EntryView<'a>>::empty() =~= done);
                    assert(done.take(done.len() as int) =~= done);
                    assert(jmdict::parser::entries_from(Seq::empty(), v0).0 =~= done);
                    assert(jmdict::parser::entries_from(Seq::empty(), v0).1 is None);
                    break;
                },
                Err(p) => {
                    assert(jmdict::parser::entries_from(states, v) == (
                        Seq::<jmdict::elements::EntryView<'a>>::empty(),
                        Some(p.kind),
                    ));
                    assert(done + Seq::<jmdict::elements::EntryView<'a>>::empty() =~= done);
                    assert(done.take(done.len() as int) =~= done);
                    result = Err(BuildError::Parse(p));
                    break;
                },
            };
            proof {
                parser.lemma_reader_pos();
            }
            let ghost rest = jmdict::parser::entries_from(parser.states(), parser.reader());
            assert(jmdict::parser::entries_from(states, v) == (seq![entry@] + rest.0, rest.1));
            assert(done + (seq![entry@] + rest.0) =~= done.push(entry@) + rest.0);
            proof {
                assert((done + (seq![entry@] + rest.0)).take(done.len() as int) =~= done);
                let found = jmdict::parser::entries_from(Seq::empty(), v0);
                assert(found.0 == done.push(entry@) + rest.0);
                assert(found.0[done.len() as int] == entry@);
                assert(self.phrases@.skip(base).map_values(|e: jmdict::Entry<'a>| e@).len()
                    == self.phrases@.len() - base);
            }
            if shutdown.is_set() {
                assert(done.take(done.len() as int) =~= done);
                result = Err(BuildError::Shutdown);
                break;
            }
            if self.phrases.len() >= 4294967295 {
                assert(done.take(done.len() as int) =~= done);
                result = Err(BuildError::TooManyEntries);
                break;
            }
            let offset = self.phrases.len() as u32;
            if !phrase_is_indexable(&entry) {
                proof {
                    lemma_phrase_nul(entry);
                }
                assert(done.take(done.len() as int) =~= done);
                result = Err(BuildError::NotIndexable);
                break;
            }
            let conjugations = conjugate(&entry);
            if !self.inflections.fits(&conjugations) {
                proof {
                    lemma_phrase_nul(entry);
                    assert(conjugated(entry, conjugations@));
                }
                assert(done.take(done.len() as int) =~= done);
                result = Err(BuildError::TooManyInflections);
                break;
            }
            let ghost before = self.view();
            let ghost es = self.phrases@.skip(base);
            add_phrase_text_keys(&entry, offset, &mut self.table.lookup);
            add_conjugation_keys(&conjugations, offset, &mut self.inflections, &mut self.table.lookup);
            add_pos_keys(&entry, offset, &mut self.by_pos);
            self.sequences.insert(entry.sequence, offset);
            self.table.phrases.push(offset);
            self.phrases.push(entry);
            proof {
                let c = conjugations@;
                let old_cs = cs;
                cs = cs.push(c);
                let es2 = self.phrases@.skip(base);
                assert(es2 =~= es.push(entry));
                assert(es2.drop_last() =~= es);
                assert(cs.drop_last() =~= old_cs);
                assert(phrase_step(before, entry, offset, c) =~= self.view());
                assert(self.phrases@.take(base) =~= old_phrases);
                assert(es2.map_values(|e: jmdict::Entry<'a>| e@) =~= done.push(entry@));
            }
            count = count + 1;
            if count % 1000 == 0 {
                reporter.instrument_progress(1000);
            }
        }
        self.table.inflections = copy_data(self.inflections.data());
        reporter.instrument_end(count);
        result
    }

    /// Add every character of a KANJIDIC2 document in turn, each stored
    /// under its keys, until the document ends, parsing fails, or the task
    /// is shut down.
    pub fn add_kanjidic2<R: Reporter>(&mut self, reporter: &R, shutdown: &Token, input: &'a str) -> (r:
        Result<(), BuildError>)
        requires
            old(self).wf(),
        ensures
            final(self).wf(),
            kanjidic2_added(*old(self), *final(self), input@, r),
    {
        reporter.instrument_start("jpv_lib::database", "Processing dictionary `Kanjidic2`", None);
        let mut parser = kanjidic2::parser::Parser::new(input);
        let ghost v0 = parser.reader();
        let ghost base = self.characters@.len() as int;
        let ghost start = self.view();
        let ghost old_chars = self.characters@;
        let mut count: usize = 0;
        let mut result: Result<(), BuildError> = Ok(());
        proof {
            assert(parser.states() =~= Seq::<kanjidic2::parser::StateView<'a>>::empty());
            assert(self.characters@.skip(base) =~= Seq::<kanjidic2::Character<'a>>::empty());
            assert(self.characters@.take(base) =~= self.characters@);
        }
        loop
            invariant_except_break
                result is Ok,
                kanjidic2::parser::characters_from(Seq::empty(), v0) == (
                    self.characters@.skip(base).map_values(|c: kanjidic2::Character<'a>| c@)
                        + kanjidic2::parser::characters_from(parser.states(), parser.reader()).0,
                    kanjidic2::parser::characters_from(parser.states(), parser.reader()).1,
                ),
            invariant
                self.wf(),
                count == self.characters@.len() - base,
                self.phrases == old(self).phrases,
                self.names == old(self).names,
                self.radicals == old(self).radicals,
                base == old(self).characters@.len(),
                start == old(self).view(),
                old_chars == old(self).characters@,
                reader_at_start(v0, input@),
                self.characters@.len() >= base,
                self.characters@.take(base) == old_chars,
                self.view() == characters_after(start, self.characters@.skip(base), base),
            ensures
                self.wf(),
                self.phrases == old(self).phrases,
                self.names == old(self).names,
                self.radicals == old(self).radicals,
                self.characters@.len() >= base,
                self.characters@.take(base) == old_chars,
                self.view() == characters_after(start, self.characters@.skip(base), base),
                ({
                    let cs = self.characters@.skip(base);
                    let found = kanjidic2::parser::characters_from(Seq::empty(), v0);
                    &&& cs.map_values(|c: kanjidic2::Character<'a>| c@) == found.0.take(cs.len() as int)
                    &&& result is Ok ==> cs.len() == found.0.len() && found.1 is None
                    &&& result matches Err(BuildError::Parse(p)) ==> cs.len() == found.0.len()
                        && found.1 == Some(p.kind)
                    &&& (result is Err && !(result matches Err(BuildError::Parse(_)))) ==> cs.len()
                        < found.0.len()
                    &&& cs.len() < found.0.len() ==> result is Err && (result != Err::<(), BuildError>(
                        BuildError::Shutdown,
                    ) ==> result == Err::<(), BuildError>(
                        if base + cs.len() >= 4294967295 {
                            BuildError::TooManyEntries
                        } else {
                            BuildError::NotIndexable
                        },
                    ))
                    &&& result == Err::<(), BuildError>(BuildError::NotIndexable) ==> character_has_nul(
                        found.0[cs.len() as int],
                    )
                }),
            decreases parser.fuel(),
        {
            let ghost states = parser.states();
            let ghost v = parser.reader();
            let ghost done = self.characters@.skip(base).map_values(|c: kanjidic2::Character<'a>| c@);
            proof {
                parser.lemma_reader_pos();
                kanjidic2::parser::lemma_run_advances(states, v);
            }
            let c = match parser.parse() {
                Ok(Some(c)) => c,
                Ok(None) => {
                    assert(kanjidic2::parser::characters_from(states, v) == (
                        Seq::<kanjidic2::elements::CharacterView<'a>>::empty(),
                        None::<crate::xml::ErrorKind>,
                    ));
                    assert(done + Seq::<kanjidic2::elements::CharacterView<'a>>::empty() =~= done);
                    assert(done.take(done.len() as int) =~= done);
                    assert(kanjidic2::parser::characters_from(Seq::empty(), v0).0 =~= done);
                    break;
                },
                Err(p) => {
                    assert(kanjidic2::parser::characters_from(states, v) == (
                        Seq::<kanjidic2::elements::CharacterView<'a>>::empty(),
                        Some(p.kind),
                    ));
                    assert(done + Seq::<kanjidic2::elements::CharacterView<'a>>::empty() =~= done);
                    assert(done.take(done.len() as int) =~= done);
                    assert(kanjidic2::parser::characters_from(Seq::empty(), v0).0 =~= done);
                    result = Err(BuildError::Parse(p));
                    break;
                },
            };
            proof {
                parser.lemma_reader_pos();
            }
            let ghost rest = kanjidic2::parser::characters_from(parser.states(), parser.reader());
            assert(kanjidic2::parser::characters_from(states, v) == (seq![c@] + rest.0, rest.1));
            assert(done + (seq![c@] + rest.0) =~= done.push(c@) + rest.0);
            proof {
                assert((done + (seq![c@] + rest.0)).take(done.len() as int) =~= done);
                let found = kanjidic2::parser::characters_from(Seq::empty(), v0);
                assert(found.0 == done.push(c@) + rest.0);
                assert(found.0[done.len() as int] == c@);
                assert(self.characters@.skip(base).map_values(|c: kanjidic2::Character<'a>| c@).len()
                    == self.characters@.len() - base);
            }
            if shutdown.is_set() {
                assert(done.take(done.len() as int) =~= done);
                result = Err(BuildError::Shutdown);
                break;
            }
            if self.characters.len() >= 4294967295 {
                assert(done.take(done.len() as int) =~= done);
                result = Err(BuildError::TooManyEntries);
                break;
            }
            let offset = self.characters.len() as u32;
            if !character_is_indexable(&c) {
                proof {
                    let i = choose|i: int| 0 <= i < c.meanings@.len() && (#[trigger] c.meanings@[i]).text@.contains('\0');
                    assert(c@.meanings[i] == c.meanings@[i]);
                }
                assert(done.take(done.len() as int) =~= done);
                result = Err(BuildError::NotIndexable);
                break;
            }
            let ghost before = self.view();
            let ghost cs0 = self.characters@.skip(base);
            add_character_keys(&c, offset, &mut self.table.lookup);
            self.characters.push(c);
            proof {
                let cs2 = self.characters@.skip(base);
                assert(cs2 =~= cs0.push(c));
                assert(cs2.drop_last() =~= cs0);
                assert(self.view() =~= (IndexView {
                    lookup: before.lookup + character_keys(c, offset),
                    ..before
                }));
                assert(self.characters@.take(base) =~= old_chars);
                assert(cs2.map_values(|c: kanjidic2::Character<'a>| c@) =~= done.push(c@));
            }
            count = count + 1;
            if count % 1000 == 0 {
                reporter.instrument_progress(1000);
            }
        }
        reporter.instrument_end(count);
        result
    }

    /// Add every name of a JMnedict document in turn, each stored under its
    /// keys, until the document ends, parsing fails, or the task is shut
    /// down.
    pub fn add_jmnedict<R: Reporter>(&mut self, reporter: &R, shutdown: &Token, input: &'a str) -> (r:
        Result<(), BuildError>)
        requires
            old(self).wf(),
        ensures
            final(self).wf(),
            jmnedict_added(*old(self), *final(self), input@, r),
    {
        reporter.instrument_start("jpv_lib::database", "Processing dictionary `JMnedict`", None);
        let mut parser = jmnedict::parser::Parser::new(input);
        let ghost toks = parser.tokens();
        let ghost base = self.names@.len() as int;
        let ghost start = self.view();
        let ghost old_names = self.names@;
        let ghost mut trims: spec_fn(int) -> &'a str = |k: int| "";
        let mut count: usize = 0;
        let mut result: Result<(), BuildError> = Ok(());
        proof {
            assert(parser.states() =~= Seq::<jmnedict::parser::StateView<'a>>::empty());
            assert(self.names@.skip(base) =~= Seq::<jmnedict::Entry<'a>>::empty());
            assert(self.names@.take(base) =~= self.names@);
            assert forall|tr: spec_fn(int) -> &'a str|
                #[trigger] jmnedict::parser::trims_agree(tr, trims, 0, parser.pos()) implies jmnedict::parser::names_from(
                Seq::empty(),
                toks,
                0,
                Seq::empty(),
                tr,
            ) == (
                self.names@.skip(base).map_values(|e: jmnedict::Entry<'a>| e@)
                    + jmnedict::parser::names_from(parser.states(), toks, parser.pos(), parser.path(), tr).0,
                jmnedict::parser::names_from(parser.states(), toks, parser.pos(), parser.path(), tr).1,
            ) by {
                assert(self.names@.skip(base).map_values(|e: jmnedict::Entry<'a>| e@)
                    + jmnedict::parser::names_from(parser.states(), toks, parser.pos(), parser.path(), tr).0
                    =~= jmnedict::parser::names_from(parser.states(), toks, parser.pos(), parser.path(), tr).0);
            }
        }
        loop
            invariant_except_break
                result is Ok,
                forall|tr: spec_fn(int) -> &'a str|
                    #[trigger] jmnedict::parser::trims_agree(tr, trims, 0, parser.pos()) ==> jmnedict::parser::names_from(
                        Seq::empty(),
                        toks,
                        0,
                        Seq::empty(),
                        tr,
                    ) == (
                        self.names@.skip(base).map_values(|e: jmnedict::Entry<'a>| e@)
                            + jmnedict::parser::names_from(parser.states(), toks, parser.pos(), parser.path(), tr).0,
                        jmnedict::parser::names_from(parser.states(), toks, parser.pos(), parser.path(), tr).1,
                    ),
            invariant
                self.wf(),
                count == self.names@.len() - base,
                self.phrases == old(self).phrases,
                self.characters == old(self).characters,
                self.radicals == old(self).radicals,
                base == old(self).names@.len(),
                start == old(self).view(),
                old_names == old(self).names@,
                toks == parser.tokens(),
                toks.map_values(|t: Result<XmlToken<'a>, String>| token_view(t)) == xml_tokens(input@),
                jmnedict::parser::trims_fit(toks, trims, 0, parser.pos()),
                self.names@.len() >= base,
                self.names@.take(base) == old_names,
                self.view() == names_after(start, self.names@.skip(base), base),
            ensures
                self.wf(),
                self.phrases == old(self).phrases,
                self.characters == old(self).characters,
                self.radicals == old(self).radicals,
                self.names@.len() >= base,
                self.names@.take(base) == old_names,
                self.view() == names_after(start, self.names@.skip(base), base),
                toks.map_values(|t: Result<XmlToken<'a>, String>| token_view(t)) == xml_tokens(input@),
                exists|end: int| #[trigger] jmnedict::parser::trims_fit(toks, trims, 0, end) && ({
                    let ns = self.names@.skip(base);
                    let found = jmnedict::parser::names_from(Seq::empty(), toks, 0, Seq::empty(), trims);
                    &&& ns.map_values(|e: jmnedict::Entry<'a>| e@) == found.0.take(ns.len() as int)
                    &&& result is Ok ==> ns.len() == found.0.len() && found.1 is None
                    &&& result matches Err(BuildError::Parse(p)) ==> ns.len() == found.0.len()
                        && found.1 == Some(p.kind)
                    &&& (result is Err && !(result matches Err(BuildError::Parse(_)))) ==> ns.len()
                        < found.0.len()
                    &&& ns.len() < found.0.len() ==> result is Err && (result != Err::<(), BuildError>(
                        BuildError::Shutdown,
                    ) ==> result == Err::<(), BuildError>(BuildError::TooManyEntries) && base
                        + ns.len() >= 4294967295)
                }),
            decreases parser.fuel(),
        {
            let ghost states = parser.states();
            let ghost p = parser.pos();
            let ghost path = parser.path();
            let ghost done = self.names@.skip(base).map_values(|e: jmnedict::Entry<'a>| e@);
            let ghost before_trims = trims;
            proof {
                parser.lemma_cursor();
                assert(jmnedict::parser::trims_agree(trims, trims, 0, p));
            }
            let next = parser.next();
            let ghost call_trims = choose|t: spec_fn(int) -> &'a str|
                jmnedict::parser::trims_fit(toks, t, p, parser.pos()) && (
                    parser.states(),
                    jmnedict::parser::parse_result_view(next),
                    parser.pos(),
                    parser.path(),
                ) == jmnedict::parser::run(states, toks, p, path, t);
            proof {
                parser.lemma_cursor();
                jmnedict::parser::lemma_run_end(states, toks, p, path, call_trims);
                trims = |k: int| if k < p { before_trims(k) } else { call_trims(k) };
                assert(jmnedict::parser::trims_fit(toks, trims, 0, parser.pos())) by {
                    assert forall|k: int| 0 <= k < parser.pos() implies (#[trigger] toks[k] matches Ok(XmlToken::Text(text)) ==> trims(k)@ == crate::text::spec_trim(text@)) by {
                        if k < p {
                            assert(trims(k) == before_trims(k));
                        } else {
                            assert(trims(k) == call_trims(k));
                        }
                    }
                }
                assert forall|tr: spec_fn(int) -> &'a str|
                    #[trigger] jmnedict::parser::trims_agree(tr, trims, 0, parser.pos()) implies
                        jmnedict::parser::trims_agree(tr, before_trims, 0, p)
                        && jmnedict::parser::run(states, toks, p, path, tr)
                            == jmnedict::parser::run(states, toks, p, path, call_trims) by {
                    assert forall|k: int| 0 <= k < p implies #[trigger] tr(k) == before_trims(k) by {
                        assert(tr(k) == trims(k));
                    }
                    assert forall|k: int| p <= k < parser.pos() implies #[trigger] call_trims(k) == tr(k) by {
                        assert(tr(k) == trims(k));
                    }
                    jmnedict::parser::lemma_run_agree(states, toks, p, path, call_trims, tr);
                }
            }
            let e = match next {
                Ok(Some(e)) => e,
                Ok(None) => {
                    proof {
                        assert(jmnedict::parser::trims_agree(trims, trims, 0, parser.pos()));
                        assert(jmnedict::parser::names_from(states, toks, p, path, trims) == (
                            Seq::<jmnedict::elements::EntryView<'a>>::empty(),
                            None::<crate::xml::ErrorKind>,
                        ));
                        assert(done + Seq::<jmnedict::elements::EntryView<'a>>::empty() =~= done);
                        assert(done.take(done.len() as int) =~= done);
                        assert(jmnedict::parser::names_from(Seq::empty(), toks, 0, Seq::empty(), trims).0 =~= done);
                        assert(jmnedict::parser::trims_fit(toks, trims, 0, parser.pos()));
                    }
                    break;
                },
                Err(perr) => {
                    proof {
                        assert(jmnedict::parser::trims_agree(trims, trims, 0, parser.pos()));
                        assert(jmnedict::parser::names_from(states, toks, p, path, trims) == (
                            Seq::<jmnedict::elements::EntryView<'a>>::empty(),
                            Some(perr.kind),
                        ));
                        assert(done + Seq::<jmnedict::elements::EntryView<'a>>::empty() =~= done);
                        assert(done.take(done.len() as int) =~= done);
                        assert(jmnedict::parser::names_from(Seq::empty(), toks, 0, Seq::empty(), trims).0 =~= done);
                        assert(jmnedict::parser::trims_fit(toks, trims, 0, parser.pos()));
                    }
                    result = Err(BuildError::Parse(perr));
                    break;
                },
            };
            proof {
                assert forall|tr: spec_fn(int) -> &'a str|
                    #[trigger] jmnedict::parser::trims_agree(tr, trims, 0, parser.pos()) implies jmnedict::parser::names_from(
                    Seq::empty(),
                    toks,
                    0,
                    Seq::empty(),
                    tr,
                ) == (
                    done.push(e@) + jmnedict::parser::names_from(parser.states(), toks, parser.pos(), parser.path(), tr).0,
                    jmnedict::parser::names_from(parser.states(), toks, parser.pos(), parser.path(), tr).1,
                ) by {
                    let rest = jmnedict::parser::names_from(parser.states(), toks, parser.pos(), parser.path(), tr);
                    assert(jmnedict::parser::names_from(states, toks, p, path, tr) == (seq![e@] + rest.0, rest.1));
                    assert(done + (seq![e@] + rest.0) =~= done.push(e@) + rest.0);
                }
                assert(jmnedict::parser::trims_agree(trims, trims, 0, parser.pos()));
                let rest = jmnedict::parser::names_from(parser.states(), toks, parser.pos(), parser.path(), trims);
                assert((done.push(e@) + rest.0).take(done.len() as int) =~= done);
            }
            if shutdown.is_set() {
                assert(done.take(done.len() as int) =~= done);
                result = Err(BuildError::Shutdown);
                break;
            }
            if self.names.len() >= 4294967295 {
                assert(done.take(done.len() as int) =~= done);
                result = Err(BuildError::TooManyEntries);
                break;
            }
            let offset = self.names.len() as u32;
            let ghost before = self.view();
            let ghost ns0 = self.names@.skip(base);
            add_name_keys(&e, offset, &mut self.table.lookup);
            self.names.push(e);
            proof {
                let ns2 = self.names@.skip(base);
                assert(ns2 =~= ns0.push(e));
                assert(ns2.drop_last() =~= ns0);
                assert(self.view() =~= (IndexView { lookup: before.lookup + name_keys(e, offset), ..before }));
                assert(self.names@.take(base) =~= old_names);
                assert(ns2.map_values(|e: jmnedict::Entry<'a>| e@) =~= done.push(e@));
            }
            count = count + 1;
            if count % 1000 == 0 {
                reporter.instrument_progress(1000);
            }
        }
        reporter.instrument_end(count);
        result
    }

    /// Add every entry of a KRADFILE document in turn, until it ends or the
    /// task is shut down.
    pub fn add_kradfile<R: Reporter>(&mut self, reporter: &R, shutdown: &Token, input: &'a [u8]) -> (r:
        Result<(), BuildError>)
        requires
            old(self).wf(),
        ensures
            final(self).wf(),
            kradfile_added(*old(self), *final(self), input@, r),
    {
        reporter.instrument_start("jpv_lib::database", "Processing dictionary `Kradfile`", None);
        let mut parser = kradfile::Parser::new(input);
        let ghost base = self.radicals@.len() as int;
        let ghost old_radicals = self.radicals@;
        let mut count: usize = 0;
        let mut result: Result<(), BuildError> = Ok(());
        proof {
            assert(self.radicals@.skip(base) =~= Seq::<kradfile::OwnedEntry>::empty());
            assert(self.radicals@.take(base) =~= self.radicals@);
            assert(Seq::<(Seq<char>, Seq<Seq<char>>)>::empty() + kradfile::entries_from(input@, 0)
                =~= kradfile::entries_from(input@, 0));
        }
        loop
            invariant_except_break
                result is Ok,
                kradfile::entries_from(input@, 0) == self.radicals@.skip(base).map_values(
                    |e: kradfile::OwnedEntry| kradfile::entry_view(e),
                ) + kradfile::entries_from(input@, parser.pos()),
            invariant
                self.wf(),
                self.phrases == old(self).phrases,
                self.characters == old(self).characters,
                self.names == old(self).names,
                self.view() == old(self).view(),
                base == old(self).radicals@.len(),
                old_radicals == old(self).radicals@,
                parser.input() == input@,
                0 <= parser.pos() <= input@.len(),
                self.radicals@.len() >= base,
                self.radicals@.take(base) == old_radicals,
            ensures
                self.wf(),
                self.phrases == old(self).phrases,
                self.characters == old(self).characters,
                self.names == old(self).names,
                self.view() == old(self).view(),
                self.radicals@.len() >= base,
                self.radicals@.take(base) == old_radicals,
                ({
                    let es = self.radicals@.skip(base).map_values(
                        |e: kradfile::OwnedEntry| kradfile::entry_view(e),
                    );
                    let found = kradfile::entries_from(input@, 0);
                    &&& es == found.take(es.len() as int)
                    &&& result is Ok ==> es.len() == found.len()
                    &&& result is Err ==> result == Err::<(), BuildError>(BuildError::Shutdown)
                        && es.len() < found.len()
                }),
            decreases input@.len() - parser.pos(),
        {
            let ghost p = parser.pos();
            let ghost done = self.radicals@.skip(base).map_values(
                |e: kradfile::OwnedEntry| kradfile::entry_view(e),
            );
            proof {
                kradfile::lemma_next_entry_bounds(input@, p);
            }
            let e = match parser.parse() {
                Some(e) => e,
                None => {
                    assert(kradfile::entries_from(input@, p) =~= Seq::<(Seq<char>, Seq<Seq<char>>)>::empty());
                    assert(done + Seq::<(Seq<char>, Seq<Seq<char>>)>::empty() =~= done);
                    assert(done.take(done.len() as int) =~= done);
                    break;
                },
            };
            let ghost rest = kradfile::entries_from(input@, parser.pos());
            assert(kradfile::entries_from(input@, p) == seq![kradfile::entry_view(e)] + rest);
            proof {
                assert(done + (seq![kradfile::entry_view(e)] + rest) =~= done.push(kradfile::entry_view(e)) + rest);
                assert((done.push(kradfile::entry_view(e)) + rest).take(done.len() as int) =~= done);
            }
            if shutdown.is_set() {
                assert(done.take(done.len() as int) =~= done);
                result = Err(BuildError::Shutdown);
                break;
            }
            let ghost rs0 = self.radicals@.skip(base);
            self.radicals.push(e);
            proof {
                let rs2 = self.radicals@.skip(base);
                assert(rs2 =~= rs0.push(e));
                assert(self.radicals@.take(base) =~= old_radicals);
                assert(rs2.map_values(|e: kradfile::OwnedEntry| kradfile::entry_view(e)) =~= done.push(
                    kradfile::entry_view(e),
                ));
            }
            if count < usize::MAX {
                count = count + 1;
            }
            if count % 1000 == 0 {
                reporter.instrument_progress(1000);
            }
        }
        reporter.instrument_end(count);
        result
    }

    /// The radicals of a kanji: the last entry for it.
    pub fn radicals_of(&self, kanji: &str) -> (r: Option<&kradfile::OwnedEntry>)
        ensures
            match r {
                Some(e) => exists|i: int|
                    0 <= i < self.radicals@.len() && self.radicals@[i] == *e && e.kanji@ == kanji@
                        && forall|j: int|
                        i < j < self.radicals@.len() ==> (#[trigger] self.radicals@[j]).kanji@
                            != kanji@,
                None => forall|j: int|
                    0 <= j < self.radicals@.len() ==> (#[trigger] self.radicals@[j]).kanji@ != kanji@,
            },
    {
        let mut i: usize = self.radicals.len();
        while i > 0
            invariant
                i <= self.radicals@.len(),
                forall|j: int| i <= j < self.radicals@.len() ==> (#[trigger] self.radicals@[j]).kanji@ != kanji@,
            decreases i,
        {
            if str_eq(self.radicals[i - 1].kanji.as_str(), kanji) {
                return Some(&self.radicals[i - 1]);
            }
            i = i - 1;
        }
        None
    }

    /// Add every entry of a dictionary in turn, each with its keys.
    pub fn add<R: Reporter>(&mut self, reporter: &R, shutdown: &Token, input: Input<'a>) -> (r: Result<
        (),
        BuildError,
    >)
        requires
            old(self).wf(),
        ensures
            final(self).wf(),
            input_added(*old(self), *final(self), input, r),
    {
        match input {
            Input::Jmdict(d) => self.add_jmdict(reporter, shutdown, d),
            Input::Kanjidic2(d) => self.add_kanjidic2(reporter, shutdown, d),
            Input::Jmnedict(d) => self.add_jmnedict(reporter, shutdown, d),
            Input::Kradfile(d) => self.add_kradfile(reporter, shutdown, d),
        }
    }
}


/// Build an index of one dictionary: every entry of it in turn, each with
/// its keys, or the error which stopped the building (a shut down task
/// among them).
pub fn build<'a, R: Reporter>(reporter: &R, shutdown: &Token, input: Input<'a>) -> (r: Result<
    MemoryIndex<'a>,
    BuildError,
>)
    ensures
        match r {
            Ok(ix) => ix.wf() && exists|empty: MemoryIndex<'a>|
                is_empty_index(empty) && #[trigger] input_added(empty, ix, input, Ok(())),
            Err(e) => exists|empty: MemoryIndex<'a>, after: MemoryIndex<'a>|
                is_empty_index(empty) && #[trigger] input_added(empty, after, input, Err(e)),
        },
{
    let mut ix = MemoryIndex::new();
    let ghost empty = ix;
    let r = ix.add(reporter, shutdown, input);
    match r {
        Ok(u) => {
            assert(u == ());
            assert(r == Ok::<(), BuildError>(()));
            assert(is_empty_index(empty));
            assert(input_added(empty, ix, input, Ok(())));
            assert(ix.wf());
            let out: Result<MemoryIndex<'a>, BuildError> = Ok(ix);
            assert(out matches Ok(x) && x.wf() && input_added(empty, x, input, Ok(())));
            out
        },
        Err(e) => Err(e),
    }
}

} // verus!
