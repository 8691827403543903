//! The fields of an entry which hold sets: each value is read once, however
//! often the document repeats it.

use vstd::prelude::*;

use super::elements::{EntryView, KanjiElementView, ReadingElementView, SenseView};
use super::parser::{
    combine_step, entries_from, feed_step, inserted, run, sense_text_step, str_inserted, StateView,
};
use crate::xml::{reader_step, Output, ReaderView};

verus! {

/// No two values of `v` are equal.
pub open spec fn distinct<T>(v: Seq<T>) -> bool {
    forall|i: int, j: int| 0 <= i < j < v.len() ==> #[trigger] v[i] != #[trigger] v[j]
}

/// No two strings of `v` have the same text.
pub open spec fn distinct_texts(v: Seq<&str>) -> bool {
    forall|i: int, j: int| 0 <= i < j < v.len() ==> (#[trigger] v[i])@ != (#[trigger] v[j])@
}

/// The sets of a sense hold each value once.
pub open spec fn sense_sets_distinct(s: SenseView) -> bool {
    distinct(s.pos) && distinct(s.misc) && distinct(s.dialect) && distinct(s.field)
}

/// The sets of a reading hold each value once.
pub open spec fn reading_sets_distinct(r: ReadingElementView) -> bool {
    distinct_texts(r.reading_string) && distinct(r.info)
}

/// The sets of a kanji spelling hold each value once.
pub open spec fn kanji_sets_distinct(k: KanjiElementView) -> bool {
    distinct(k.info)
}

/// The readings, kanji spellings and senses hold each value of their sets
/// once.
pub open spec fn parts_distinct(
    readings: Seq<ReadingElementView>,
    kanji: Seq<KanjiElementView>,
    senses: Seq<SenseView>,
) -> bool {
    &&& forall|i: int| 0 <= i < readings.len() ==> reading_sets_distinct(#[trigger] readings[i])
    &&& forall|i: int| 0 <= i < kanji.len() ==> kanji_sets_distinct(#[trigger] kanji[i])
    &&& forall|i: int| 0 <= i < senses.len() ==> sense_sets_distinct(#[trigger] senses[i])
}

/// An entry holds each value of each of its sets once.
pub open spec fn entry_sets_distinct(e: EntryView) -> bool {
    parts_distinct(e.reading_elements, e.kanji_elements, e.senses)
}

/// What is read of an element holds each value of its sets once.
pub open spec fn state_sets_distinct(s: StateView) -> bool {
    match s {
        StateView::Entry(e) => parts_distinct(e.reading_elements, e.kanji_elements, e.senses),
        StateView::ReadingElement(b) => distinct_texts(b.reading_string) && distinct(b.info),
        StateView::KanjiElement(b) => distinct(b.info),
        StateView::Sense(s) => sense_sets_distinct(s),
        _ => true,
    }
}

/// Each element being read holds each value of its sets once.
pub open spec fn states_sets_distinct(states: Seq<StateView>) -> bool {
    forall|i: int| 0 <= i < states.len() ==> state_sets_distinct(#[trigger] states[i])
}

proof fn lemma_inserted<T>(v: Seq<T>, x: T)
    requires
        distinct(v),
    ensures
        distinct(inserted(v, x)),
{
    if !v.contains(x) {
        let w = v.push(x);
        assert forall|i: int, j: int| 0 <= i < j < w.len() implies #[trigger] w[i] != #[trigger] w[j] by {
            if j == v.len() {
                assert(w[i] == v[i]);
            } else {
                assert(w[i] == v[i] && w[j] == v[j]);
            }
        }
    }
}

proof fn lemma_str_inserted(v: Seq<&str>, x: &str)
    requires
        distinct_texts(v),
    ensures
        distinct_texts(str_inserted(v, x)),
{
    if !(exists|i: int| 0 <= i < v.len() && (#[trigger] v[i])@ == x@) {
        let w = v.push(x);
        assert forall|i: int, j: int| 0 <= i < j < w.len() implies (#[trigger] w[i])@ != (
        #[trigger] w[j])@ by {
            if j == v.len() {
                assert(w[i] == v[i]);
            } else {
                assert(w[i] == v[i] && w[j] == v[j]);
            }
        }
    }
}

proof fn lemma_parts_push<'a>(
    readings: Seq<ReadingElementView<'a>>,
    kanji: Seq<KanjiElementView<'a>>,
    senses: Seq<SenseView<'a>>,
    r: Option<ReadingElementView<'a>>,
    k: Option<KanjiElementView<'a>>,
    s: Option<SenseView<'a>>,
)
    requires
        parts_distinct(readings, kanji, senses),
        r matches Some(x) ==> reading_sets_distinct(x),
        k matches Some(x) ==> kanji_sets_distinct(x),
        s matches Some(x) ==> sense_sets_distinct(x),
    ensures
        parts_distinct(
            match r {
                Some(x) => readings.push(x),
                None => readings,
            },
            match k {
                Some(x) => kanji.push(x),
                None => kanji,
            },
            match s {
                Some(x) => senses.push(x),
                None => senses,
            },
        ),
{
    if let Some(x) = r {
        assert forall|i: int| 0 <= i < readings.push(x).len() implies reading_sets_distinct(
            #[trigger] readings.push(x)[i],
        ) by {
            if i < readings.len() {
                assert(readings.push(x)[i] == readings[i]);
            }
        }
    }
    if let Some(x) = k {
        assert forall|i: int| 0 <= i < kanji.push(x).len() implies kanji_sets_distinct(
            #[trigger] kanji.push(x)[i],
        ) by {
            if i < kanji.len() {
                assert(kanji.push(x)[i] == kanji[i]);
            }
        }
    }
    if let Some(x) = s {
        assert forall|i: int| 0 <= i < senses.push(x).len() implies sense_sets_distinct(
            #[trigger] senses.push(x)[i],
        ) by {
            if i < senses.len() {
                assert(senses.push(x)[i] == senses[i]);
            }
        }
    }
}

proof fn lemma_sense_text_step<'a>(s: SenseView<'a>, name: &'a str, text: Option<&'a str>)
    requires
        sense_sets_distinct(s),
    ensures
        sense_sets_distinct(sense_text_step(s, name, text).0),
{
    if let Some(t) = text {
        if let Some(p) = crate::entities::PartOfSpeech::spec_parse(t@) {
            lemma_inserted(s.pos, p);
        }
        if let Some(m) = crate::entities::Miscellaneous::spec_parse(t@) {
            lemma_inserted(s.misc, m);
        }
        if let Some(d) = crate::entities::Dialect::spec_parse(t@) {
            lemma_inserted(s.dialect, d);
        }
        if let Some(f) = crate::entities::Field::spec_parse(t@) {
            lemma_inserted(s.field, f);
        }
    }
}

proof fn lemma_combine_step<'a>(parent: StateView<'a>, top: StateView<'a>)
    requires
        state_sets_distinct(parent),
        state_sets_distinct(top),
    ensures
        state_sets_distinct(combine_step(parent, top).0),
{
    match parent {
        StateView::Entry(e) => match top {
            StateView::ReadingElement(b) => {
                if let Some(text) = b.text {
                    lemma_parts_push(
                        e.reading_elements,
                        e.kanji_elements,
                        e.senses,
                        Some(
                            ReadingElementView {
                                text,
                                no_kanji: b.no_kanji,
                                reading_string: b.reading_string,
                                priority: b.priority,
                                info: b.info,
                            },
                        ),
                        None,
                        None,
                    );
                }
            },
            StateView::KanjiElement(b) => {
                if let Some(text) = b.text {
                    lemma_parts_push(
                        e.reading_elements,
                        e.kanji_elements,
                        e.senses,
                        None,
                        Some(KanjiElementView { text, priority: b.priority, info: b.info }),
                        None,
                    );
                }
            },
            StateView::Sense(sense) => {
                lemma_parts_push(e.reading_elements, e.kanji_elements, e.senses, None, None, Some(sense));
            },
            _ => {},
        },
        StateView::ReadingElement(b) => match top {
            StateView::Text(name, text) => {
                if let Some(t) = text {
                    lemma_str_inserted(b.reading_string, t);
                    if let Some(i) = crate::entities::ReadingInfo::spec_parse(t@) {
                        lemma_inserted(b.info, i);
                    }
                }
            },
            _ => {},
        },
        StateView::KanjiElement(b) => match top {
            StateView::Text(name, text) => {
                if let Some(t) = text {
                    if let Some(i) = crate::entities::KanjiInfo::spec_parse(t@) {
                        lemma_inserted(b.info, i);
                    }
                }
            },
            _ => {},
        },
        StateView::Sense(s) => match top {
            StateView::Text(name, text) => {
                lemma_sense_text_step(s, name, text);
            },
            _ => {},
        },
        _ => {},
    }
}

proof fn lemma_states_update<'a>(states: Seq<StateView<'a>>, x: StateView<'a>)
    requires
        states_sets_distinct(states),
        states.len() > 0,
        state_sets_distinct(x),
    ensures
        states_sets_distinct(states.drop_last().push(x)),
{
    let w = states.drop_last().push(x);
    assert forall|i: int| 0 <= i < w.len() implies state_sets_distinct(#[trigger] w[i]) by {
        if i < states.len() - 1 {
            assert(w[i] == states[i]);
        }
    }
}

proof fn lemma_feed_step<'a>(states: Seq<StateView<'a>>, output: Output<'a>)
    requires
        states_sets_distinct(states),
    ensures
        states_sets_distinct(feed_step(states, output).0),
        feed_step(states, output).1 matches Ok(Some(e)) ==> entry_sets_distinct(e),
{
    match output {
        Output::Open(e) => {
            let w = feed_step(states, output).0;
            assert forall|i: int| 0 <= i < w.len() implies state_sets_distinct(#[trigger] w[i]) by {
                if i < states.len() {
                    assert(w[i] == states[i]);
                }
            }
        },
        Output::Text(v) => {
            if states.len() > 0 {
                assert(state_sets_distinct(states[states.len() - 1]));
                lemma_states_update(states, super::parser::text_step(states.last(), v).0);
            }
        },
        Output::Attribute(k, v) => {
            if states.len() > 0 {
                assert(state_sets_distinct(states[states.len() - 1]));
                lemma_states_update(states, super::parser::attribute_step(states.last(), k, v).0);
            }
        },
        Output::Close => {
            if states.len() > 0 {
                let top = states.last();
                let rest = states.drop_last();
                assert(state_sets_distinct(states[states.len() - 1]));
                assert forall|i: int| 0 <= i < rest.len() implies state_sets_distinct(#[trigger] rest[i]) by {
                    assert(rest[i] == states[i]);
                }
                if rest.len() > 0 && !(rest.len() == 1 && rest[0] is Root && top is Entry) {
                    assert(state_sets_distinct(rest[rest.len() - 1]));
                    lemma_combine_step(rest.last(), top);
                    lemma_states_update(rest, combine_step(rest.last(), top).0);
                }
            }
        },
        Output::Eof => {},
    }
}

proof fn lemma_run<'a>(states: Seq<StateView<'a>>, v: ReaderView<'a>)
    requires
        states_sets_distinct(states),
    ensures
        states_sets_distinct(run(states, v).0),
        run(states, v).1 matches Ok(Some(e)) ==> entry_sets_distinct(e),
    decreases v.tokens.len() - v.pos,
{
    let (o, next) = reader_step(v);
    if let Ok(out) = o {
        lemma_feed_step(states, out);
        let (after, r) = feed_step(states, out);
        if r == Ok::<Option<EntryView<'a>>, crate::xml::ErrorKind>(None) && !(out is Eof) && next.tokens
            == v.tokens && v.pos < next.pos <= v.tokens.len() {
            lemma_run(after, next);
        }
    }
}

proof fn lemma_entries_from<'a>(states: Seq<StateView<'a>>, v: ReaderView<'a>)
    requires
        states_sets_distinct(states),
    ensures
        forall|i: int|
            0 <= i < entries_from(states, v).0.len() ==> entry_sets_distinct(
                #[trigger] entries_from(states, v).0[i],
            ),
    decreases v.tokens.len() - v.pos,
{
    lemma_run(states, v);
    let (after, r, next) = run(states, v);
    if let Ok(Some(e)) = r {
        if next.tokens == v.tokens && v.pos < next.pos <= v.tokens.len() {
            lemma_entries_from(after, next);
            let (rest, end) = entries_from(after, next);
            let all = entries_from(states, v).0;
            assert(all == seq![e] + rest);
            assert forall|i: int| 0 <= i < all.len() implies entry_sets_distinct(#[trigger] all[i]) by {
                if i > 0 {
                    assert(all[i] == rest[i - 1]);
                }
            }
        }
    }
}

/// Each entry which parsing a document gives holds each value of its sets
/// once: the kanji spellings a reading is restricted to and its
/// information, the information of a kanji spelling, and the parts of
/// speech, kinds of usage, dialects and fields of a sense.
pub proof fn lemma_entries_sets_distinct<'a>(v: ReaderView<'a>)
    ensures
        forall|i: int|
            0 <= i < entries_from(Seq::empty(), v).0.len() ==> entry_sets_distinct(
                #[trigger] entries_from(Seq::empty(), v).0[i],
            ),
{
    lemma_entries_from(Seq::empty(), v);
}

} // verus!
