//! A parser of the JMdict dictionary, one entry at a time.

use vstd::prelude::*;
use vstd::string::*;

use super::elements::{
    kanji_views, reading_views, sense_views, Entry, EntryView, Example, ExampleSentence,
    ExampleSource, ExampleView, Glossary, KanjiElement, KanjiElementView, ReadingElement,
    ReadingElementView, Sense, SenseView, SourceLanguage,
};
use crate::entities::{Dialect, Field, KanjiInfo, Miscellaneous, PartOfSpeech, ReadingInfo};
use crate::priority::Priority;
use crate::text::str_eq;
use crate::xml::{
    joined_path, lemma_read_from_advances, parse_u64, read_from, reader_step, require_text,
    set_option, spec_parse_u64, token_view, xml_tokens, ErrorKind, Output, ParseError, Reader,
    ReaderView, XmlToken,
};

verus! {

/// The kind of element the parser is inside of.
pub enum StateKind {
    Root,
    Entry,
    ReadingElement,
    KanjiElement,
    Sense,
    Gloss,
    Example,
    ExampleSource,
    ExampleSentence,
    SourceLanguage,
    /// An element without content, by name.
    Empty(Seq<char>),
    /// An element of text, by name.
    Text(Seq<char>),
    /// An element of a number, by name.
    U64(Seq<char>),
}

/// The names of the text elements of a reading element.
pub open spec fn reading_text_element(e: Seq<char>) -> bool {
    e == "reb"@ || e == "re_restr"@ || e == "re_pri"@ || e == "re_inf"@
}

/// The names of the text elements of a kanji element.
pub open spec fn kanji_text_element(e: Seq<char>) -> bool {
    e == "keb"@ || e == "ke_pri"@ || e == "ke_inf"@
}

/// The names of the text elements of a sense.
pub open spec fn sense_text_element(e: Seq<char>) -> bool {
    e == "pos"@ || e == "xref"@ || e == "s_inf"@ || e == "dial"@ || e == "stagk"@ || e
        == "stagr"@ || e == "field"@ || e == "misc"@ || e == "ant"@
}

/// The element which an element of the given name opens inside the given
/// elements, if it may stand there.
pub open spec fn open_kind(stack: Seq<StateKind>, e: Seq<char>) -> Option<StateKind> {
    if stack.len() == 0 {
        if e == "JMdict"@ {
            Some(StateKind::Root)
        } else {
            None
        }
    } else if stack == seq![StateKind::Root] && e == "entry"@ {
        Some(StateKind::Entry)
    } else {
        match stack.last() {
            StateKind::Entry => if e == "ent_seq"@ {
                Some(StateKind::U64(e))
            } else if e == "r_ele"@ {
                Some(StateKind::ReadingElement)
            } else if e == "k_ele"@ {
                Some(StateKind::KanjiElement)
            } else if e == "sense"@ {
                Some(StateKind::Sense)
            } else {
                None
            },
            StateKind::ReadingElement => if reading_text_element(e) {
                Some(StateKind::Text(e))
            } else if e == "re_nokanji"@ {
                Some(StateKind::Empty(e))
            } else {
                None
            },
            StateKind::KanjiElement => if kanji_text_element(e) {
                Some(StateKind::Text(e))
            } else {
                None
            },
            StateKind::Sense => if sense_text_element(e) {
                Some(StateKind::Text(e))
            } else if e == "gloss"@ {
                Some(StateKind::Gloss)
            } else if e == "example"@ {
                Some(StateKind::Example)
            } else if e == "lsource"@ {
                Some(StateKind::SourceLanguage)
            } else {
                None
            },
            StateKind::Example => if e == "ex_srce"@ {
                Some(StateKind::ExampleSource)
            } else if e == "ex_sent"@ {
                Some(StateKind::ExampleSentence)
            } else if e == "ex_text"@ {
                Some(StateKind::Text(e))
            } else {
                None
            },
            _ => None,
        }
    }
}

/// The elements which hold text.
pub open spec fn accepts_text(top: StateKind) -> bool {
    match top {
        StateKind::U64(_) | StateKind::Text(_) | StateKind::Gloss | StateKind::ExampleSource
        | StateKind::ExampleSentence | StateKind::SourceLanguage => true,
        _ => false,
    }
}

/// The attributes which an element takes.
pub open spec fn accepts_attribute(top: StateKind, key: Seq<char>) -> bool {
    match top {
        StateKind::Gloss => key == "g_type"@,
        StateKind::ExampleSource => key == "exsrc_type"@,
        StateKind::ExampleSentence => key == "lang"@,
        StateKind::SourceLanguage => key == "lang"@ || key == "ls_type"@ || key == "ls_wasei"@,
        _ => false,
    }
}

/// An element may close inside the given elements.
pub open spec fn closes(rest: Seq<StateKind>, top: StateKind) -> bool {
    if rest.len() == 0 {
        top == StateKind::Root
    } else if rest == seq![StateKind::Root] && top == StateKind::Entry {
        true
    } else {
        closes_into(rest.last(), top)
    }
}

/// What is read of an element so far.
pub struct EntryBuilder<'a> {
    pub sequence: Option<u64>,
    pub reading_elements: Vec<ReadingElement<'a>>,
    pub kanji_elements: Vec<KanjiElement<'a>>,
    pub senses: Vec<Sense<'a>>,
}

/// What is read of an element so far.
pub struct ReadingElementBuilder<'a> {
    pub text: Option<&'a str>,
    pub no_kanji: bool,
    pub reading_string: Vec<&'a str>,
    pub priority: Vec<Priority>,
    pub info: Vec<ReadingInfo>,
}

/// What is read of an element so far.
pub struct KanjiElementBuilder<'a> {
    pub text: Option<&'a str>,
    pub priority: Vec<Priority>,
    pub info: Vec<KanjiInfo>,
}

/// What is read of an element so far.
pub struct GlossBuilder<'a> {
    pub text: Option<&'a str>,
    pub ty: Option<&'a str>,
    pub lang: Option<&'a str>,
}

/// What is read of an element so far.
pub struct ExampleBuilder<'a> {
    pub sentences: Vec<ExampleSentence<'a>>,
    pub sources: Vec<ExampleSource<'a>>,
    pub texts: Vec<&'a str>,
}

/// What is read of an element so far.
pub struct ExampleSourceBuilder<'a> {
    pub text: Option<&'a str>,
    pub ty: Option<&'a str>,
}

/// What is read of an element so far.
pub struct ExampleSentenceBuilder<'a> {
    pub text: Option<&'a str>,
    pub lang: Option<&'a str>,
}

/// What is read of an element so far.
pub struct SourceLanguageBuilder<'a> {
    pub text: Option<&'a str>,
    pub lang: Option<&'a str>,
    pub waseigo: bool,
    pub ty: Option<&'a str>,
}

/// An element being read.
pub enum State<'a> {
    Root,
    Entry(EntryBuilder<'a>),
    ReadingElement(ReadingElementBuilder<'a>),
    KanjiElement(KanjiElementBuilder<'a>),
    Sense(Sense<'a>),
    Gloss(GlossBuilder<'a>),
    Example(ExampleBuilder<'a>),
    ExampleSource(ExampleSourceBuilder<'a>),
    ExampleSentence(ExampleSentenceBuilder<'a>),
    SourceLanguage(SourceLanguageBuilder<'a>),
    Empty(&'a str),
    Text(&'a str, Option<&'a str>),
    U64(&'a str, Option<u64>),
}

/// The kind of an element being read.
pub open spec fn kind_of(s: State) -> StateKind {
    match s {
        State::Root => StateKind::Root,
        State::Entry(_) => StateKind::Entry,
        State::ReadingElement(_) => StateKind::ReadingElement,
        State::KanjiElement(_) => StateKind::KanjiElement,
        State::Sense(_) => StateKind::Sense,
        State::Gloss(_) => StateKind::Gloss,
        State::Example(_) => StateKind::Example,
        State::ExampleSource(_) => StateKind::ExampleSource,
        State::ExampleSentence(_) => StateKind::ExampleSentence,
        State::SourceLanguage(_) => StateKind::SourceLanguage,
        State::Empty(e) => StateKind::Empty(e@),
        State::Text(e, _) => StateKind::Text(e@),
        State::U64(e, _) => StateKind::U64(e@),
    }
}

/// What is read of an entry so far.
#[verifier::ext_equal]
pub struct EntryBuilderView<'a> {
    pub sequence: Option<u64>,
    pub reading_elements: Seq<ReadingElementView<'a>>,
    pub kanji_elements: Seq<KanjiElementView<'a>>,
    pub senses: Seq<SenseView<'a>>,
}

/// What is read of a reading element so far.
#[verifier::ext_equal]
pub struct ReadingElementBuilderView<'a> {
    pub text: Option<&'a str>,
    pub no_kanji: bool,
    pub reading_string: Seq<&'a str>,
    pub priority: Seq<Priority>,
    pub info: Seq<ReadingInfo>,
}

/// What is read of a kanji element so far.
#[verifier::ext_equal]
pub struct KanjiElementBuilderView<'a> {
    pub text: Option<&'a str>,
    pub priority: Seq<Priority>,
    pub info: Seq<KanjiInfo>,
}

/// What is read of an element so far.
#[verifier::ext_equal]
pub enum StateView<'a> {
    Root,
    Entry(EntryBuilderView<'a>),
    ReadingElement(ReadingElementBuilderView<'a>),
    KanjiElement(KanjiElementBuilderView<'a>),
    Sense(SenseView<'a>),
    Gloss(GlossBuilder<'a>),
    Example(ExampleView<'a>),
    ExampleSource(ExampleSourceBuilder<'a>),
    ExampleSentence(ExampleSentenceBuilder<'a>),
    SourceLanguage(SourceLanguageBuilder<'a>),
    Empty(&'a str),
    Text(&'a str, Option<&'a str>),
    U64(&'a str, Option<u64>),
}

/// What is read of an element so far.
pub open spec fn state_view<'a>(s: State<'a>) -> StateView<'a> {
    match s {
        State::Root => StateView::Root,
        State::Entry(b) => StateView::Entry(
            EntryBuilderView {
                sequence: b.sequence,
                reading_elements: reading_views(b.reading_elements@),
                kanji_elements: kanji_views(b.kanji_elements@),
                senses: sense_views(b.senses@),
            },
        ),
        State::ReadingElement(b) => StateView::ReadingElement(
            ReadingElementBuilderView {
                text: b.text,
                no_kanji: b.no_kanji,
                reading_string: b.reading_string@,
                priority: b.priority@,
                info: b.info@,
            },
        ),
        State::KanjiElement(b) => StateView::KanjiElement(
            KanjiElementBuilderView { text: b.text, priority: b.priority@, info: b.info@ },
        ),
        State::Sense(s) => StateView::Sense(s@),
        State::Gloss(b) => StateView::Gloss(b),
        State::Example(b) => StateView::Example(
            ExampleView { sentences: b.sentences@, sources: b.sources@, texts: b.texts@ },
        ),
        State::ExampleSource(b) => StateView::ExampleSource(b),
        State::ExampleSentence(b) => StateView::ExampleSentence(b),
        State::SourceLanguage(b) => StateView::SourceLanguage(b),
        State::Empty(e) => StateView::Empty(e),
        State::Text(e, t) => StateView::Text(e, t),
        State::U64(e, v) => StateView::U64(e, v),
    }
}

/// The slot after a value is set in it: set, unless it was set already.
pub open spec fn once<T>(slot: Option<T>, value: T) -> Option<T> {
    if slot is Some {
        slot
    } else {
        Some(value)
    }
}

/// Setting a value in a slot fails when it was set already.
pub open spec fn once_result<T>(slot: Option<T>) -> Result<(), ErrorKind> {
    if slot is Some {
        Err(ErrorKind::DuplicateValue)
    } else {
        Ok(())
    }
}

/// The strings with another added, unless an equal one is there already.
pub open spec fn str_inserted<'a>(v: Seq<&'a str>, x: &'a str) -> Seq<&'a str> {
    if exists|i: int| 0 <= i < v.len() && (#[trigger] v[i])@ == x@ {
        v
    } else {
        v.push(x)
    }
}

/// The values with another added, unless it is there already.
pub open spec fn inserted<T>(v: Seq<T>, x: T) -> Seq<T> {
    if v.contains(x) {
        v
    } else {
        v.push(x)
    }
}

/// What an element opened inside others holds when it starts.
pub open spec fn fresh_state<'a>(k: StateKind, element: &'a str) -> StateView<'a> {
    match k {
        StateKind::Root => StateView::Root,
        StateKind::Entry => StateView::Entry(
            EntryBuilderView {
                sequence: None,
                reading_elements: Seq::empty(),
                kanji_elements: Seq::empty(),
                senses: Seq::empty(),
            },
        ),
        StateKind::ReadingElement => StateView::ReadingElement(
            ReadingElementBuilderView {
                text: None,
                no_kanji: false,
                reading_string: Seq::empty(),
                priority: Seq::empty(),
                info: Seq::empty(),
            },
        ),
        StateKind::KanjiElement => StateView::KanjiElement(
            KanjiElementBuilderView { text: None, priority: Seq::empty(), info: Seq::empty() },
        ),
        StateKind::Sense => StateView::Sense(
            SenseView {
                xref: Seq::empty(),
                gloss: Seq::empty(),
                info: None,
                stagk: Seq::empty(),
                stagr: Seq::empty(),
                source_language: Seq::empty(),
                antonym: Seq::empty(),
                examples: Seq::empty(),
                pos: Seq::empty(),
                misc: Seq::empty(),
                dialect: Seq::empty(),
                field: Seq::empty(),
            },
        ),
        StateKind::Gloss => StateView::Gloss(GlossBuilder { text: None, ty: None, lang: None }),
        StateKind::Example => StateView::Example(
            ExampleView { sentences: Seq::empty(), sources: Seq::empty(), texts: Seq::empty() },
        ),
        StateKind::ExampleSource => StateView::ExampleSource(
            ExampleSourceBuilder { text: None, ty: None },
        ),
        StateKind::ExampleSentence => StateView::ExampleSentence(
            ExampleSentenceBuilder { text: None, lang: None },
        ),
        StateKind::SourceLanguage => StateView::SourceLanguage(
            SourceLanguageBuilder { text: None, lang: None, waseigo: false, ty: None },
        ),
        StateKind::Empty(_) => StateView::Empty(element),
        StateKind::Text(_) => StateView::Text(element, None),
        StateKind::U64(_) => StateView::U64(element, None),
    }
}

/// An element after its text is read: a number is parsed, and text may
/// be given once.
pub open spec fn text_step<'a>(s: StateView<'a>, value: &'a str) -> (StateView<'a>, Result<(), ErrorKind>) {
    match s {
        StateView::U64(name, number) => match spec_parse_u64(value@) {
            Some(v) => (StateView::U64(name, once(number, v)), once_result(number)),
            None => (s, Err(ErrorKind::InvalidNumber)),
        },
        StateView::Text(name, text) => (StateView::Text(name, once(text, value)), once_result(text)),
        StateView::Gloss(b) => (
            StateView::Gloss(GlossBuilder { text: once(b.text, value), ty: b.ty, lang: b.lang }),
            once_result(b.text),
        ),
        StateView::ExampleSource(b) => (
            StateView::ExampleSource(ExampleSourceBuilder { text: once(b.text, value), ty: b.ty }),
            once_result(b.text),
        ),
        StateView::ExampleSentence(b) => (
            StateView::ExampleSentence(
                ExampleSentenceBuilder { text: once(b.text, value), lang: b.lang },
            ),
            once_result(b.text),
        ),
        StateView::SourceLanguage(b) => (
            StateView::SourceLanguage(
                SourceLanguageBuilder {
                    text: once(b.text, value),
                    lang: b.lang,
                    waseigo: b.waseigo,
                    ty: b.ty,
                },
            ),
            once_result(b.text),
        ),
        _ => (s, Err(ErrorKind::UnexpectedText)),
    }
}

/// An element after one of its attributes is read.
pub open spec fn attribute_step<'a>(s: StateView<'a>, key: &'a str, value: &'a str) -> (
    StateView<'a>,
    Result<(), ErrorKind>,
) {
    match s {
        StateView::Gloss(b) => if key@ == "g_type"@ {
            (
                StateView::Gloss(GlossBuilder { text: b.text, ty: once(b.ty, value), lang: b.lang }),
                once_result(b.ty),
            )
        } else {
            (s, Err(ErrorKind::UnexpectedAttribute))
        },
        StateView::ExampleSource(b) => if key@ == "exsrc_type"@ {
            (
                StateView::ExampleSource(ExampleSourceBuilder { text: b.text, ty: once(b.ty, value) }),
                once_result(b.ty),
            )
        } else {
            (s, Err(ErrorKind::UnexpectedAttribute))
        },
        StateView::ExampleSentence(b) => if key@ == "lang"@ {
            (
                StateView::ExampleSentence(
                    ExampleSentenceBuilder { text: b.text, lang: once(b.lang, value) },
                ),
                once_result(b.lang),
            )
        } else {
            (s, Err(ErrorKind::UnexpectedAttribute))
        },
        StateView::SourceLanguage(b) => if key@ == "lang"@ {
            (
                StateView::SourceLanguage(
                    SourceLanguageBuilder {
                        text: b.text,
                        lang: once(b.lang, value),
                        waseigo: b.waseigo,
                        ty: b.ty,
                    },
                ),
                once_result(b.lang),
            )
        } else if key@ == "ls_type"@ {
            (
                StateView::SourceLanguage(
                    SourceLanguageBuilder {
                        text: b.text,
                        lang: b.lang,
                        waseigo: b.waseigo,
                        ty: once(b.ty, value),
                    },
                ),
                once_result(b.ty),
            )
        } else if key@ == "ls_wasei"@ {
            if value@ == "y"@ {
                (
                    StateView::SourceLanguage(
                        SourceLanguageBuilder { text: b.text, lang: b.lang, waseigo: true, ty: b.ty },
                    ),
                    Ok(()),
                )
            } else {
                (s, Err(ErrorKind::InvalidAttributeValue))
            }
        } else {
            (s, Err(ErrorKind::UnexpectedAttribute))
        },
        _ => (s, Err(ErrorKind::UnexpectedAttribute)),
    }
}

/// A sense after one of its text elements closed.
pub open spec fn sense_text_step<'a>(s: SenseView<'a>, name: &'a str, text: Option<&'a str>) -> (
    SenseView<'a>,
    Result<(), ErrorKind>,
) {
    match text {
        None => (
            s,
            if sense_text_element(name@) {
                Err(ErrorKind::MissingText)
            } else {
                Err(ErrorKind::UnexpectedClose)
            },
        ),
        Some(t) => if name@ == "pos"@ {
            match PartOfSpeech::spec_parse(t@) {
                Some(p) => (SenseView { pos: inserted(s.pos, p), ..s }, Ok(())),
                None => (s, Err(ErrorKind::InvalidEntity)),
            }
        } else if name@ == "xref"@ {
            (SenseView { xref: s.xref.push(t), ..s }, Ok(()))
        } else if name@ == "s_inf"@ {
            (SenseView { info: once(s.info, t), ..s }, once_result(s.info))
        } else if name@ == "misc"@ {
            match Miscellaneous::spec_parse(t@) {
                Some(m) => (SenseView { misc: inserted(s.misc, m), ..s }, Ok(())),
                None => (s, Err(ErrorKind::InvalidEntity)),
            }
        } else if name@ == "ant"@ {
            (SenseView { antonym: s.antonym.push(t), ..s }, Ok(()))
        } else if name@ == "dial"@ {
            match Dialect::spec_parse(t@) {
                Some(d) => (SenseView { dialect: inserted(s.dialect, d), ..s }, Ok(())),
                None => (s, Err(ErrorKind::InvalidEntity)),
            }
        } else if name@ == "field"@ {
            match Field::spec_parse(t@) {
                Some(f) => (SenseView { field: inserted(s.field, f), ..s }, Ok(())),
                None => (s, Err(ErrorKind::InvalidEntity)),
            }
        } else if name@ == "stagk"@ {
            (SenseView { stagk: s.stagk.push(t), ..s }, Ok(()))
        } else if name@ == "stagr"@ {
            (SenseView { stagr: s.stagr.push(t), ..s }, Ok(()))
        } else {
            (s, Err(ErrorKind::UnexpectedClose))
        },
    }
}

/// An element after an element inside it closed: what the inner element
/// read is folded into it.
pub open spec fn combine_step<'a>(parent: StateView<'a>, top: StateView<'a>) -> (
    StateView<'a>,
    Result<(), ErrorKind>,
) {
    match parent {
        StateView::Entry(e) => match top {
            StateView::U64(name, number) => if name@ == "ent_seq"@ {
                match number {
                    Some(v) => (
                        StateView::Entry(EntryBuilderView { sequence: once(e.sequence, v), ..e }),
                        once_result(e.sequence),
                    ),
                    None => (parent, Err(ErrorKind::MissingSequence)),
                }
            } else {
                (parent, Err(ErrorKind::UnexpectedClose))
            },
            StateView::ReadingElement(b) => match b.text {
                Some(text) => (
                    StateView::Entry(
                        EntryBuilderView {
                            reading_elements: e.reading_elements.push(
                                ReadingElementView {
                                    text,
                                    no_kanji: b.no_kanji,
                                    reading_string: b.reading_string,
                                    priority: b.priority,
                                    info: b.info,
                                },
                            ),
                            ..e
                        },
                    ),
                    Ok(()),
                ),
                None => (parent, Err(ErrorKind::MissingText)),
            },
            StateView::KanjiElement(b) => match b.text {
                Some(text) => (
                    StateView::Entry(
                        EntryBuilderView {
                            kanji_elements: e.kanji_elements.push(
                                KanjiElementView { text, priority: b.priority, info: b.info },
                            ),
                            ..e
                        },
                    ),
                    Ok(()),
                ),
                None => (parent, Err(ErrorKind::MissingText)),
            },
            StateView::Sense(sense) => (
                StateView::Entry(EntryBuilderView { senses: e.senses.push(sense), ..e }),
                Ok(()),
            ),
            _ => (parent, Err(ErrorKind::UnexpectedClose)),
        },
        StateView::ReadingElement(b) => match top {
            StateView::Text(name, text) => if !reading_text_element(name@) {
                (parent, Err(ErrorKind::UnexpectedClose))
            } else {
                match text {
                    None => (parent, Err(ErrorKind::MissingText)),
                    Some(t) => if name@ == "reb"@ {
                        (
                            StateView::ReadingElement(
                                ReadingElementBuilderView { text: once(b.text, t), ..b },
                            ),
                            once_result(b.text),
                        )
                    } else if name@ == "re_restr"@ {
                        (
                            StateView::ReadingElement(
                                ReadingElementBuilderView {
                                    reading_string: str_inserted(b.reading_string, t),
                                    ..b
                                },
                            ),
                            Ok(()),
                        )
                    } else if name@ == "re_pri"@ {
                        match Priority::spec_parse(t@) {
                            Some(p) => (
                                StateView::ReadingElement(
                                    ReadingElementBuilderView { priority: b.priority.push(p), ..b },
                                ),
                                Ok(()),
                            ),
                            None => (parent, Err(ErrorKind::InvalidPriority)),
                        }
                    } else {
                        match ReadingInfo::spec_parse(t@) {
                            Some(i) => (
                                StateView::ReadingElement(
                                    ReadingElementBuilderView { info: inserted(b.info, i), ..b },
                                ),
                                Ok(()),
                            ),
                            None => (parent, Err(ErrorKind::InvalidEntity)),
                        }
                    },
                }
            },
            StateView::Empty(name) => if name@ == "re_nokanji"@ {
                (
                    StateView::ReadingElement(ReadingElementBuilderView { no_kanji: true, ..b }),
                    Ok(()),
                )
            } else {
                (parent, Err(ErrorKind::UnexpectedClose))
            },
            _ => (parent, Err(ErrorKind::UnexpectedClose)),
        },
        StateView::KanjiElement(b) => match top {
            StateView::Text(name, text) => if !kanji_text_element(name@) {
                (parent, Err(ErrorKind::UnexpectedClose))
            } else {
                match text {
                    None => (parent, Err(ErrorKind::MissingText)),
                    Some(t) => if name@ == "keb"@ {
                        (
                            StateView::KanjiElement(
                                KanjiElementBuilderView { text: once(b.text, t), ..b },
                            ),
                            once_result(b.text),
                        )
                    } else if name@ == "ke_pri"@ {
                        match Priority::spec_parse(t@) {
                            Some(p) => (
                                StateView::KanjiElement(
                                    KanjiElementBuilderView { priority: b.priority.push(p), ..b },
                                ),
                                Ok(()),
                            ),
                            None => (parent, Err(ErrorKind::InvalidPriority)),
                        }
                    } else {
                        match KanjiInfo::spec_parse(t@) {
                            Some(i) => (
                                StateView::KanjiElement(
                                    KanjiElementBuilderView { info: inserted(b.info, i), ..b },
                                ),
                                Ok(()),
                            ),
                            None => (parent, Err(ErrorKind::InvalidEntity)),
                        }
                    },
                }
            },
            _ => (parent, Err(ErrorKind::UnexpectedClose)),
        },
        StateView::Sense(sense) => match top {
            StateView::Text(name, text) => {
                let (s, r) = sense_text_step(sense, name, text);
                (StateView::Sense(s), r)
            },
            StateView::Gloss(g) => match g.text {
                Some(text) => (
                    StateView::Sense(
                        SenseView {
                            gloss: sense.gloss.push(Glossary { text, ty: g.ty, lang: g.lang }),
                            ..sense
                        },
                    ),
                    Ok(()),
                ),
                None => (parent, Err(ErrorKind::MissingText)),
            },
            StateView::Example(x) => (
                StateView::Sense(SenseView { examples: sense.examples.push(x), ..sense }),
                Ok(()),
            ),
            StateView::SourceLanguage(l) => (
                StateView::Sense(
                    SenseView {
                        source_language: sense.source_language.push(
                            SourceLanguage { text: l.text, lang: l.lang, waseigo: l.waseigo, ty: l.ty },
                        ),
                        ..sense
                    },
                ),
                Ok(()),
            ),
            _ => (parent, Err(ErrorKind::UnexpectedClose)),
        },
        StateView::Example(x) => match top {
            StateView::ExampleSource(b) => match b.text {
                Some(text) => (
                    StateView::Example(
                        ExampleView { sources: x.sources.push(ExampleSource { text, ty: b.ty }), ..x },
                    ),
                    Ok(()),
                ),
                None => (parent, Err(ErrorKind::MissingText)),
            },
            StateView::ExampleSentence(b) => match b.text {
                Some(text) => (
                    StateView::Example(
                        ExampleView {
                            sentences: x.sentences.push(ExampleSentence { text, lang: b.lang }),
                            ..x
                        },
                    ),
                    Ok(()),
                ),
                None => (parent, Err(ErrorKind::MissingText)),
            },
            StateView::Text(name, text) => if name@ == "ex_text"@ {
                match text {
                    Some(t) => (StateView::Example(ExampleView { texts: x.texts.push(t), ..x }), Ok(())),
                    None => (parent, Err(ErrorKind::MissingText)),
                }
            } else {
                (parent, Err(ErrorKind::UnexpectedClose))
            },
            _ => (parent, Err(ErrorKind::UnexpectedClose)),
        },
        _ => (parent, Err(ErrorKind::UnexpectedClose)),
    }
}

/// The elements being read after the innermost one closes, and what that
/// gives: the entry when an entry closes directly inside the root.
pub open spec fn close_step<'a>(states: Seq<StateView<'a>>) -> (
    Seq<StateView<'a>>,
    Result<Option<EntryView<'a>>, ErrorKind>,
) {
    if states.len() == 0 {
        (states, Err(ErrorKind::ExpectedState))
    } else {
        let top = states.last();
        let rest = states.drop_last();
        if rest.len() == 0 {
            (
                rest,
                if top is Root {
                    Ok(None)
                } else {
                    Err(ErrorKind::UnexpectedClose)
                },
            )
        } else if rest.len() == 1 && rest[0] is Root && top is Entry {
            let b = top->Entry_0;
            (
                rest,
                match b.sequence {
                    Some(sequence) => Ok(
                        Some(
                            EntryView {
                                sequence,
                                reading_elements: b.reading_elements,
                                kanji_elements: b.kanji_elements,
                                senses: b.senses,
                            },
                        ),
                    ),
                    None => Err(ErrorKind::MissingSequence),
                },
            )
        } else {
            let (p, r) = combine_step(rest.last(), top);
            (
                rest.drop_last().push(p),
                match r {
                    Ok(()) => Ok(None),
                    Err(e) => Err(e),
                },
            )
        }
    }
}

/// The kind of an element by what is read of it.
pub open spec fn view_kind(s: StateView) -> StateKind {
    match s {
        StateView::Root => StateKind::Root,
        StateView::Entry(_) => StateKind::Entry,
        StateView::ReadingElement(_) => StateKind::ReadingElement,
        StateView::KanjiElement(_) => StateKind::KanjiElement,
        StateView::Sense(_) => StateKind::Sense,
        StateView::Gloss(_) => StateKind::Gloss,
        StateView::Example(_) => StateKind::Example,
        StateView::ExampleSource(_) => StateKind::ExampleSource,
        StateView::ExampleSentence(_) => StateKind::ExampleSentence,
        StateView::SourceLanguage(_) => StateKind::SourceLanguage,
        StateView::Empty(e) => StateKind::Empty(e@),
        StateView::Text(e, _) => StateKind::Text(e@),
        StateView::U64(e, _) => StateKind::U64(e@),
    }
}

/// The elements being read, and what it gives, after one output of the
/// document: an element opens, its text or an attribute is read, it
/// closes, or the document ends, which it may only do outside of every
/// element.
pub open spec fn feed_step<'a>(states: Seq<StateView<'a>>, output: Output<'a>) -> (
    Seq<StateView<'a>>,
    Result<Option<EntryView<'a>>, ErrorKind>,
) {
    match output {
        Output::Open(e) => match open_kind(states.map_values(|s: StateView<'a>| view_kind(s)), e@) {
            Some(k) => (states.push(fresh_state(k, e)), Ok(None)),
            None => (states, Err(ErrorKind::UnexpectedElement)),
        },
        Output::Text(v) => if states.len() == 0 {
            (states, Err(ErrorKind::UnexpectedText))
        } else {
            let (s, r) = text_step(states.last(), v);
            (
                states.drop_last().push(s),
                match r {
                    Ok(()) => Ok(None),
                    Err(e) => Err(e),
                },
            )
        },
        Output::Attribute(k, v) => if states.len() == 0 {
            (states, Err(ErrorKind::UnexpectedAttribute))
        } else {
            let (s, r) = attribute_step(states.last(), k, v);
            (
                states.drop_last().push(s),
                match r {
                    Ok(()) => Ok(None),
                    Err(e) => Err(e),
                },
            )
        },
        Output::Close => close_step(states),
        Output::Eof => if states.len() > 0 {
            (states, Err(ErrorKind::UnexpectedEof))
        } else {
            (states, Ok(None))
        },
    }
}

/// What parsing gives from where the reader stands: the outputs are read
/// and fed in turn until one gives an entry or an error, reading fails, or
/// the document ends. The elements being read, the result, and where the
/// reader stands after.
pub open spec fn run<'a>(states: Seq<StateView<'a>>, v: ReaderView<'a>) -> (
    Seq<StateView<'a>>,
    Result<Option<EntryView<'a>>, ErrorKind>,
    ReaderView<'a>,
)
    decreases v.tokens.len() - v.pos,
{
    let (o, next) = reader_step(v);
    match o {
        Err(e) => (states, Err(e), next),
        Ok(out) => {
            let (after, r) = feed_step(states, out);
            if r == Ok::<Option<EntryView<'a>>, ErrorKind>(None) && !(out is Eof) && next.tokens
                == v.tokens && v.pos < next.pos <= v.tokens.len() {
                run(after, next)
            } else {
                (after, r, next)
            }
        },
    }
}

/// Parsing moves past at least one token when it gives an entry.
pub proof fn lemma_run_advances<'a>(states: Seq<StateView<'a>>, v: ReaderView<'a>)
    requires
        v.pos >= 0,
    ensures
        run(states, v).1 matches Ok(Some(_)) ==> run(states, v).2.tokens == v.tokens && v.pos
            < run(states, v).2.pos <= v.tokens.len(),
    decreases v.tokens.len() - v.pos,
{
    let (o, next) = reader_step(v);
    lemma_read_from_advances(v.tokens, v.pos);
    match o {
        Err(e) => {},
        Ok(out) => {
            let (after, r) = feed_step(states, out);
            if r == Ok::<Option<EntryView<'a>>, ErrorKind>(None) && !(out is Eof) && next.tokens
                == v.tokens && v.pos < next.pos <= v.tokens.len() {
                lemma_run_advances(after, next);
            }
        },
    }
}

/// Every entry which parsing gives in turn from where the reader stands,
/// and the error which stopped it, if one did.
pub open spec fn entries_from<'a>(states: Seq<StateView<'a>>, v: ReaderView<'a>) -> (
    Seq<EntryView<'a>>,
    Option<ErrorKind>,
)
    decreases v.tokens.len() - v.pos,
{
    let (after, r, next) = run(states, v);
    match r {
        Ok(Some(e)) => if next.tokens == v.tokens && v.pos < next.pos <= v.tokens.len() {
            let (rest, end) = entries_from(after, next);
            (seq![e] + rest, end)
        } else {
            (seq![e], None)
        },
        Ok(None) => (Seq::empty(), None),
        Err(k) => (Seq::empty(), Some(k)),
    }
}

/// What a result of parsing gives, the entry by what it holds and the
/// error by its kind.
pub open spec fn parse_result_view<'a>(r: Result<Option<Entry<'a>>, ParseError>) -> Result<
    Option<EntryView<'a>>,
    ErrorKind,
> {
    match r {
        Ok(Some(e)) => Ok(Some(e@)),
        Ok(None) => Ok(None),
        Err(p) => Err(p.kind),
    }
}

proof fn lemma_views_push<A, B>(v: Seq<A>, x: A, f: spec_fn(A) -> B)
    ensures
        v.push(x).map_values(f) == v.map_values(f).push(f(x)),
{
    assert(v.push(x).map_values(f) =~= v.map_values(f).push(f(x)));
}

/// What a result of closing gives, the entry by what it holds.
pub open spec fn close_result_view<'a>(r: Result<Option<Entry<'a>>, ErrorKind>) -> Result<
    Option<EntryView<'a>>,
    ErrorKind,
> {
    match r {
        Ok(Some(e)) => Ok(Some(e@)),
        Ok(None) => Ok(None),
        Err(e) => Err(e),
    }
}

fn insert_str<'a>(v: &mut Vec<&'a str>, x: &'a str)
    ensures
        final(v)@ == str_inserted(old(v)@, x),
{
    let mut i: usize = 0;
    while i < v.len()
        invariant
            i <= v@.len(),
            forall|k: int| 0 <= k < i ==> (#[trigger] v@[k])@ != x@,
        decreases v@.len() - i,
    {
        if str_eq(v[i], x) {
            assert((v@[i as int])@ == x@);
            return;
        }
        i = i + 1;
    }
    v.push(x);
}

fn insert_reading_info(v: &mut Vec<ReadingInfo>, x: ReadingInfo)
    ensures
        final(v)@ == inserted(old(v)@, x),
{
    let mut i: usize = 0;
    while i < v.len()
        invariant
            i <= v@.len(),
            forall|k: int| 0 <= k < i ==> v@[k] != x,
        decreases v@.len() - i,
    {
        if v[i] == x {
            assert(v@[i as int] == x);
            return;
        }
        i = i + 1;
    }
    v.push(x);
    assert(v@[v@.len() - 1] == x);
}

fn insert_kanji_info(v: &mut Vec<KanjiInfo>, x: KanjiInfo)
    ensures
        final(v)@ == inserted(old(v)@, x),
{
    let mut i: usize = 0;
    while i < v.len()
        invariant
            i <= v@.len(),
            forall|k: int| 0 <= k < i ==> v@[k] != x,
        decreases v@.len() - i,
    {
        if v[i] == x {
            assert(v@[i as int] == x);
            return;
        }
        i = i + 1;
    }
    v.push(x);
    assert(v@[v@.len() - 1] == x);
}

fn insert_pos(v: &mut Vec<PartOfSpeech>, x: PartOfSpeech)
    ensures
        final(v)@ == inserted(old(v)@, x),
{
    let mut i: usize = 0;
    while i < v.len()
        invariant
            i <= v@.len(),
            forall|k: int| 0 <= k < i ==> v@[k] != x,
        decreases v@.len() - i,
    {
        if v[i] == x {
            assert(v@[i as int] == x);
            return;
        }
        i = i + 1;
    }
    v.push(x);
    assert(v@[v@.len() - 1] == x);
}

fn insert_misc(v: &mut Vec<Miscellaneous>, x: Miscellaneous)
    ensures
        final(v)@ == inserted(old(v)@, x),
{
    let mut i: usize = 0;
    while i < v.len()
        invariant
            i <= v@.len(),
            forall|k: int| 0 <= k < i ==> v@[k] != x,
        decreases v@.len() - i,
    {
        if v[i] == x {
            assert(v@[i as int] == x);
            return;
        }
        i = i + 1;
    }
    v.push(x);
    assert(v@[v@.len() - 1] == x);
}

fn insert_dialect(v: &mut Vec<Dialect>, x: Dialect)
    ensures
        final(v)@ == inserted(old(v)@, x),
{
    let mut i: usize = 0;
    while i < v.len()
        invariant
            i <= v@.len(),
            forall|k: int| 0 <= k < i ==> v@[k] != x,
        decreases v@.len() - i,
    {
        if v[i] == x {
            assert(v@[i as int] == x);
            return;
        }
        i = i + 1;
    }
    v.push(x);
    assert(v@[v@.len() - 1] == x);
}

fn insert_field(v: &mut Vec<Field>, x: Field)
    ensures
        final(v)@ == inserted(old(v)@, x),
{
    let mut i: usize = 0;
    while i < v.len()
        invariant
            i <= v@.len(),
            forall|k: int| 0 <= k < i ==> v@[k] != x,
        decreases v@.len() - i,
    {
        if v[i] == x {
            assert(v@[i as int] == x);
            return;
        }
        i = i + 1;
    }
    v.push(x);
    assert(v@[v@.len() - 1] == x);
}

fn empty_sense<'a>() -> (r: Sense<'a>)
    ensures
        StateView::Sense(r@) =~~= fresh_state(StateKind::Sense, ""),
{
    Sense {
        xref: Vec::new(),
        gloss: Vec::new(),
        info: None,
        stagk: Vec::new(),
        stagr: Vec::new(),
        source_language: Vec::new(),
        antonym: Vec::new(),
        examples: Vec::new(),
        pos: Vec::new(),
        misc: Vec::new(),
        dialect: Vec::new(),
        field: Vec::new(),
    }
}

/// A JMdict parser.
pub struct Parser<'a> {
    reader: Reader<'a>,
    stack: Vec<State<'a>>,
}

impl<'a> Parser<'a> {
    /// The elements the parser is inside of, outermost first.
    pub closed spec fn kinds(&self) -> Seq<StateKind> {
        self.stack@.map_values(|s: State<'a>| kind_of(s))
    }

    /// What is read of the elements the parser is inside of, outermost
    /// first.
    pub closed spec fn states(&self) -> Seq<StateView<'a>> {
        self.stack@.map_values(|s: State<'a>| state_view(s))
    }

    /// The kinds of the elements are those of what is read of them.
    pub proof fn lemma_kinds_of_states(&self)
        ensures
            self.kinds() == self.states().map_values(|s: StateView<'a>| view_kind(s)),
    {
        assert(self.kinds() =~= self.states().map_values(|s: StateView<'a>| view_kind(s)));
    }

    /// How many more tokens the parser reads at most.
    pub closed spec fn fuel(&self) -> nat {
        self.reader.fuel()
    }

    /// Where the reader of the document stands.
    pub closed spec fn reader(&self) -> ReaderView<'a> {
        self.reader.view()
    }

    /// The reader never stands before the start of the document, and the
    /// fuel is the number of tokens left.
    pub proof fn lemma_reader_pos(&self)
        ensures
            self.reader().pos >= 0,
            self.fuel() == (if self.reader().pos < self.reader().tokens.len() {
                (self.reader().tokens.len() - self.reader().pos) as nat
            } else {
                0nat
            }),
    {
        self.reader.lemma_fuel();
    }

    /// A parser of the given document, at its start.
    pub fn new(input: &'a str) -> (r: Self)
        ensures
            r.kinds() == Seq::<StateKind>::empty(),
            r.states() == Seq::<StateView<'a>>::empty(),
            r.reader().tokens.map_values(|t: Result<XmlToken<'a>, String>| token_view(t))
                == xml_tokens(input@),
            r.reader().pos == 0,
            !r.reader().closed,
            r.reader().path == Seq::<&'a str>::empty(),
    {
        let r = Self { reader: Reader::new(input), stack: Vec::new() };
        assert(r.kinds() =~= Seq::<StateKind>::empty());
        assert(r.states() =~= Seq::<StateView<'a>>::empty());
        r
    }

    /// Parse the next entry, if there is one before the end of the document.
    pub fn parse(&mut self) -> (r: Result<Option<Entry<'a>>, ParseError>)
        ensures
            (final(self).states(), parse_result_view(r), final(self).reader()) == run(
                old(self).states(),
                old(self).reader(),
            ),
            r matches Err(e) ==> e.path@ == joined_path(final(self).reader().path),
            match r {
                Ok(Some(_)) => final(self).kinds() == seq![StateKind::Root],
                Ok(None) => final(self).kinds() == Seq::<StateKind>::empty(),
                Err(_) => true,
            },
    {
        match self.parse_inner() {
            Ok(r) => Ok(r),
            Err(kind) => {
                proof {
                    self.reader.lemma_path();
                }
                Err(ParseError { kind, path: self.reader.path_string() })
            },
        }
    }

    fn parse_inner(&mut self) -> (r: Result<Option<Entry<'a>>, ErrorKind>)
        ensures
            (final(self).states(), close_result_view(r), final(self).reader()) == run(
                old(self).states(),
                old(self).reader(),
            ),
            match r {
                Ok(Some(_)) => final(self).kinds() == seq![StateKind::Root],
                Ok(None) => final(self).kinds() == Seq::<StateKind>::empty(),
                Err(_) => true,
            },
    {
        let ghost goal = run(old(self).states(), old(self).reader());
        loop
            invariant
                goal == run(old(self).states(), old(self).reader()),
                goal == run(self.states(), self.reader()),
            decreases self.fuel(),
        {
            let ghost v = self.reader();
            let ghost states = self.states();
            proof {
                self.reader.lemma_fuel();
            }
            let output = self.reader.next();
            proof {
                self.reader.lemma_fuel();
                lemma_read_from_advances(v.tokens, v.pos);
            }
            assert(goal == run(states, v));
            let output = match output {
                Ok(o) => o,
                Err(e) => {
                    assert(run(states, v) == (states, Err::<Option<EntryView<'a>>, ErrorKind>(e), self.reader()));
                    return Err(e);
                },
            };
            let eof = match output {
                Output::Eof => true,
                _ => false,
            };
            let ghost next = self.reader();
            let r = self.feed(output);
            assert(feed_step(states, output) == (self.states(), close_result_view(r)));
            match r {
                Ok(Some(entry)) => return Ok(Some(entry)),
                Ok(None) => {
                    if eof {
                        assert(run(states, v) == (self.states(), close_result_view(r), next));
                        return Ok(None);
                    }
                    assert(run(states, v) == run(self.states(), next));
                },
                Err(e) => {
                    assert(run(states, v) == (self.states(), close_result_view(r), next));
                    return Err(e);
                },
            }
        }
    }
}

/// An element of the given kind may close inside an element of the
/// given kind.
pub open spec fn closes_into(parent: StateKind, top: StateKind) -> bool {
    match parent {
        StateKind::Entry => match top {
            StateKind::U64(e) => e == "ent_seq"@,
            StateKind::ReadingElement | StateKind::KanjiElement | StateKind::Sense => true,
            _ => false,
        },
        StateKind::ReadingElement => match top {
            StateKind::Text(e) => reading_text_element(e),
            StateKind::Empty(e) => e == "re_nokanji"@,
            _ => false,
        },
        StateKind::KanjiElement => match top {
            StateKind::Text(e) => kanji_text_element(e),
            _ => false,
        },
        StateKind::Sense => match top {
            StateKind::Text(e) => sense_text_element(e),
            StateKind::Gloss | StateKind::Example | StateKind::SourceLanguage => true,
            _ => false,
        },
        StateKind::Example => match top {
            StateKind::Text(e) => e == "ex_text"@,
            StateKind::ExampleSource | StateKind::ExampleSentence => true,
            _ => false,
        },
        _ => false,
    }
}

/// The errors which closing an element that may close can still give: a
/// value it lacks or gives twice, or text that names nothing.
pub open spec fn close_error(e: ErrorKind) -> bool {
    e == ErrorKind::MissingText || e == ErrorKind::MissingSequence || e == ErrorKind::DuplicateValue
        || e == ErrorKind::InvalidEntity || e == ErrorKind::InvalidPriority
}

impl<'a> Parser<'a> {
    /// Feed one output of the document to the parser: an entry when one
    /// closes directly inside the root.
    pub fn feed(&mut self, output: Output<'a>) -> (r: Result<Option<Entry<'a>>, ErrorKind>)
        ensures
            final(self).fuel() == old(self).fuel(),
            final(self).reader() == old(self).reader(),
            final(self).states() == feed_step(old(self).states(), output).0,
            close_result_view(r) == feed_step(old(self).states(), output).1,
            match r {
                Ok(Some(_)) => final(self).kinds() == seq![StateKind::Root],
                Ok(None) => output is Eof ==> final(self).kinds() == Seq::<StateKind>::empty(),
                Err(_) => true,
            },
    {
        proof {
            self.lemma_kinds_of_states();
        }
        match output {
            Output::Open(element) => match self.open(element) {
                Ok(()) => Ok(None),
                Err(e) => Err(e),
            },
            Output::Text(value) => match self.text(value) {
                Ok(()) => Ok(None),
                Err(e) => Err(e),
            },
            Output::Attribute(key, value) => match self.attribute(key, value) {
                Ok(()) => Ok(None),
                Err(e) => Err(e),
            },
            Output::Close => self.close(),
            Output::Eof => {
                if self.stack.len() > 0 {
                    return Err(ErrorKind::UnexpectedEof);
                }
                assert(self.kinds() =~= Seq::<StateKind>::empty());
                Ok(None)
            },
        }
    }

    /// Enter an element.
    pub fn open(&mut self, element: &'a str) -> (r: Result<(), ErrorKind>)
        ensures
            final(self).fuel() == old(self).fuel(),
            final(self).reader() == old(self).reader(),
            match open_kind(old(self).kinds(), element@) {
                Some(k) => r is Ok && final(self).kinds() == old(self).kinds().push(k)
                    && final(self).states() == old(self).states().push(fresh_state(k, element)),
                None => r == Err::<(), ErrorKind>(ErrorKind::UnexpectedElement) && final(self).kinds()
                    == old(self).kinds() && final(self).states() == old(self).states(),
            },
    {
        let n = self.stack.len();
        let ghost kinds = self.kinds();
        let ghost states = self.states();
        let next: Option<State<'a>> = if n == 0 {
            if str_eq(element, "JMdict") {
                Some(State::Root)
            } else {
                None
            }
        } else if n == 1 && matches!(self.stack[0], State::Root) && str_eq(element, "entry") {
            assert(kinds =~= seq![StateKind::Root]);
            Some(
                State::Entry(
                    EntryBuilder {
                        sequence: None,
                        reading_elements: Vec::new(),
                        kanji_elements: Vec::new(),
                        senses: Vec::new(),
                    },
                ),
            )
        } else {
            proof {
                if kinds == seq![StateKind::Root] {
                    assert(kinds.len() == 1 && kinds[0] == StateKind::Root);
                    assert(kind_of(self.stack@[0]) == StateKind::Root);
                }
            }
            assert(kinds.last() == kind_of(self.stack@[n - 1]));
            match &self.stack[n - 1] {
                State::Entry(_) => {
                    if str_eq(element, "ent_seq") {
                        Some(State::U64(element, None))
                    } else if str_eq(element, "r_ele") {
                        Some(
                            State::ReadingElement(
                                ReadingElementBuilder {
                                    text: None,
                                    no_kanji: false,
                                    reading_string: Vec::new(),
                                    priority: Vec::new(),
                                    info: Vec::new(),
                                },
                            ),
                        )
                    } else if str_eq(element, "k_ele") {
                        Some(
                            State::KanjiElement(
                                KanjiElementBuilder {
                                    text: None,
                                    priority: Vec::new(),
                                    info: Vec::new(),
                                },
                            ),
                        )
                    } else if str_eq(element, "sense") {
                        Some(State::Sense(empty_sense()))
                    } else {
                        None
                    }
                },
                State::ReadingElement(_) => {
                    if str_eq(element, "reb") || str_eq(element, "re_restr") || str_eq(
                        element,
                        "re_pri",
                    ) || str_eq(element, "re_inf") {
                        Some(State::Text(element, None))
                    } else if str_eq(element, "re_nokanji") {
                        Some(State::Empty(element))
                    } else {
                        None
                    }
                },
                State::KanjiElement(_) => {
                    if str_eq(element, "keb") || str_eq(element, "ke_pri") || str_eq(
                        element,
                        "ke_inf",
                    ) {
                        Some(State::Text(element, None))
                    } else {
                        None
                    }
                },
                State::Sense(_) => {
                    if str_eq(element, "pos") || str_eq(element, "xref") || str_eq(
                        element,
                        "s_inf",
                    ) || str_eq(element, "dial") || str_eq(element, "stagk") || str_eq(
                        element,
                        "stagr",
                    ) || str_eq(element, "field") || str_eq(element, "misc") || str_eq(
                        element,
                        "ant",
                    ) {
                        Some(State::Text(element, None))
                    } else if str_eq(element, "gloss") {
                        Some(State::Gloss(GlossBuilder { text: None, ty: None, lang: None }))
                    } else if str_eq(element, "example") {
                        Some(
                            State::Example(
                                ExampleBuilder {
                                    sentences: Vec::new(),
                                    sources: Vec::new(),
                                    texts: Vec::new(),
                                },
                            ),
                        )
                    } else if str_eq(element, "lsource") {
                        Some(
                            State::SourceLanguage(
                                SourceLanguageBuilder {
                                    text: None,
                                    lang: None,
                                    waseigo: false,
                                    ty: None,
                                },
                            ),
                        )
                    } else {
                        None
                    }
                },
                State::Example(_) => {
                    if str_eq(element, "ex_srce") {
                        Some(State::ExampleSource(ExampleSourceBuilder { text: None, ty: None }))
                    } else if str_eq(element, "ex_sent") {
                        Some(
                            State::ExampleSentence(ExampleSentenceBuilder { text: None, lang: None }),
                        )
                    } else if str_eq(element, "ex_text") {
                        Some(State::Text(element, None))
                    } else {
                        None
                    }
                },
                _ => None,
            }
        };
        match next {
            Some(state) => {
                assert(state_view(state) =~~= fresh_state(kind_of(state), element));
                self.stack.push(state);
                assert(self.kinds() =~= kinds.push(kind_of(state)));
                assert(self.states() =~= states.push(state_view(state)));
                Ok(())
            },
            None => Err(ErrorKind::UnexpectedElement),
        }
    }

    /// Take the text of the element being read.
    pub fn text(&mut self, value: &'a str) -> (r: Result<(), ErrorKind>)
        ensures
            final(self).fuel() == old(self).fuel(),
            final(self).reader() == old(self).reader(),
            final(self).kinds() == old(self).kinds(),
            old(self).states().len() == 0 ==> final(self).states() == old(self).states(),
            old(self).states().len() > 0 ==> final(self).states() == old(self).states().drop_last().push(
                text_step(old(self).states().last(), value).0,
            ) && r == text_step(old(self).states().last(), value).1,
            old(self).kinds().len() == 0 || !accepts_text(old(self).kinds().last()) ==> r
                == Err::<(), ErrorKind>(ErrorKind::UnexpectedText),
            match r {
                Err(e) => e == ErrorKind::UnexpectedText || e == ErrorKind::DuplicateValue || e
                    == ErrorKind::InvalidNumber,
                Ok(_) => true,
            },
    {
        let ghost kinds = self.kinds();
        let ghost states = self.states();
        let top = match self.stack.pop() {
            Some(top) => top,
            None => return Err(ErrorKind::UnexpectedText),
        };
        assert(states.last() == state_view(top));
        assert(self.states() =~= states.drop_last());
        assert(kinds.last() == kind_of(top));
        let (state, r) = match top {
            State::U64(name, text) => {
                let mut text = text;
                match parse_u64(value) {
                    Some(v) => {
                        let r = set_option(&mut text, v);
                        (State::U64(name, text), r)
                    },
                    None => (State::U64(name, text), Err(ErrorKind::InvalidNumber)),
                }
            },
            State::Text(name, text) => {
                let mut text = text;
                let r = set_option(&mut text, value);
                (State::Text(name, text), r)
            },
            State::Gloss(b) => {
                let mut b = b;
                let r = set_option(&mut b.text, value);
                (State::Gloss(b), r)
            },
            State::ExampleSource(b) => {
                let mut b = b;
                let r = set_option(&mut b.text, value);
                (State::ExampleSource(b), r)
            },
            State::ExampleSentence(b) => {
                let mut b = b;
                let r = set_option(&mut b.text, value);
                (State::ExampleSentence(b), r)
            },
            State::SourceLanguage(b) => {
                let mut b = b;
                let r = set_option(&mut b.text, value);
                (State::SourceLanguage(b), r)
            },
            other => (other, Err(ErrorKind::UnexpectedText)),
        };
        assert(state_view(state) =~~= text_step(states.last(), value).0);
        self.stack.push(state);
        assert(self.kinds() =~= kinds);
        assert(self.states() =~= states.drop_last().push(state_view(state)));
        r
    }

    /// Take an attribute of the element being read.
    pub fn attribute(&mut self, key: &'a str, value: &'a str) -> (r: Result<(), ErrorKind>)
        ensures
            final(self).fuel() == old(self).fuel(),
            final(self).reader() == old(self).reader(),
            final(self).kinds() == old(self).kinds(),
            old(self).states().len() == 0 ==> final(self).states() == old(self).states(),
            old(self).states().len() > 0 ==> final(self).states() == old(self).states().drop_last().push(
                attribute_step(old(self).states().last(), key, value).0,
            ) && r == attribute_step(old(self).states().last(), key, value).1,
            old(self).kinds().len() == 0 || !accepts_attribute(old(self).kinds().last(), key@) ==> r
                == Err::<(), ErrorKind>(ErrorKind::UnexpectedAttribute),
            old(self).kinds().len() > 0 && old(self).kinds().last() == StateKind::SourceLanguage
                && key@ == "ls_wasei"@ && value@ != "y"@ ==> r == Err::<(), ErrorKind>(
                ErrorKind::InvalidAttributeValue,
            ),
            match r {
                Err(e) => e == ErrorKind::UnexpectedAttribute || e == ErrorKind::DuplicateValue
                    || e == ErrorKind::InvalidAttributeValue,
                Ok(_) => true,
            },
    {
        let ghost kinds = self.kinds();
        proof {
            reveal_strlit("lang");
            reveal_strlit("ls_type");
            reveal_strlit("ls_wasei");
            assert("ls_wasei"@.len() == 8);
            assert("lang"@.len() == 4);
            assert("ls_type"@.len() == 7);
        }
        let ghost states = self.states();
        let top = match self.stack.pop() {
            Some(top) => top,
            None => return Err(ErrorKind::UnexpectedAttribute),
        };
        assert(states.last() == state_view(top));
        assert(self.states() =~= states.drop_last());
        assert(kinds.last() == kind_of(top));
        let (state, r) = match top {
            State::Gloss(b) => {
                let mut b = b;
                if str_eq(key, "g_type") {
                    let r = set_option(&mut b.ty, value);
                    (State::Gloss(b), r)
                } else {
                    (State::Gloss(b), Err(ErrorKind::UnexpectedAttribute))
                }
            },
            State::ExampleSource(b) => {
                let mut b = b;
                if str_eq(key, "exsrc_type") {
                    let r = set_option(&mut b.ty, value);
                    (State::ExampleSource(b), r)
                } else {
                    (State::ExampleSource(b), Err(ErrorKind::UnexpectedAttribute))
                }
            },
            State::ExampleSentence(b) => {
                let mut b = b;
                if str_eq(key, "lang") {
                    let r = set_option(&mut b.lang, value);
                    (State::ExampleSentence(b), r)
                } else {
                    (State::ExampleSentence(b), Err(ErrorKind::UnexpectedAttribute))
                }
            },
            State::SourceLanguage(b) => {
                let mut b = b;
                if str_eq(key, "lang") {
                    let r = set_option(&mut b.lang, value);
                    (State::SourceLanguage(b), r)
                } else if str_eq(key, "ls_type") {
                    let r = set_option(&mut b.ty, value);
                    (State::SourceLanguage(b), r)
                } else if str_eq(key, "ls_wasei") {
                    if str_eq(value, "y") {
                        b.waseigo = true;
                        (State::SourceLanguage(b), Ok(()))
                    } else {
                        (State::SourceLanguage(b), Err(ErrorKind::InvalidAttributeValue))
                    }
                } else {
                    (State::SourceLanguage(b), Err(ErrorKind::UnexpectedAttribute))
                }
            },
            other => (other, Err(ErrorKind::UnexpectedAttribute)),
        };
        assert(state_view(state) =~~= attribute_step(states.last(), key, value).0);
        self.stack.push(state);
        assert(self.kinds() =~= kinds);
        assert(self.states() =~= states.drop_last().push(state_view(state)));
        r
    }

    /// Leave the element being read: an entry when it closes directly
    /// inside the root.
    pub fn close(&mut self) -> (r: Result<Option<Entry<'a>>, ErrorKind>)
        ensures
            final(self).fuel() == old(self).fuel(),
            final(self).reader() == old(self).reader(),
            final(self).states() == close_step(old(self).states()).0,
            close_result_view(r) == close_step(old(self).states()).1,
            old(self).kinds().len() == 0 ==> r == Err::<Option<Entry<'a>>, ErrorKind>(
                ErrorKind::ExpectedState,
            ),
            old(self).kinds().len() > 0 ==> {
                let rest = old(self).kinds().drop_last();
                let top = old(self).kinds().last();
                &&& final(self).kinds() == rest
                &&& !closes(rest, top) ==> r == Err::<Option<Entry<'a>>, ErrorKind>(
                    ErrorKind::UnexpectedClose,
                )
                &&& r matches Ok(Some(_)) ==> rest == seq![StateKind::Root] && top
                    == StateKind::Entry
                &&& rest == seq![StateKind::Root] && top == StateKind::Entry ==> (r matches Ok(
                    Some(_),
                ) || r == Err::<Option<Entry<'a>>, ErrorKind>(ErrorKind::MissingSequence))
                &&& closes(rest, top) ==> match r {
                    Err(e) => close_error(e),
                    Ok(_) => true,
                }
            },
    {
        let ghost kinds = self.kinds();
        let ghost states = self.states();
        let top = match self.stack.pop() {
            Some(top) => top,
            None => return Err(ErrorKind::ExpectedState),
        };
        assert(kinds.last() == kind_of(top));
        assert(self.kinds() =~= kinds.drop_last());
        assert(states.last() == state_view(top));
        assert(self.states() =~= states.drop_last());
        let n = self.stack.len();
        if n == 0 {
            return match top {
                State::Root => Ok(None),
                _ => Err(ErrorKind::UnexpectedClose),
            };
        }
        if n == 1 && matches!(self.stack[0], State::Root) {
            assert(kinds.drop_last() =~= seq![StateKind::Root]);
            if let State::Entry(b) = top {
                return match b.sequence {
                    Some(sequence) => Ok(
                        Some(
                            Entry {
                                sequence,
                                reading_elements: b.reading_elements,
                                kanji_elements: b.kanji_elements,
                                senses: b.senses,
                            },
                        ),
                    ),
                    None => Err(ErrorKind::MissingSequence),
                };
            }
        }
        proof {
            if kinds.drop_last() == seq![StateKind::Root] {
                assert(self.kinds()[0] == kind_of(self.stack@[0]));
                assert(self.kinds()[0] == kinds.drop_last()[0]);
                assert(kind_of(self.stack@[0]) == StateKind::Root);
            }
        }
        let ghost rest = self.kinds();
        let ghost rest_states = self.states();
        let parent = self.stack.pop().unwrap();
        assert(rest.last() == kind_of(parent));
        assert(rest_states.last() == state_view(parent));
        assert(self.states() =~= rest_states.drop_last());
        let (parent, r) = combine(parent, top);
        self.stack.push(parent);
        assert(self.kinds() =~= rest);
        assert(self.states() =~= rest_states.drop_last().push(state_view(parent)));
        match r {
            Ok(()) => Ok(None),
            Err(e) => Err(e),
        }
    }
}

/// Fold an element which closed into the element it stands in.
fn combine<'a>(parent: State<'a>, top: State<'a>) -> (r: (State<'a>, Result<(), ErrorKind>))
    ensures
        state_view(r.0) == combine_step(state_view(parent), state_view(top)).0,
        r.1 == combine_step(state_view(parent), state_view(top)).1,
        kind_of(r.0) == kind_of(parent),
        !closes_into(kind_of(parent), kind_of(top)) ==> r.1 == Err::<(), ErrorKind>(
            ErrorKind::UnexpectedClose,
        ),
        closes_into(kind_of(parent), kind_of(top)) ==> match r.1 {
            Err(e) => close_error(e),
            Ok(_) => true,
        },
{
    match parent {
        State::Entry(entry) => {
            let mut entry = entry;
            let r = match top {
                State::U64(name, sequence) => {
                    if str_eq(name, "ent_seq") {
                        match sequence {
                            Some(sequence) => set_option(&mut entry.sequence, sequence),
                            None => Err(ErrorKind::MissingSequence),
                        }
                    } else {
                        Err(ErrorKind::UnexpectedClose)
                    }
                },
                State::ReadingElement(b) => match b.text {
                    Some(text) => {
                        let ghost old_elements = entry.reading_elements@;
                        proof {
                            lemma_views_push(
                                old_elements,
                                ReadingElement {
                                    text,
                                    no_kanji: b.no_kanji,
                                    reading_string: b.reading_string,
                                    priority: b.priority,
                                    info: b.info,
                                },
                                |e: ReadingElement<'a>| e@,
                            );
                        }
                        entry.reading_elements.push(
                            ReadingElement {
                                text,
                                no_kanji: b.no_kanji,
                                reading_string: b.reading_string,
                                priority: b.priority,
                                info: b.info,
                            },
                        );
                        Ok(())
                    },
                    None => Err(ErrorKind::MissingText),
                },
                State::KanjiElement(b) => match b.text {
                    Some(text) => {
                        proof {
                            lemma_views_push(
                                entry.kanji_elements@,
                                KanjiElement { text, priority: b.priority, info: b.info },
                                |e: KanjiElement<'a>| e@,
                            );
                        }
                        entry.kanji_elements.push(
                            KanjiElement { text, priority: b.priority, info: b.info },
                        );
                        Ok(())
                    },
                    None => Err(ErrorKind::MissingText),
                },
                State::Sense(sense) => {
                    proof {
                        lemma_views_push(entry.senses@, sense, |e: Sense<'a>| e@);
                    }
                    entry.senses.push(sense);
                    Ok(())
                },
                _ => Err(ErrorKind::UnexpectedClose),
            };
            (State::Entry(entry), r)
        },
        State::ReadingElement(b) => {
            let mut b = b;
            let r = match top {
                State::Text(name, text) => {
                    if str_eq(name, "reb") {
                        match require_text(text) {
                            Ok(text) => set_option(&mut b.text, text),
                            Err(e) => Err(e),
                        }
                    } else if str_eq(name, "re_restr") {
                        match require_text(text) {
                            Ok(text) => {
                                insert_str(&mut b.reading_string, text);
                                Ok(())
                            },
                            Err(e) => Err(e),
                        }
                    } else if str_eq(name, "re_pri") {
                        match require_text(text) {
                            Ok(text) => match Priority::parse(text) {
                                Some(p) => {
                                    b.priority.push(p);
                                    Ok(())
                                },
                                None => Err(ErrorKind::InvalidPriority),
                            },
                            Err(e) => Err(e),
                        }
                    } else if str_eq(name, "re_inf") {
                        match require_text(text) {
                            Ok(text) => match ReadingInfo::parse(text) {
                                Some(info) => {
                                    insert_reading_info(&mut b.info, info);
                                    Ok(())
                                },
                                None => Err(ErrorKind::InvalidEntity),
                            },
                            Err(e) => Err(e),
                        }
                    } else {
                        Err(ErrorKind::UnexpectedClose)
                    }
                },
                State::Empty(name) => {
                    if str_eq(name, "re_nokanji") {
                        b.no_kanji = true;
                        Ok(())
                    } else {
                        Err(ErrorKind::UnexpectedClose)
                    }
                },
                _ => Err(ErrorKind::UnexpectedClose),
            };
            (State::ReadingElement(b), r)
        },
        State::KanjiElement(b) => {
            let mut b = b;
            let r = match top {
                State::Text(name, text) => {
                    if str_eq(name, "keb") {
                        match require_text(text) {
                            Ok(text) => set_option(&mut b.text, text),
                            Err(e) => Err(e),
                        }
                    } else if str_eq(name, "ke_pri") {
                        match require_text(text) {
                            Ok(text) => match Priority::parse(text) {
                                Some(p) => {
                                    b.priority.push(p);
                                    Ok(())
                                },
                                None => Err(ErrorKind::InvalidPriority),
                            },
                            Err(e) => Err(e),
                        }
                    } else if str_eq(name, "ke_inf") {
                        match require_text(text) {
                            Ok(text) => match KanjiInfo::parse(text) {
                                Some(info) => {
                                    insert_kanji_info(&mut b.info, info);
                                    Ok(())
                                },
                                None => Err(ErrorKind::InvalidEntity),
                            },
                            Err(e) => Err(e),
                        }
                    } else {
                        Err(ErrorKind::UnexpectedClose)
                    }
                },
                _ => Err(ErrorKind::UnexpectedClose),
            };
            (State::KanjiElement(b), r)
        },
        State::Sense(sense) => {
            let mut sense = sense;
            let r = match top {
                State::Text(name, text) => combine_sense_text(&mut sense, name, text),
                State::Gloss(b) => match b.text {
                    Some(text) => {
                        sense.gloss.push(Glossary { text, ty: b.ty, lang: b.lang });
                        Ok(())
                    },
                    None => Err(ErrorKind::MissingText),
                },
                State::Example(e) => {
                    proof {
                        lemma_views_push(
                            sense.examples@,
                            Example { sentences: e.sentences, sources: e.sources, texts: e.texts },
                            |x: Example<'a>| x@,
                        );
                    }
                    sense.examples.push(
                        Example { sentences: e.sentences, sources: e.sources, texts: e.texts },
                    );
                    Ok(())
                },
                State::SourceLanguage(s) => {
                    sense.source_language.push(
                        SourceLanguage { text: s.text, lang: s.lang, waseigo: s.waseigo, ty: s.ty },
                    );
                    Ok(())
                },
                _ => Err(ErrorKind::UnexpectedClose),
            };
            (State::Sense(sense), r)
        },
        State::Example(example) => {
            let mut example = example;
            let r = match top {
                State::ExampleSource(b) => match b.text {
                    Some(text) => {
                        example.sources.push(ExampleSource { text, ty: b.ty });
                        Ok(())
                    },
                    None => Err(ErrorKind::MissingText),
                },
                State::ExampleSentence(b) => match b.text {
                    Some(text) => {
                        example.sentences.push(ExampleSentence { text, lang: b.lang });
                        Ok(())
                    },
                    None => Err(ErrorKind::MissingText),
                },
                State::Text(name, text) => {
                    if str_eq(name, "ex_text") {
                        match require_text(text) {
                            Ok(text) => {
                                example.texts.push(text);
                                Ok(())
                            },
                            Err(e) => Err(e),
                        }
                    } else {
                        Err(ErrorKind::UnexpectedClose)
                    }
                },
                _ => Err(ErrorKind::UnexpectedClose),
            };
            (State::Example(example), r)
        },
        other => (other, Err(ErrorKind::UnexpectedClose)),
    }
}

/// Fold a text element which closed into its sense.
fn combine_sense_text<'a>(sense: &mut Sense<'a>, name: &'a str, text: Option<&'a str>) -> (r:
    Result<(), ErrorKind>)
    ensures
        final(sense)@ == sense_text_step(old(sense)@, name, text).0,
        r == sense_text_step(old(sense)@, name, text).1,
        !sense_text_element(name@) ==> r == Err::<(), ErrorKind>(ErrorKind::UnexpectedClose),
        sense_text_element(name@) ==> match r {
            Err(e) => close_error(e),
            Ok(_) => true,
        },
{
    let text = match text {
        Some(text) => text,
        None => {
            return if str_eq(name, "pos") || str_eq(name, "xref") || str_eq(name, "s_inf")
                || str_eq(name, "misc") || str_eq(name, "ant") || str_eq(name, "dial") || str_eq(
                name,
                "field",
            ) || str_eq(name, "stagk") || str_eq(name, "stagr") {
                Err(ErrorKind::MissingText)
            } else {
                Err(ErrorKind::UnexpectedClose)
            };
        },
    };
    if str_eq(name, "pos") {
        match PartOfSpeech::parse(text) {
            Some(p) => {
                insert_pos(&mut sense.pos, p);
                Ok(())
            },
            None => Err(ErrorKind::InvalidEntity),
        }
    } else if str_eq(name, "xref") {
        sense.xref.push(text);
        Ok(())
    } else if str_eq(name, "s_inf") {
        set_option(&mut sense.info, text)
    } else if str_eq(name, "misc") {
        match Miscellaneous::parse(text) {
            Some(m) => {
                insert_misc(&mut sense.misc, m);
                Ok(())
            },
            None => Err(ErrorKind::InvalidEntity),
        }
    } else if str_eq(name, "ant") {
        sense.antonym.push(text);
        Ok(())
    } else if str_eq(name, "dial") {
        match Dialect::parse(text) {
            Some(d) => {
                insert_dialect(&mut sense.dialect, d);
                Ok(())
            },
            None => Err(ErrorKind::InvalidEntity),
        }
    } else if str_eq(name, "field") {
        match Field::parse(text) {
            Some(f) => {
                insert_field(&mut sense.field, f);
                Ok(())
            },
            None => Err(ErrorKind::InvalidEntity),
        }
    } else if str_eq(name, "stagk") {
        sense.stagk.push(text);
        Ok(())
    } else if str_eq(name, "stagr") {
        sense.stagr.push(text);
        Ok(())
    } else {
        Err(ErrorKind::UnexpectedClose)
    }
}

} // verus!
