//! A parser of the JMnedict dictionary of names, one entry at a time.

use vstd::prelude::*;
use vstd::string::*;

use super::elements::{Entry, EntryView, Reading, Translation};
use crate::entities::NameType;
use crate::text::{spec_trim, str_eq, trim};
use crate::xml::{
    join_path, joined_path, parse_u64, spec_parse_u64, token_view, xml_tokens, ErrorKind, ParseError,
    Tokens, XmlToken,
};

verus! {

/// The kind of element the parser is inside of.
pub enum StateKind {
    Root,
    Entry,
    Kanji,
    Reading,
    Translations,
    NameType,
    Translation,
    /// An element of text, by name.
    Text(Seq<char>),
}

/// The element which an element of the given name opens inside the given
/// elements, if it may stand there.
pub open spec fn open_kind(stack: Seq<StateKind>, e: Seq<char>) -> Option<StateKind> {
    if stack.len() == 0 {
        if e == "JMnedict"@ {
            Some(StateKind::Root)
        } else {
            None
        }
    } else if stack.len() == 1 && stack[0] is Root && e == "entry"@ {
        Some(StateKind::Entry)
    } else {
        match stack.last() {
            StateKind::Entry => if e == "ent_seq"@ {
                Some(StateKind::Text("ent_seq"@))
            } else if e == "k_ele"@ {
                Some(StateKind::Kanji)
            } else if e == "r_ele"@ {
                Some(StateKind::Reading)
            } else if e == "trans"@ {
                Some(StateKind::Translations)
            } else {
                None
            },
            StateKind::Kanji => if e == "keb"@ {
                Some(StateKind::Text("keb"@))
            } else {
                None
            },
            StateKind::Reading => if e == "reb"@ {
                Some(StateKind::Text("reb"@))
            } else if e == "re_pri"@ {
                Some(StateKind::Text("re_pri"@))
            } else {
                None
            },
            StateKind::Translations => if e == "name_type"@ {
                Some(StateKind::NameType)
            } else if e == "trans_det"@ {
                Some(StateKind::Translation)
            } else {
                None
            },
            _ => None,
        }
    }
}

/// What is read of an entry so far.
pub struct EntryBuilder<'a> {
    pub sequence: Option<u64>,
    pub kanji: Vec<&'a str>,
    pub reading: Vec<Reading<'a>>,
    pub name_types: Vec<NameType>,
    pub translations: Vec<Translation<'a>>,
}

/// An element being read.
pub enum State<'a> {
    Root,
    Entry(EntryBuilder<'a>),
    Kanji(Option<&'a str>),
    Reading(Option<&'a str>, Option<&'a str>),
    Translations(Vec<NameType>, Vec<Translation<'a>>),
    NameType(Option<NameType>),
    Translation(Option<&'a str>, Option<&'a str>),
    Text(&'static str, Option<&'a str>),
}

/// The kind of an element being read.
pub open spec fn kind_of(s: State) -> StateKind {
    match s {
        State::Root => StateKind::Root,
        State::Entry(_) => StateKind::Entry,
        State::Kanji(_) => StateKind::Kanji,
        State::Reading(..) => StateKind::Reading,
        State::Translations(..) => StateKind::Translations,
        State::NameType(_) => StateKind::NameType,
        State::Translation(..) => StateKind::Translation,
        State::Text(e, _) => StateKind::Text(e@),
    }
}


/// What is read of an entry so far.
#[verifier::ext_equal]
pub struct EntryBuilderView<'a> {
    pub sequence: Option<u64>,
    pub kanji: Seq<&'a str>,
    pub reading: Seq<Reading<'a>>,
    pub name_types: Seq<NameType>,
    pub translations: Seq<Translation<'a>>,
}

/// What is read of an element so far.
#[verifier::ext_equal]
pub enum StateView<'a> {
    Root,
    Entry(EntryBuilderView<'a>),
    Kanji(Option<&'a str>),
    Reading(Option<&'a str>, Option<&'a str>),
    Translations(Seq<NameType>, Seq<Translation<'a>>),
    NameType(Option<NameType>),
    Translation(Option<&'a str>, Option<&'a str>),
    Text(Seq<char>, Option<&'a str>),
}

/// What is read of an element so far.
pub open spec fn state_view<'a>(s: State<'a>) -> StateView<'a> {
    match s {
        State::Root => StateView::Root,
        State::Entry(b) => StateView::Entry(
            EntryBuilderView {
                sequence: b.sequence,
                kanji: b.kanji@,
                reading: b.reading@,
                name_types: b.name_types@,
                translations: b.translations@,
            },
        ),
        State::Kanji(k) => StateView::Kanji(k),
        State::Reading(t, p) => StateView::Reading(t, p),
        State::Translations(n, t) => StateView::Translations(n@, t@),
        State::NameType(n) => StateView::NameType(n),
        State::Translation(t, l) => StateView::Translation(t, l),
        State::Text(e, t) => StateView::Text(e@, t),
    }
}

/// What an element opened inside others holds when it starts.
pub open spec fn fresh_state<'a>(k: StateKind) -> StateView<'a> {
    match k {
        StateKind::Root => StateView::Root,
        StateKind::Entry => StateView::Entry(
            EntryBuilderView {
                sequence: None,
                kanji: Seq::empty(),
                reading: Seq::empty(),
                name_types: Seq::empty(),
                translations: Seq::empty(),
            },
        ),
        StateKind::Kanji => StateView::Kanji(None),
        StateKind::Reading => StateView::Reading(None, None),
        StateKind::Translations => StateView::Translations(Seq::empty(), Seq::empty()),
        StateKind::NameType => StateView::NameType(None),
        StateKind::Translation => StateView::Translation(None, None),
        StateKind::Text(e) => StateView::Text(e, None),
    }
}

/// The slot after a value, which may be absent, is put in it: put, unless
/// it was set already.
pub open spec fn replaced<T>(slot: Option<T>, value: Option<T>) -> Option<T> {
    if slot is Some {
        slot
    } else {
        value
    }
}

/// Putting a value in a slot fails when it was set already.
pub open spec fn replaced_result<T>(slot: Option<T>) -> Result<(), ErrorKind> {
    if slot is Some {
        Err(ErrorKind::DuplicateValue)
    } else {
        Ok(())
    }
}

/// An element after its text is read.
pub open spec fn text_step<'a>(s: StateView<'a>, text: &'a str) -> (StateView<'a>, Result<(), ErrorKind>) {
    match s {
        StateView::Text(name, _) => (StateView::Text(name, Some(text)), Ok(())),
        StateView::NameType(value) => match NameType::spec_parse(text@) {
            Some(n) => (StateView::NameType(replaced(value, Some(n))), replaced_result(value)),
            None => (s, Err(ErrorKind::InvalidEntity)),
        },
        StateView::Translation(value, lang) => (
            StateView::Translation(replaced(value, Some(text)), lang),
            replaced_result(value),
        ),
        _ => (s, Err(ErrorKind::UnexpectedText)),
    }
}

/// An element closes under the name expected of it, or under none.
pub open spec fn closes_as(actual: Option<Seq<char>>, expected: Seq<char>) -> bool {
    match actual {
        Some(a) => a == expected,
        None => true,
    }
}

/// An element after an element inside it closed, under the name `actual`
/// unless that was empty: what the inner element read is folded into it.
pub open spec fn combine_step<'a>(parent: StateView<'a>, top: StateView<'a>, actual: Option<Seq<char>>) -> (
    StateView<'a>,
    Result<(), ErrorKind>,
) {
    match parent {
        StateView::Entry(e) => match top {
            StateView::Text(name, value) => if name != "ent_seq"@ {
                (parent, Err(ErrorKind::UnexpectedClose))
            } else if !closes_as(actual, "ent_seq"@) {
                (parent, Err(ErrorKind::MismatchedClose))
            } else {
                match value {
                    Some(v) => match spec_parse_u64(v@) {
                        Some(n) => (
                            StateView::Entry(EntryBuilderView { sequence: replaced(e.sequence, Some(n)), ..e }),
                            replaced_result(e.sequence),
                        ),
                        None => (parent, Err(ErrorKind::InvalidNumber)),
                    },
                    None => (
                        StateView::Entry(EntryBuilderView { sequence: replaced(e.sequence, None), ..e }),
                        replaced_result(e.sequence),
                    ),
                }
            },
            StateView::Kanji(value) => if !closes_as(actual, "k_ele"@) {
                (parent, Err(ErrorKind::MismatchedClose))
            } else {
                match value {
                    Some(v) => (StateView::Entry(EntryBuilderView { kanji: e.kanji.push(v), ..e }), Ok(())),
                    None => (parent, Err(ErrorKind::MissingText)),
                }
            },
            StateView::Reading(text, priority) => if !closes_as(actual, "r_ele"@) {
                (parent, Err(ErrorKind::MismatchedClose))
            } else {
                match text {
                    Some(t) => (
                        StateView::Entry(
                            EntryBuilderView { reading: e.reading.push(Reading { text: t, priority }), ..e },
                        ),
                        Ok(()),
                    ),
                    None => (parent, Err(ErrorKind::MissingText)),
                }
            },
            StateView::Translations(name_types, translations) => if !closes_as(actual, "trans"@) {
                (parent, Err(ErrorKind::MismatchedClose))
            } else {
                (
                    StateView::Entry(
                        EntryBuilderView {
                            name_types: e.name_types + name_types,
                            translations: e.translations + translations,
                            ..e
                        },
                    ),
                    Ok(()),
                )
            },
            _ => (parent, Err(ErrorKind::UnexpectedClose)),
        },
        StateView::Kanji(slot) => match top {
            StateView::Text(name, value) => if name != "keb"@ {
                (parent, Err(ErrorKind::UnexpectedClose))
            } else if !closes_as(actual, "keb"@) {
                (parent, Err(ErrorKind::MismatchedClose))
            } else {
                (StateView::Kanji(replaced(slot, value)), replaced_result(slot))
            },
            _ => (parent, Err(ErrorKind::UnexpectedClose)),
        },
        StateView::Reading(text, priority) => match top {
            StateView::Text(name, value) => if name == "reb"@ {
                if !closes_as(actual, "reb"@) {
                    (parent, Err(ErrorKind::MismatchedClose))
                } else {
                    (StateView::Reading(replaced(text, value), priority), replaced_result(text))
                }
            } else if name == "re_pri"@ {
                if !closes_as(actual, "re_pri"@) {
                    (parent, Err(ErrorKind::MismatchedClose))
                } else {
                    (StateView::Reading(text, replaced(priority, value)), replaced_result(priority))
                }
            } else {
                (parent, Err(ErrorKind::UnexpectedClose))
            },
            _ => (parent, Err(ErrorKind::UnexpectedClose)),
        },
        StateView::Translations(name_types, translations) => match top {
            StateView::NameType(value) => if !closes_as(actual, "name_type"@) {
                (parent, Err(ErrorKind::MismatchedClose))
            } else {
                match value {
                    Some(n) => (StateView::Translations(name_types.push(n), translations), Ok(())),
                    None => (parent, Err(ErrorKind::MissingText)),
                }
            },
            StateView::Translation(text, lang) => if !closes_as(actual, "trans_det"@) {
                (parent, Err(ErrorKind::MismatchedClose))
            } else {
                match text {
                    Some(t) => (
                        StateView::Translations(name_types, translations.push(Translation { text: t, lang })),
                        Ok(()),
                    ),
                    None => (parent, Err(ErrorKind::MissingText)),
                }
            },
            _ => (parent, Err(ErrorKind::UnexpectedClose)),
        },
        _ => (parent, Err(ErrorKind::UnexpectedClose)),
    }
}

/// The elements being read after the innermost one closes under the name
/// `actual` unless it was empty, and what that gives: the entry when an
/// entry closes directly inside the root.
pub open spec fn close_step<'a>(states: Seq<StateView<'a>>, actual: Option<Seq<char>>) -> (
    Seq<StateView<'a>>,
    Result<Option<EntryView<'a>>, ErrorKind>,
) {
    if states.len() == 0 {
        (states, Err(ErrorKind::ExpectedState))
    } else {
        let top = states.last();
        let rest = states.drop_last();
        if rest.len() == 0 {
            (
                rest,
                if !(top is Root) {
                    Err(ErrorKind::UnexpectedClose)
                } else if closes_as(actual, "JMnedict"@) {
                    Ok(None)
                } else {
                    Err(ErrorKind::MismatchedClose)
                },
            )
        } else if rest.len() == 1 && rest[0] is Root && top is Entry {
            let b = top->Entry_0;
            (
                rest,
                match b.sequence {
                    Some(sequence) => Ok(
                        Some(
                            EntryView {
                                sequence,
                                kanji: b.kanji,
                                reading: b.reading,
                                name_types: b.name_types,
                                translations: b.translations,
                            },
                        ),
                    ),
                    None => Err(ErrorKind::MissingSequence),
                },
            )
        } else {
            let (p, r) = combine_step(rest.last(), top, actual);
            (
                rest.drop_last().push(p),
                match r {
                    Ok(()) => Ok(None),
                    Err(e) => Err(e),
                },
            )
        }
    }
}

/// The name under which an element closes, as characters.
pub open spec fn actual_view(actual: Option<&str>) -> Option<Seq<char>> {
    match actual {
        Some(a) => Some(a@),
        None => None,
    }
}

/// What a result of closing gives, the entry by what it holds.
pub open spec fn close_result_view<'a>(r: Result<Option<Entry<'a>>, ErrorKind>) -> Result<
    Option<EntryView<'a>>,
    ErrorKind,
> {
    match r {
        Ok(Some(e)) => Ok(Some(e@)),
        Ok(None) => Ok(None),
        Err(e) => Err(e),
    }
}

/// An event of the document as the parser reads it: an element opens, its
/// text (trimmed, and not empty) is read, an element closes under a name
/// or as an empty element, a prolog is read, or a token the parser does
/// not support.
#[derive(Debug, Clone, Copy)]
pub enum Event<'a> {
    Open(&'a str),
    Text(&'a str),
    Close(Option<&'a str>),
    Prolog,
    Unsupported,
}

/// The kind of an element by what is read of it.
pub open spec fn view_kind(s: StateView) -> StateKind {
    match s {
        StateView::Root => StateKind::Root,
        StateView::Entry(_) => StateKind::Entry,
        StateView::Kanji(_) => StateKind::Kanji,
        StateView::Reading(..) => StateKind::Reading,
        StateView::Translations(..) => StateKind::Translations,
        StateView::NameType(_) => StateKind::NameType,
        StateView::Translation(..) => StateKind::Translation,
        StateView::Text(e, _) => StateKind::Text(e),
    }
}

/// The elements being read, and what it gives, after one event.
pub open spec fn event_step<'a>(states: Seq<StateView<'a>>, e: Event<'a>) -> (
    Seq<StateView<'a>>,
    Result<Option<EntryView<'a>>, ErrorKind>,
) {
    match e {
        Event::Open(l) => match open_kind(states.map_values(|s: StateView<'a>| view_kind(s)), l@) {
            Some(k) => (states.push(fresh_state(k)), Ok(None)),
            None => (states, Err(ErrorKind::UnexpectedElement)),
        },
        Event::Text(t) => if states.len() == 0 {
            (states, Err(ErrorKind::UnexpectedText))
        } else {
            let (s, r) = text_step(states.last(), t);
            (
                states.drop_last().push(s),
                match r {
                    Ok(()) => Ok(None),
                    Err(e) => Err(e),
                },
            )
        },
        Event::Close(a) => close_step(states, actual_view(a)),
        Event::Prolog => if states.len() > 0 {
            (states, Err(ErrorKind::UnsupportedToken))
        } else {
            (states, Ok(None))
        },
        Event::Unsupported => (states, Err(ErrorKind::UnsupportedToken)),
    }
}

/// The event which a token gives, if any: `trimmed` stands for the text of
/// a text token with its surrounding whitespace removed. Comments, the `>`
/// which ends the start of an element, and text which is all whitespace
/// are skipped.
pub open spec fn token_event<'a>(t: XmlToken<'a>, trimmed: &'a str) -> Option<Event<'a>> {
    match t {
        XmlToken::Prolog => Some(Event::Prolog),
        XmlToken::Comment | XmlToken::ElementOpen => None,
        XmlToken::ElementStart(local) => Some(Event::Open(local)),
        XmlToken::ElementClose(actual) => Some(Event::Close(actual)),
        XmlToken::Text(text) => if spec_trim(text@).len() == 0 {
            None
        } else {
            Some(Event::Text(trimmed))
        },
        _ => Some(Event::Unsupported),
    }
}

/// For each text token from `a` to `b`, `trims` gives its text with the
/// surrounding whitespace removed.
pub open spec fn trims_fit<'a>(
    toks: Seq<Result<XmlToken<'a>, String>>,
    trims: spec_fn(int) -> &'a str,
    a: int,
    b: int,
) -> bool {
    forall|k: int|
        a <= k < b ==> (#[trigger] toks[k] matches Ok(XmlToken::Text(text)) ==> trims(k)@ == spec_trim(
            text@,
        ))
}

/// A path without its last name, if it has one.
pub open spec fn popped<'a>(path: Seq<&'a str>) -> Seq<&'a str> {
    if path.len() > 0 {
        path.drop_last()
    } else {
        path
    }
}

/// The path after an event which gave nothing.
pub open spec fn path_after<'a>(path: Seq<&'a str>, e: Event<'a>) -> Seq<&'a str> {
    match e {
        Event::Open(local) => path.push(local),
        Event::Close(_) => popped(path),
        _ => path,
    }
}

/// What reading the next name gives from token `pos` on, with `trims` the
/// trimmed texts: the tokens are read and their events fed in turn until
/// one gives a name or an error, the tokenizer failed, or the document
/// ended (outside of every element, or inside one). The elements being
/// read, the result, the position, and the path after.
pub open spec fn run<'a>(
    states: Seq<StateView<'a>>,
    toks: Seq<Result<XmlToken<'a>, String>>,
    pos: int,
    path: Seq<&'a str>,
    trims: spec_fn(int) -> &'a str,
) -> (Seq<StateView<'a>>, Result<Option<EntryView<'a>>, ErrorKind>, int, Seq<&'a str>)
    decreases toks.len() - pos,
{
    if pos < 0 || pos >= toks.len() {
        (
            states,
            if states.len() == 0 {
                Ok(None)
            } else {
                Err(ErrorKind::UnexpectedEof)
            },
            pos,
            path,
        )
    } else {
        match toks[pos] {
            Err(e) => (states, Err(ErrorKind::Xml(e)), pos + 1, path),
            Ok(t) => match token_event(t, trims(pos)) {
                None => run(states, toks, pos + 1, path, trims),
                Some(e) => {
                    let (after, r) = event_step(states, e);
                    match r {
                        Ok(None) => run(after, toks, pos + 1, path_after(path, e), trims),
                        Ok(Some(_)) => (after, r, pos + 1, popped(path)),
                        Err(_) => (after, r, pos + 1, path),
                    }
                },
            },
        }
    }
}

/// Two ways of trimming agree on the text tokens from `a` to `b`.
pub open spec fn trims_agree<'a>(
    t1: spec_fn(int) -> &'a str,
    t2: spec_fn(int) -> &'a str,
    a: int,
    b: int,
) -> bool {
    forall|k: int| a <= k < b ==> #[trigger] t1(k) == t2(k)
}

/// Where reading stops is at or after where it starts, past at least one
/// token when one is left; and reading depends on the trimmed texts of the
/// tokens it reads only.
pub proof fn lemma_run_agree<'a>(
    states: Seq<StateView<'a>>,
    toks: Seq<Result<XmlToken<'a>, String>>,
    pos: int,
    path: Seq<&'a str>,
    t1: spec_fn(int) -> &'a str,
    t2: spec_fn(int) -> &'a str,
)
    requires
        pos >= 0,
        trims_agree(t1, t2, pos, run(states, toks, pos, path, t1).2),
    ensures
        run(states, toks, pos, path, t1) == run(states, toks, pos, path, t2),
        pos < toks.len() ==> pos < run(states, toks, pos, path, t1).2 <= toks.len(),
        pos >= toks.len() ==> run(states, toks, pos, path, t1).2 == pos,
    decreases toks.len() - pos,
{
    if pos < toks.len() {
        let end = run(states, toks, pos, path, t1).2;
        match toks[pos] {
            Err(e) => {},
            Ok(t) => {
                lemma_run_end(states, toks, pos, path, t1);
                assert(t1(pos) == t2(pos));
                match token_event(t, t1(pos)) {
                    None => {
                        lemma_run_agree(states, toks, pos + 1, path, t1, t2);
                    },
                    Some(e) => {
                        let (after, r) = event_step(states, e);
                        if r == Ok::<Option<EntryView<'a>>, ErrorKind>(None) {
                            lemma_run_agree(after, toks, pos + 1, path_after(path, e), t1, t2);
                        }
                    },
                }
            },
        }
    }
}

/// Reading from a token which is left stops past it, and not past the end.
pub proof fn lemma_run_end<'a>(
    states: Seq<StateView<'a>>,
    toks: Seq<Result<XmlToken<'a>, String>>,
    pos: int,
    path: Seq<&'a str>,
    t: spec_fn(int) -> &'a str,
)
    requires
        pos >= 0,
    ensures
        pos < toks.len() ==> pos < run(states, toks, pos, path, t).2 <= toks.len(),
        pos >= toks.len() ==> run(states, toks, pos, path, t).2 == pos,
    decreases toks.len() - pos,
{
    if pos < toks.len() {
        match toks[pos] {
            Err(e) => {},
            Ok(tok) => match token_event(tok, t(pos)) {
                None => {
                    lemma_run_end(states, toks, pos + 1, path, t);
                },
                Some(e) => {
                    let (after, r) = event_step(states, e);
                    if r == Ok::<Option<EntryView<'a>>, ErrorKind>(None) {
                        lemma_run_end(after, toks, pos + 1, path_after(path, e), t);
                    }
                },
            },
        }
    }
}

/// Every name which reading gives in turn from token `pos` on, with `trims`
/// the trimmed texts, and the error which stopped it, if one did.
pub open spec fn names_from<'a>(
    states: Seq<StateView<'a>>,
    toks: Seq<Result<XmlToken<'a>, String>>,
    pos: int,
    path: Seq<&'a str>,
    trims: spec_fn(int) -> &'a str,
) -> (Seq<EntryView<'a>>, Option<ErrorKind>)
    decreases toks.len() - pos,
{
    let (after, r, next, next_path) = run(states, toks, pos, path, trims);
    match r {
        Ok(Some(e)) => if pos < next <= toks.len() {
            let (rest, end) = names_from(after, toks, next, next_path, trims);
            (seq![e] + rest, end)
        } else {
            (seq![e], None)
        },
        Ok(None) => (Seq::empty(), None),
        Err(k) => (Seq::empty(), Some(k)),
    }
}

/// What a result of reading gives, the entry by what it holds and the
/// error by its kind.
pub open spec fn parse_result_view<'a>(r: Result<Option<Entry<'a>>, ParseError>) -> Result<
    Option<EntryView<'a>>,
    ErrorKind,
> {
    match r {
        Ok(Some(e)) => Ok(Some(e@)),
        Ok(None) => Ok(None),
        Err(p) => Err(p.kind),
    }
}

/// Set a value which must not have been set before, to a value which may
/// be absent.
fn replace_none<T>(slot: &mut Option<T>, value: Option<T>) -> (r: Result<(), ErrorKind>)
    ensures
        (*old(slot)) is None ==> r == Ok::<(), ErrorKind>(()) && *final(slot) == value,
        (*old(slot)) is Some ==> r == Err::<(), ErrorKind>(ErrorKind::DuplicateValue) && *final(slot)
            == *old(slot),
{
    if slot.is_some() {
        return Err(ErrorKind::DuplicateValue);
    }
    *slot = value;
    Ok(())
}

/// An element closes under the expected name, if it names one.
fn expect_close(actual: Option<&str>, expected: &str) -> (r: Result<(), ErrorKind>)
    ensures
        r is Ok <==> match actual {
            Some(a) => a@ == expected@,
            None => true,
        },
        r is Err ==> r == Err::<(), ErrorKind>(ErrorKind::MismatchedClose),
        r is Ok ==> r == Ok::<(), ErrorKind>(()),
        r is Ok <==> closes_as(actual_view(actual), expected@),
{
    match actual {
        Some(a) => if str_eq(a, expected) {
            Ok(())
        } else {
            Err(ErrorKind::MismatchedClose)
        },
        None => Ok(()),
    }
}

/// Append the elements of one vector to another.
fn extend<T>(v: &mut Vec<T>, other: Vec<T>)
    ensures
        final(v)@ == old(v)@ + other@,
{
    let mut other = other;
    v.append(&mut other);
}

/// A JMnedict parser.
pub struct Parser<'a> {
    stack: Vec<State<'a>>,
    path: Vec<&'a str>,
    tokens: Tokens<'a>,
}

impl<'a> Parser<'a> {
    /// The elements the parser is inside of, outermost first.
    pub closed spec fn kinds(&self) -> Seq<StateKind> {
        self.stack@.map_values(|s: State<'a>| kind_of(s))
    }

    /// What is read of the elements the parser is inside of, outermost
    /// first.
    pub closed spec fn states(&self) -> Seq<StateView<'a>> {
        self.stack@.map_values(|s: State<'a>| state_view(s))
    }

    /// How many more tokens the parser reads at most.
    pub closed spec fn fuel(&self) -> nat {
        self.tokens.fuel()
    }

    /// The tokens of the document, in order.
    pub closed spec fn tokens(&self) -> Seq<Result<XmlToken<'a>, String>> {
        self.tokens.tokens()
    }

    /// How many tokens have been read.
    pub closed spec fn pos(&self) -> int {
        self.tokens.pos()
    }

    /// The names of the elements being read, outermost first.
    pub closed spec fn path(&self) -> Seq<&'a str> {
        self.path@
    }

    /// The position is not negative, and the fuel is the number of tokens
    /// left.
    pub proof fn lemma_cursor(&self)
        ensures
            self.pos() >= 0,
            self.fuel() == (if self.pos() < self.tokens().len() {
                (self.tokens().len() - self.pos()) as nat
            } else {
                0nat
            }),
    {
        self.tokens.lemma_pos();
    }

    /// The tokens, the position, and the path.
    pub open spec fn cursor(&self) -> (Seq<Result<XmlToken<'a>, String>>, int, Seq<&'a str>) {
        (self.tokens(), self.pos(), self.path())
    }

    /// A parser of the given document, at its start.
    pub fn new(input: &'a str) -> (r: Self)
        ensures
            r.kinds() == Seq::<StateKind>::empty(),
            r.states() == Seq::<StateView<'a>>::empty(),
            r.tokens().map_values(|t: Result<XmlToken<'a>, String>| token_view(t)) == xml_tokens(
                input@,
            ),
            r.pos() == 0,
            r.path() == Seq::<&'a str>::empty(),
    {
        let r = Self { stack: Vec::new(), path: Vec::new(), tokens: Tokens::new(input) };
        assert(r.kinds() =~= Seq::<StateKind>::empty());
        assert(r.states() =~= Seq::<StateView<'a>>::empty());
        r
    }

    /// Get the next parsed name, if there is one before the end of the
    /// document.
    pub fn next(&mut self) -> (r: Result<Option<Entry<'a>>, ParseError>)
        ensures
            final(self).tokens() == old(self).tokens(),
            exists|trims: spec_fn(int) -> &'a str|
                trims_fit(old(self).tokens(), trims, old(self).pos(), final(self).pos()) && (
                final(self).states(),
                parse_result_view(r),
                final(self).pos(),
                final(self).path(),
            ) == run(old(self).states(), old(self).tokens(), old(self).pos(), old(self).path(), trims),
            r matches Err(e) ==> e.path@ == joined_path(final(self).path()),
            match r {
                Ok(Some(_)) => final(self).kinds().len() == 1 && final(self).kinds()[0] is Root,
                Ok(None) => final(self).kinds() == Seq::<StateKind>::empty(),
                Err(_) => true,
            },
    {
        match self.next_inner() {
            Ok(r) => Ok(r),
            Err(kind) => Err(ParseError { kind, path: join_path(&self.path) }),
        }
    }

    fn next_inner(&mut self) -> (r: Result<Option<Entry<'a>>, ErrorKind>)
        ensures
            final(self).tokens() == old(self).tokens(),
            exists|trims: spec_fn(int) -> &'a str|
                trims_fit(old(self).tokens(), trims, old(self).pos(), final(self).pos()) && (
                final(self).states(),
                close_result_view(r),
                final(self).pos(),
                final(self).path(),
            ) == run(old(self).states(), old(self).tokens(), old(self).pos(), old(self).path(), trims),
            match r {
                Ok(Some(_)) => final(self).kinds().len() == 1 && final(self).kinds()[0] is Root,
                Ok(None) => final(self).kinds() == Seq::<StateKind>::empty(),
                Err(_) => true,
            },
    {
        let ghost toks = self.tokens();
        let ghost start = old(self).pos();
        let ghost mut trims: spec_fn(int) -> &'a str = |k: int| "";
        proof {
            self.tokens.lemma_pos();
        }
        loop
            invariant
                toks == old(self).tokens(),
                self.tokens() == toks,
                start == old(self).pos(),
                0 <= start <= self.pos(),
                trims_fit(toks, trims, start, self.pos()),
                forall|tr: spec_fn(int) -> &'a str|
                    #[trigger] trims_agree(tr, trims, start, self.pos()) ==> run(
                        old(self).states(),
                        toks,
                        start,
                        old(self).path(),
                        tr,
                    ) == run(self.states(), toks, self.pos(), self.path(), tr),
                self.kinds() == self.states().map_values(|s: StateView<'a>| view_kind(s)),
            decreases self.fuel(),
        {
            let ghost p = self.pos();
            let ghost states = self.states();
            let ghost path = self.path();
            let token = match self.tokens.next() {
                None => {
                    proof {
                        assert(trims_agree(trims, trims, start, p));
                    }
                    if self.stack.len() == 0 {
                        assert(self.kinds() =~= Seq::<StateKind>::empty());
                        return Ok(None);
                    }
                    return Err(ErrorKind::UnexpectedEof);
                },
                Some(Err(e)) => {
                    proof {
                        assert(trims_agree(trims, trims, start, p));
                        assert(trims_fit(toks, trims, start, p + 1));
                        assert(run(states, toks, p, path, trims) == (
                            states,
                            Err::<Option<EntryView<'a>>, ErrorKind>(ErrorKind::Xml(e)),
                            p + 1,
                            path,
                        ));
                        assert(run(old(self).states(), toks, start, old(self).path(), trims) == run(
                            states,
                            toks,
                            p,
                            path,
                            trims,
                        ));
                        assert(self.pos() == p + 1);
                        assert(self.states() == states);
                        assert(self.path() == path);
                    }
                    return Err(ErrorKind::Xml(e));
                },
                Some(Ok(token)) => token,
            };
            let ghost before_trims = trims;
            let event = match token {
                XmlToken::Prolog => Event::Prolog,
                XmlToken::Comment | XmlToken::ElementOpen => {
                    proof {
                        assert(trims_fit(toks, trims, start, p + 1));
                        assert forall|tr: spec_fn(int) -> &'a str|
                            #[trigger] trims_agree(tr, trims, start, p + 1) implies run(
                            old(self).states(),
                            toks,
                            start,
                            old(self).path(),
                            tr,
                        ) == run(self.states(), toks, p + 1, self.path(), tr) by {
                            assert(trims_agree(tr, trims, start, p));
                        }
                    }
                    continue;
                },
                XmlToken::ElementStart(local) => Event::Open(local),
                XmlToken::ElementClose(actual) => Event::Close(actual),
                XmlToken::Text(text) => {
                    let text2 = trim(text);
                    proof {
                        trims = |k: int| if k == p { text2 } else { before_trims(k) };
                        assert forall|tr: spec_fn(int) -> &'a str|
                            #[trigger] trims_agree(tr, trims, start, p) implies trims_agree(tr, before_trims, start, p) by {
                            assert forall|k: int| start <= k < p implies #[trigger] tr(k) == before_trims(k) by {
                                assert(tr(k) == trims(k));
                            }
                        }
                        assert(trims_fit(toks, trims, start, p + 1)) by {
                            assert forall|k: int| start <= k < p + 1 implies (#[trigger] toks[k] matches Ok(XmlToken::Text(t)) ==> trims(k)@ == spec_trim(t@)) by {
                                if k < p {
                                    assert(trims(k) == before_trims(k));
                                }
                            }
                        }
                    }
                    if text2.unicode_len() == 0 {
                        proof {
                            assert forall|tr: spec_fn(int) -> &'a str|
                                #[trigger] trims_agree(tr, trims, start, p + 1) implies run(
                                old(self).states(),
                                toks,
                                start,
                                old(self).path(),
                                tr,
                            ) == run(self.states(), toks, p + 1, self.path(), tr) by {
                                assert(trims_agree(tr, trims, start, p));
                            }
                        }
                        continue;
                    }
                    Event::Text(text2)
                },
                _ => Event::Unsupported,
            };
            proof {
                assert(trims_fit(toks, trims, start, p + 1)) by {
                    assert forall|k: int| start <= k < p + 1 implies (#[trigger] toks[k] matches Ok(XmlToken::Text(text)) ==> trims(k)@ == spec_trim(text@)) by {
                        if k < p {
                            assert(trims(k) == before_trims(k));
                        }
                    }
                }
                assert(token_event(token, trims(p)) == Some(event));
            }
            let r = self.feed_event(event);
            let ghost after_path = match r {
                Ok(Some(_)) => popped(path),
                Ok(None) => path_after(path, event),
                Err(_) => path,
            };
            match r {
                Ok(Some(entry)) => {
                    self.path.pop();
                    proof {
                        assert(trims_agree(trims, trims, start, p + 1));
                        assert(trims_agree(trims, before_trims, start, p));
                    }
                    return Ok(Some(entry));
                },
                Ok(None) => {
                    match event {
                        Event::Open(local) => self.path.push(local),
                        Event::Close(_) => {
                            self.path.pop();
                        },
                        _ => {},
                    }
                    proof {
                        assert forall|tr: spec_fn(int) -> &'a str|
                            #[trigger] trims_agree(tr, trims, start, p + 1) implies run(
                            old(self).states(),
                            toks,
                            start,
                            old(self).path(),
                            tr,
                        ) == run(self.states(), toks, p + 1, self.path(), tr) by {
                            assert(trims_agree(tr, before_trims, start, p)) by {
                                assert forall|k: int| start <= k < p implies #[trigger] tr(k) == before_trims(k) by {
                                    assert(tr(k) == trims(k));
                                }
                            }
                            assert(tr(p) == trims(p));
                        }
                    }
                },
                Err(e) => {
                    proof {
                        assert(trims_agree(trims, trims, start, p + 1));
                        assert(trims_agree(trims, before_trims, start, p));
                    }
                    return Err(e);
                },
            }
        }
    }

    /// The kinds of the elements are those of what is read of them.
    pub proof fn lemma_kinds_of_states(&self)
        ensures
            self.kinds() == self.states().map_values(|s: StateView<'a>| view_kind(s)),
    {
        assert(self.kinds() =~= self.states().map_values(|s: StateView<'a>| view_kind(s)));
    }

    /// Feed one event of the document to the parser: a name when one
    /// closes directly inside the root.
    pub fn feed_event(&mut self, event: Event<'a>) -> (r: Result<Option<Entry<'a>>, ErrorKind>)
        ensures
            final(self).fuel() == old(self).fuel(),
            final(self).cursor() == old(self).cursor(),
            final(self).states() == event_step(old(self).states(), event).0,
            close_result_view(r) == event_step(old(self).states(), event).1,
            r matches Ok(Some(_)) ==> final(self).kinds().len() == 1 && final(self).kinds()[0] is Root,
    {
        proof {
            self.lemma_kinds_of_states();
        }
        match event {
            Event::Open(local) => match self.open(local) {
                Ok(()) => Ok(None),
                Err(e) => Err(e),
            },
            Event::Text(text) => match self.text(text) {
                Ok(()) => Ok(None),
                Err(e) => Err(e),
            },
            Event::Close(actual) => self.close(actual),
            Event::Prolog => {
                if self.stack.len() > 0 {
                    Err(ErrorKind::UnsupportedToken)
                } else {
                    Ok(None)
                }
            },
            Event::Unsupported => Err(ErrorKind::UnsupportedToken),
        }
    }

    /// Enter an element.
    pub fn open(&mut self, local: &'a str) -> (r: Result<(), ErrorKind>)
        ensures
            final(self).fuel() == old(self).fuel(),
            final(self).cursor() == old(self).cursor(),
            match open_kind(old(self).kinds(), local@) {
                Some(k) => r is Ok && final(self).kinds() == old(self).kinds().push(k)
                    && final(self).states() == old(self).states().push(fresh_state(k)),
                None => r == Err::<(), ErrorKind>(ErrorKind::UnexpectedElement) && final(self).kinds()
                    == old(self).kinds() && final(self).states() == old(self).states(),
            },
    {
        let n = self.stack.len();
        let ghost kinds = self.kinds();
        let ghost states = self.states();
        proof {
            if n == 1 {
                assert(kinds[0] == kind_of(self.stack@[0]));
            }
        }
        let next: Option<State<'a>> = if n == 0 {
            if str_eq(local, "JMnedict") {
                Some(State::Root)
            } else {
                None
            }
        } else if n == 1 && matches!(self.stack[0], State::Root) && str_eq(local, "entry") {
            Some(
                State::Entry(
                    EntryBuilder {
                        sequence: None,
                        kanji: Vec::new(),
                        reading: Vec::new(),
                        name_types: Vec::new(),
                        translations: Vec::new(),
                    },
                ),
            )
        } else {
            assert(kinds.last() == kind_of(self.stack@[n - 1]));
            match &self.stack[n - 1] {
                State::Entry(_) => {
                    if str_eq(local, "ent_seq") {
                        Some(State::Text("ent_seq", None))
                    } else if str_eq(local, "k_ele") {
                        Some(State::Kanji(None))
                    } else if str_eq(local, "r_ele") {
                        Some(State::Reading(None, None))
                    } else if str_eq(local, "trans") {
                        Some(State::Translations(Vec::new(), Vec::new()))
                    } else {
                        None
                    }
                },
                State::Kanji(_) => {
                    if str_eq(local, "keb") {
                        Some(State::Text("keb", None))
                    } else {
                        None
                    }
                },
                State::Reading(..) => {
                    if str_eq(local, "reb") {
                        Some(State::Text("reb", None))
                    } else if str_eq(local, "re_pri") {
                        Some(State::Text("re_pri", None))
                    } else {
                        None
                    }
                },
                State::Translations(..) => {
                    if str_eq(local, "name_type") {
                        Some(State::NameType(None))
                    } else if str_eq(local, "trans_det") {
                        Some(State::Translation(None, None))
                    } else {
                        None
                    }
                },
                _ => None,
            }
        };
        match next {
            Some(state) => {
                assert(state_view(state) =~~= fresh_state(kind_of(state)));
                self.stack.push(state);
                assert(self.kinds() =~= kinds.push(kind_of(state)));
                assert(self.states() =~= states.push(state_view(state)));
                Ok(())
            },
            None => Err(ErrorKind::UnexpectedElement),
        }
    }

    /// Take the text of the element being read.
    pub fn text(&mut self, text: &'a str) -> (r: Result<(), ErrorKind>)
        ensures
            final(self).fuel() == old(self).fuel(),
            final(self).cursor() == old(self).cursor(),
            final(self).kinds() == old(self).kinds(),
            old(self).kinds().len() == 0 || !(old(self).kinds().last() is Text || old(self).kinds().last() is NameType
                || old(self).kinds().last() is Translation) ==> r == Err::<(), ErrorKind>(
                ErrorKind::UnexpectedText,
            ),
            old(self).states().len() == 0 ==> final(self).states() == old(self).states(),
            old(self).states().len() > 0 ==> final(self).states() == old(self).states().drop_last().push(
                text_step(old(self).states().last(), text).0,
            ) && r == text_step(old(self).states().last(), text).1,
    {
        let ghost kinds = self.kinds();
        let ghost states = self.states();
        let top = match self.stack.pop() {
            Some(top) => top,
            None => return Err(ErrorKind::UnexpectedText),
        };
        assert(kinds.last() == kind_of(top));
        assert(states.last() == state_view(top));
        assert(self.states() =~= states.drop_last());
        let (state, r) = match top {
            State::Text(name, _) => (State::Text(name, Some(text)), Ok(())),
            State::NameType(value) => {
                let mut value = value;
                let r = match NameType::parse(text) {
                    Some(name_type) => replace_none(&mut value, Some(name_type)),
                    None => Err(ErrorKind::InvalidEntity),
                };
                (State::NameType(value), r)
            },
            State::Translation(value, lang) => {
                let mut value = value;
                let r = replace_none(&mut value, Some(text));
                (State::Translation(value, lang), r)
            },
            other => (other, Err(ErrorKind::UnexpectedText)),
        };
        assert(state_view(state) =~~= text_step(states.last(), text).0);
        self.stack.push(state);
        assert(self.kinds() =~= kinds);
        assert(self.states() =~= states.drop_last().push(state_view(state)));
        r
    }

    /// Leave the element being read, which closes under the name `actual`
    /// unless it was empty: an entry when one closes directly inside the
    /// root.
    pub fn close(&mut self, actual: Option<&str>) -> (r: Result<Option<Entry<'a>>, ErrorKind>)
        ensures
            final(self).fuel() == old(self).fuel(),
            final(self).cursor() == old(self).cursor(),
            final(self).states() == close_step(old(self).states(), actual_view(actual)).0,
            close_result_view(r) == close_step(old(self).states(), actual_view(actual)).1,
            old(self).kinds().len() == 0 ==> r == Err::<Option<Entry<'a>>, ErrorKind>(
                ErrorKind::ExpectedState,
            ),
            old(self).kinds().len() > 0 ==> {
                let rest = old(self).kinds().drop_last();
                let top = old(self).kinds().last();
                &&& final(self).kinds() == rest
                &&& r matches Ok(Some(_)) ==> rest.len() == 1 && rest[0] is Root && top is Entry
            },
    {
        let ghost kinds = self.kinds();
        let ghost states = self.states();
        let top = match self.stack.pop() {
            Some(top) => top,
            None => return Err(ErrorKind::ExpectedState),
        };
        assert(kinds.last() == kind_of(top));
        assert(self.kinds() =~= kinds.drop_last());
        assert(states.last() == state_view(top));
        assert(self.states() =~= states.drop_last());
        let n = self.stack.len();
        if n == 0 {
            return match top {
                State::Root => match expect_close(actual, "JMnedict") {
                    Ok(()) => Ok(None),
                    Err(e) => Err(e),
                },
                _ => Err(ErrorKind::UnexpectedClose),
            };
        }
        if n == 1 && matches!(self.stack[0], State::Root) {
            proof {
                assert(kinds.drop_last()[0] == kind_of(self.stack@[0]));
            }
            if let State::Entry(entry) = top {
                return match entry.sequence {
                    Some(sequence) => Ok(
                        Some(
                            Entry {
                                sequence,
                                kanji: entry.kanji,
                                reading: entry.reading,
                                name_types: entry.name_types,
                                translations: entry.translations,
                            },
                        ),
                    ),
                    None => Err(ErrorKind::MissingSequence),
                };
            }
        }
        let ghost rest = self.kinds();
        let ghost rest_states = self.states();
        let parent = self.stack.pop().unwrap();
        assert(rest.last() == kind_of(parent));
        assert(rest_states.last() == state_view(parent));
        assert(self.states() =~= rest_states.drop_last());
        let (parent, r) = combine(parent, top, actual);
        self.stack.push(parent);
        assert(self.kinds() =~= rest);
        assert(self.states() =~= rest_states.drop_last().push(state_view(parent)));
        match r {
            Ok(()) => Ok(None),
            Err(e) => Err(e),
        }
    }
}

/// Fold an element which closed into the element it stands in.
fn combine<'a>(parent: State<'a>, top: State<'a>, actual: Option<&str>) -> (r: (
    State<'a>,
    Result<(), ErrorKind>,
))
    ensures
        state_view(r.0) == combine_step(state_view(parent), state_view(top), actual_view(actual)).0,
        r.1 == combine_step(state_view(parent), state_view(top), actual_view(actual)).1,
        kind_of(r.0) == kind_of(parent),
{
    match parent {
        State::Entry(entry) => {
            let mut entry = entry;
            let r = match top {
                State::Text(name, value) => {
                    if str_eq(name, "ent_seq") {
                        match expect_close(actual, "ent_seq") {
                            Ok(()) => match value {
                                Some(value) => match parse_u64(value) {
                                    Some(v) => replace_none(&mut entry.sequence, Some(v)),
                                    None => Err(ErrorKind::InvalidNumber),
                                },
                                None => replace_none(&mut entry.sequence, None),
                            },
                            Err(e) => Err(e),
                        }
                    } else {
                        Err(ErrorKind::UnexpectedClose)
                    }
                },
                State::Kanji(value) => match expect_close(actual, "k_ele") {
                    Ok(()) => match value {
                        Some(value) => {
                            entry.kanji.push(value);
                            Ok(())
                        },
                        None => Err(ErrorKind::MissingText),
                    },
                    Err(e) => Err(e),
                },
                State::Reading(text, priority) => match expect_close(actual, "r_ele") {
                    Ok(()) => match text {
                        Some(text) => {
                            entry.reading.push(Reading { text, priority });
                            Ok(())
                        },
                        None => Err(ErrorKind::MissingText),
                    },
                    Err(e) => Err(e),
                },
                State::Translations(name_types, translations) => match expect_close(
                    actual,
                    "trans",
                ) {
                    Ok(()) => {
                        extend(&mut entry.name_types, name_types);
                        extend(&mut entry.translations, translations);
                        Ok(())
                    },
                    Err(e) => Err(e),
                },
                _ => Err(ErrorKind::UnexpectedClose),
            };
            (State::Entry(entry), r)
        },
        State::Kanji(slot) => {
            let mut slot = slot;
            let r = match top {
                State::Text(name, value) => {
                    if str_eq(name, "keb") {
                        match expect_close(actual, "keb") {
                            Ok(()) => replace_none(&mut slot, value),
                            Err(e) => Err(e),
                        }
                    } else {
                        Err(ErrorKind::UnexpectedClose)
                    }
                },
                _ => Err(ErrorKind::UnexpectedClose),
            };
            (State::Kanji(slot), r)
        },
        State::Reading(text, priority) => {
            let mut text = text;
            let mut priority = priority;
            let r = match top {
                State::Text(name, value) => {
                    if str_eq(name, "reb") {
                        match expect_close(actual, "reb") {
                            Ok(()) => replace_none(&mut text, value),
                            Err(e) => Err(e),
                        }
                    } else if str_eq(name, "re_pri") {
                        match expect_close(actual, "re_pri") {
                            Ok(()) => replace_none(&mut priority, value),
                            Err(e) => Err(e),
                        }
                    } else {
                        Err(ErrorKind::UnexpectedClose)
                    }
                },
                _ => Err(ErrorKind::UnexpectedClose),
            };
            (State::Reading(text, priority), r)
        },
        State::Translations(name_types, translations) => {
            let mut name_types = name_types;
            let mut translations = translations;
            let r = match top {
                State::NameType(value) => match expect_close(actual, "name_type") {
                    Ok(()) => match value {
                        Some(value) => {
                            name_types.push(value);
                            Ok(())
                        },
                        None => Err(ErrorKind::MissingText),
                    },
                    Err(e) => Err(e),
                },
                State::Translation(text, lang) => match expect_close(actual, "trans_det") {
                    Ok(()) => match text {
                        Some(text) => {
                            translations.push(Translation { text, lang });
                            Ok(())
                        },
                        None => Err(ErrorKind::MissingText),
                    },
                    Err(e) => Err(e),
                },
                _ => Err(ErrorKind::UnexpectedClose),
            };
            (State::Translations(name_types, translations), r)
        },
        other => (other, Err(ErrorKind::UnexpectedClose)),
    }
}

} // verus!
