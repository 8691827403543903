//! A parser of the KANJIDIC2 dictionary, one character at a time.

use vstd::prelude::*;

use super::elements::{
    Character, CharacterView, CodePoint, DictionaryReference, Header, Meaning, Misc, MiscView,
    QueryCode, Radical, Reading, Variant,
};
use crate::text::str_eq;
use crate::xml::{
    joined_path, lemma_read_from_advances, parse_u64, reader_step, require_text, spec_parse_u64,
    token_view, xml_tokens, ErrorKind, Output, ParseError, Reader, ReaderView, XmlToken,
};

verus! {

/// The kind of element the parser is inside of.
pub enum StateKind {
    Root,
    /// An element of text, by name.
    Text(Seq<char>),
    /// An element of text with one attribute, by name and attribute name.
    AttrValue(Seq<char>, Seq<char>),
    Header,
    Character,
    CodePoint,
    Radical,
    Misc,
    DictionaryReferences,
    DictionaryReference,
    QueryCodes,
    QueryCode,
    ReadingMeaning,
    ReadingMeaningGroup,
}

/// The element which an element of the given name opens inside the given
/// elements, if it may stand there.
pub open spec fn open_kind(stack: Seq<StateKind>, e: Seq<char>) -> Option<StateKind> {
    if stack.len() == 0 {
        if e == "kanjidic2"@ {
            Some(StateKind::Root)
        } else {
            None
        }
    } else if stack.len() == 1 && stack[0] is Root && e == "header"@ {
        Some(StateKind::Header)
    } else if stack.len() == 1 && stack[0] is Root && e == "character"@ {
        Some(StateKind::Character)
    } else {
        match stack.last() {
            StateKind::Header => if e == "file_version"@ || e == "database_version"@ || e
                == "date_of_creation"@ {
                Some(StateKind::Text(e))
            } else {
                None
            },
            StateKind::Character => if e == "literal"@ {
                Some(StateKind::Text(e))
            } else if e == "codepoint"@ {
                Some(StateKind::CodePoint)
            } else if e == "radical"@ {
                Some(StateKind::Radical)
            } else if e == "misc"@ {
                Some(StateKind::Misc)
            } else if e == "dic_number"@ {
                Some(StateKind::DictionaryReferences)
            } else if e == "query_code"@ {
                Some(StateKind::QueryCodes)
            } else if e == "reading_meaning"@ {
                Some(StateKind::ReadingMeaning)
            } else {
                None
            },
            StateKind::CodePoint => if e == "cp_value"@ {
                Some(StateKind::AttrValue("cp_value"@, "cp_type"@))
            } else {
                None
            },
            StateKind::Radical => if e == "rad_value"@ {
                Some(StateKind::AttrValue("rad_value"@, "rad_type"@))
            } else {
                None
            },
            StateKind::Misc => if e == "grade"@ || e == "stroke_count"@ || e == "freq"@ || e
                == "jlpt"@ || e == "rad_name"@ {
                Some(StateKind::Text(e))
            } else if e == "variant"@ {
                Some(StateKind::AttrValue("variant"@, "var_type"@))
            } else {
                None
            },
            StateKind::DictionaryReferences => if e == "dic_ref"@ {
                Some(StateKind::DictionaryReference)
            } else {
                None
            },
            StateKind::QueryCodes => if e == "q_code"@ {
                Some(StateKind::QueryCode)
            } else {
                None
            },
            StateKind::ReadingMeaning => if e == "rmgroup"@ {
                Some(StateKind::ReadingMeaningGroup)
            } else if e == "nanori"@ {
                Some(StateKind::Text(e))
            } else {
                None
            },
            StateKind::ReadingMeaningGroup => if e == "reading"@ {
                Some(StateKind::AttrValue("reading"@, "r_type"@))
            } else if e == "meaning"@ {
                Some(StateKind::AttrValue("meaning"@, "m_lang"@))
            } else {
                None
            },
            _ => None,
        }
    }
}

/// The elements which hold text.
pub open spec fn accepts_text(top: StateKind) -> bool {
    match top {
        StateKind::Text(_) | StateKind::AttrValue(_, _) | StateKind::DictionaryReference
        | StateKind::QueryCode => true,
        _ => false,
    }
}

/// The attributes which an element takes.
pub open spec fn accepts_attribute(top: StateKind, key: Seq<char>) -> bool {
    match top {
        StateKind::AttrValue(_, attr) => key == attr,
        StateKind::DictionaryReference => key == "dr_type"@ || key == "m_vol"@ || key == "m_page"@,
        StateKind::QueryCode => key == "qc_type"@ || key == "skip_misclass"@,
        _ => false,
    }
}

/// The text and the attribute of an element read so far.
pub struct AttrValue<'a> {
    pub text: Option<&'a str>,
    pub attr: Option<&'a str>,
}

/// What is read of a character so far.
pub struct CharacterState<'a> {
    pub literal: Option<&'a str>,
    pub code_points: Vec<CodePoint<'a>>,
    pub radicals: Vec<Radical<'a>>,
    pub misc: Option<Misc<'a>>,
    pub dictionary_references: Vec<DictionaryReference<'a>>,
    pub query_codes: Vec<QueryCode<'a>>,
    pub readings: Vec<Reading<'a>>,
    pub meanings: Vec<Meaning<'a>>,
    pub nanori: Vec<&'a str>,
}

/// An element being read.
pub enum State<'a> {
    Root(Option<Header<'a>>),
    Text(&'a str, Option<&'a str>),
    AttrValue(&'a str, &'a str, AttrValue<'a>),
    Header(Option<&'a str>, Option<&'a str>, Option<&'a str>),
    Character(CharacterState<'a>),
    CodePoint(Vec<CodePoint<'a>>),
    Radical(Vec<Radical<'a>>),
    Misc(Misc<'a>),
    DictionaryReferences(Vec<DictionaryReference<'a>>),
    DictionaryReference(AttrValue<'a>, Option<&'a str>, Option<&'a str>),
    QueryCodes(Vec<QueryCode<'a>>),
    QueryCode(AttrValue<'a>, Option<&'a str>),
    ReadingMeaning(Vec<Reading<'a>>, Vec<Meaning<'a>>, Vec<&'a str>),
    ReadingMeaningGroup,
}

/// The kind of an element being read.
pub open spec fn kind_of(s: State) -> StateKind {
    match s {
        State::Root(_) => StateKind::Root,
        State::Text(e, _) => StateKind::Text(e@),
        State::AttrValue(e, a, _) => StateKind::AttrValue(e@, a@),
        State::Header(..) => StateKind::Header,
        State::Character(_) => StateKind::Character,
        State::CodePoint(_) => StateKind::CodePoint,
        State::Radical(_) => StateKind::Radical,
        State::Misc(_) => StateKind::Misc,
        State::DictionaryReferences(_) => StateKind::DictionaryReferences,
        State::DictionaryReference(..) => StateKind::DictionaryReference,
        State::QueryCodes(_) => StateKind::QueryCodes,
        State::QueryCode(..) => StateKind::QueryCode,
        State::ReadingMeaning(..) => StateKind::ReadingMeaning,
        State::ReadingMeaningGroup => StateKind::ReadingMeaningGroup,
    }
}


/// What is read of a character so far.
#[verifier::ext_equal]
pub struct CharacterStateView<'a> {
    pub literal: Option<&'a str>,
    pub code_points: Seq<CodePoint<'a>>,
    pub radicals: Seq<Radical<'a>>,
    pub misc: Option<MiscView<'a>>,
    pub dictionary_references: Seq<DictionaryReference<'a>>,
    pub query_codes: Seq<QueryCode<'a>>,
    pub readings: Seq<Reading<'a>>,
    pub meanings: Seq<Meaning<'a>>,
    pub nanori: Seq<&'a str>,
}

/// What is read of an element so far; elements are named by their
/// characters.
#[verifier::ext_equal]
pub enum StateView<'a> {
    Root(Option<Header<'a>>),
    Text(Seq<char>, Option<&'a str>),
    AttrValue(Seq<char>, Seq<char>, AttrValue<'a>),
    Header(Option<&'a str>, Option<&'a str>, Option<&'a str>),
    Character(CharacterStateView<'a>),
    CodePoint(Seq<CodePoint<'a>>),
    Radical(Seq<Radical<'a>>),
    Misc(MiscView<'a>),
    DictionaryReferences(Seq<DictionaryReference<'a>>),
    DictionaryReference(AttrValue<'a>, Option<&'a str>, Option<&'a str>),
    QueryCodes(Seq<QueryCode<'a>>),
    QueryCode(AttrValue<'a>, Option<&'a str>),
    ReadingMeaning(Seq<Reading<'a>>, Seq<Meaning<'a>>, Seq<&'a str>),
    ReadingMeaningGroup,
}

/// The miscellaneous information of a character without any.
pub open spec fn empty_misc_view<'a>() -> MiscView<'a> {
    MiscView {
        grade: None,
        stroke_counts: Seq::empty(),
        variant: None,
        freq: None,
        jlpt: None,
        radical_names: Seq::empty(),
    }
}

/// What is read of an element so far.
pub open spec fn state_view<'a>(s: State<'a>) -> StateView<'a> {
    match s {
        State::Root(h) => StateView::Root(h),
        State::Text(e, t) => StateView::Text(e@, t),
        State::AttrValue(e, a, v) => StateView::AttrValue(e@, a@, v),
        State::Header(f, d, c) => StateView::Header(f, d, c),
        State::Character(c) => StateView::Character(
            CharacterStateView {
                literal: c.literal,
                code_points: c.code_points@,
                radicals: c.radicals@,
                misc: match c.misc {
                    Some(m) => Some(m@),
                    None => None,
                },
                dictionary_references: c.dictionary_references@,
                query_codes: c.query_codes@,
                readings: c.readings@,
                meanings: c.meanings@,
                nanori: c.nanori@,
            },
        ),
        State::CodePoint(v) => StateView::CodePoint(v@),
        State::Radical(v) => StateView::Radical(v@),
        State::Misc(m) => StateView::Misc(m@),
        State::DictionaryReferences(v) => StateView::DictionaryReferences(v@),
        State::DictionaryReference(b, v, p) => StateView::DictionaryReference(b, v, p),
        State::QueryCodes(v) => StateView::QueryCodes(v@),
        State::QueryCode(b, s) => StateView::QueryCode(b, s),
        State::ReadingMeaning(r, m, n) => StateView::ReadingMeaning(r@, m@, n@),
        State::ReadingMeaningGroup => StateView::ReadingMeaningGroup,
    }
}

/// What an element opened inside others holds when it starts.
pub open spec fn fresh_state<'a>(k: StateKind) -> StateView<'a> {
    match k {
        StateKind::Root => StateView::Root(None),
        StateKind::Text(e) => StateView::Text(e, None),
        StateKind::AttrValue(e, a) => StateView::AttrValue(e, a, AttrValue { text: None, attr: None }),
        StateKind::Header => StateView::Header(None, None, None),
        StateKind::Character => StateView::Character(
            CharacterStateView {
                literal: None,
                code_points: Seq::empty(),
                radicals: Seq::empty(),
                misc: None,
                dictionary_references: Seq::empty(),
                query_codes: Seq::empty(),
                readings: Seq::empty(),
                meanings: Seq::empty(),
                nanori: Seq::empty(),
            },
        ),
        StateKind::CodePoint => StateView::CodePoint(Seq::empty()),
        StateKind::Radical => StateView::Radical(Seq::empty()),
        StateKind::Misc => StateView::Misc(empty_misc_view()),
        StateKind::DictionaryReferences => StateView::DictionaryReferences(Seq::empty()),
        StateKind::DictionaryReference => StateView::DictionaryReference(
            AttrValue { text: None, attr: None },
            None,
            None,
        ),
        StateKind::QueryCodes => StateView::QueryCodes(Seq::empty()),
        StateKind::QueryCode => StateView::QueryCode(AttrValue { text: None, attr: None }, None),
        StateKind::ReadingMeaning => StateView::ReadingMeaning(Seq::empty(), Seq::empty(), Seq::empty()),
        StateKind::ReadingMeaningGroup => StateView::ReadingMeaningGroup,
    }
}

/// An element after its text is read, which it may only be once.
pub open spec fn text_step<'a>(s: StateView<'a>, value: &'a str) -> (StateView<'a>, Result<(), ErrorKind>) {
    match s {
        StateView::Text(name, None) => (StateView::Text(name, Some(value)), Ok(())),
        StateView::AttrValue(name, attr, v) => if v.text is None {
            (StateView::AttrValue(name, attr, AttrValue { text: Some(value), attr: v.attr }), Ok(()))
        } else {
            (s, Err(ErrorKind::UnexpectedText))
        },
        StateView::DictionaryReference(base, volume, page) => if base.text is None {
            (
                StateView::DictionaryReference(
                    AttrValue { text: Some(value), attr: base.attr },
                    volume,
                    page,
                ),
                Ok(()),
            )
        } else {
            (s, Err(ErrorKind::UnexpectedText))
        },
        StateView::QueryCode(base, skip) => if base.text is None {
            (StateView::QueryCode(AttrValue { text: Some(value), attr: base.attr }, skip), Ok(()))
        } else {
            (s, Err(ErrorKind::UnexpectedText))
        },
        _ => (s, Err(ErrorKind::UnexpectedText)),
    }
}

/// An element after one of its attributes is read.
pub open spec fn attribute_step<'a>(s: StateView<'a>, key: &'a str, value: &'a str) -> (
    StateView<'a>,
    Result<(), ErrorKind>,
) {
    match s {
        StateView::AttrValue(name, attr, v) => if key@ == attr {
            (StateView::AttrValue(name, attr, AttrValue { text: v.text, attr: Some(value) }), Ok(()))
        } else {
            (s, Err(ErrorKind::UnexpectedAttribute))
        },
        StateView::DictionaryReference(base, volume, page) => if key@ == "dr_type"@ {
            (
                StateView::DictionaryReference(
                    AttrValue { text: base.text, attr: Some(value) },
                    volume,
                    page,
                ),
                Ok(()),
            )
        } else if key@ == "m_vol"@ {
            (StateView::DictionaryReference(base, Some(value), page), Ok(()))
        } else if key@ == "m_page"@ {
            (StateView::DictionaryReference(base, volume, Some(value)), Ok(()))
        } else {
            (s, Err(ErrorKind::UnexpectedAttribute))
        },
        StateView::QueryCode(base, skip) => if key@ == "qc_type"@ {
            (StateView::QueryCode(AttrValue { text: base.text, attr: Some(value) }, skip), Ok(()))
        } else if key@ == "skip_misclass"@ {
            (StateView::QueryCode(base, Some(value)), Ok(()))
        } else {
            (s, Err(ErrorKind::UnexpectedAttribute))
        },
        _ => (s, Err(ErrorKind::UnexpectedAttribute)),
    }
}

/// A number no larger than `max`, if the text is one.
pub open spec fn bounded(s: Seq<char>, max: u64) -> Option<u64> {
    match spec_parse_u64(s) {
        Some(v) => if v <= max {
            Some(v)
        } else {
            None
        },
        None => None,
    }
}

/// The miscellaneous information after an element inside it closed.
pub open spec fn misc_step<'a>(m: MiscView<'a>, head: StateView<'a>) -> (MiscView<'a>, Result<(), ErrorKind>) {
    match head {
        StateView::Text(name, content) => if name == "grade"@ && m.grade is None {
            match content {
                Some(c) => match bounded(c@, 255) {
                    Some(v) => (MiscView { grade: Some(v as u8), ..m }, Ok(())),
                    None => (m, Err(ErrorKind::InvalidNumber)),
                },
                None => (m, Ok(())),
            }
        } else if name == "stroke_count"@ {
            match content {
                Some(c) => match bounded(c@, 255) {
                    Some(v) => (MiscView { stroke_counts: m.stroke_counts.push(v as u8), ..m }, Ok(())),
                    None => (m, Err(ErrorKind::InvalidNumber)),
                },
                None => (m, Ok(())),
            }
        } else if name == "freq"@ && m.freq is None {
            match content {
                Some(c) => match bounded(c@, 0xffff_ffff) {
                    Some(v) => (MiscView { freq: Some(v as u32), ..m }, Ok(())),
                    None => (m, Err(ErrorKind::InvalidNumber)),
                },
                None => (m, Ok(())),
            }
        } else if name == "jlpt"@ && m.jlpt is None {
            match content {
                Some(c) => match bounded(c@, 255) {
                    Some(v) => (MiscView { jlpt: Some(v as u8), ..m }, Ok(())),
                    None => (m, Err(ErrorKind::InvalidNumber)),
                },
                None => (m, Ok(())),
            }
        } else if name == "rad_name"@ {
            match content {
                Some(t) => (MiscView { radical_names: m.radical_names.push(t), ..m }, Ok(())),
                None => (m, Err(ErrorKind::MissingText)),
            }
        } else {
            (m, Err(ErrorKind::UnexpectedClose))
        },
        StateView::AttrValue(name, attr, v) => if name == "variant"@ && attr == "var_type"@ {
            match (v.text, v.attr) {
                (Some(t), Some(ty)) => (MiscView { variant: Some(Variant { text: t, ty }), ..m }, Ok(())),
                _ => (m, Err(ErrorKind::MissingText)),
            }
        } else {
            (m, Err(ErrorKind::UnexpectedClose))
        },
        _ => (m, Err(ErrorKind::UnexpectedClose)),
    }
}

/// The readings and meanings after a reading or meaning of a group inside
/// them closed.
pub open spec fn group_step<'a>(grandparent: StateView<'a>, head: StateView<'a>) -> (
    StateView<'a>,
    Result<(), ErrorKind>,
) {
    match (grandparent, head) {
        (StateView::ReadingMeaning(rs, ms, ns), StateView::AttrValue(name, attr, v)) => if name
            == "reading"@ && attr == "r_type"@ {
            match (v.text, v.attr) {
                (Some(t), Some(ty)) => (
                    StateView::ReadingMeaning(rs.push(Reading { text: t, ty }), ms, ns),
                    Ok(()),
                ),
                _ => (grandparent, Err(ErrorKind::MissingText)),
            }
        } else if name == "meaning"@ && attr == "m_lang"@ {
            match v.text {
                Some(t) => (
                    StateView::ReadingMeaning(rs, ms.push(Meaning { text: t, lang: v.attr }), ns),
                    Ok(()),
                ),
                None => (grandparent, Err(ErrorKind::MissingText)),
            }
        } else {
            (grandparent, Err(ErrorKind::UnexpectedClose))
        },
        _ => (grandparent, Err(ErrorKind::UnexpectedClose)),
    }
}

/// An element after an element inside it closed, `at_root` when the
/// element is the root: what the inner element read is folded into it.
pub open spec fn combine_step<'a>(parent: StateView<'a>, head: StateView<'a>, at_root: bool) -> (
    StateView<'a>,
    Result<(), ErrorKind>,
) {
    match parent {
        StateView::Header(f, d, c) => match head {
            StateView::Text(name, content) => if name == "file_version"@ && f is None {
                (StateView::Header(content, d, c), Ok(()))
            } else if name == "database_version"@ && d is None {
                (StateView::Header(f, content, c), Ok(()))
            } else if name == "date_of_creation"@ && c is None {
                (StateView::Header(f, d, content), Ok(()))
            } else {
                (parent, Err(ErrorKind::UnexpectedClose))
            },
            _ => (parent, Err(ErrorKind::UnexpectedClose)),
        },
        StateView::Root(header) => match head {
            StateView::Header(f, d, c) => if !at_root {
                (parent, Err(ErrorKind::UnexpectedClose))
            } else {
                match (f, d, c) {
                    (Some(f), Some(d), Some(c)) => (
                        StateView::Root(
                            Some(Header { file_version: f, database_version: d, date_of_creation: c }),
                        ),
                        Ok(()),
                    ),
                    _ => (parent, Err(ErrorKind::MissingText)),
                }
            },
            _ => (parent, Err(ErrorKind::UnexpectedClose)),
        },
        StateView::Character(st) => match head {
            StateView::Text(name, content) => if name == "literal"@ && st.literal is None {
                (StateView::Character(CharacterStateView { literal: content, ..st }), Ok(()))
            } else {
                (parent, Err(ErrorKind::UnexpectedClose))
            },
            StateView::CodePoint(values) => (
                StateView::Character(CharacterStateView { code_points: values, ..st }),
                Ok(()),
            ),
            StateView::Radical(values) => (
                StateView::Character(CharacterStateView { radicals: values, ..st }),
                Ok(()),
            ),
            StateView::Misc(m) => if st.misc is None {
                (StateView::Character(CharacterStateView { misc: Some(m), ..st }), Ok(()))
            } else {
                (parent, Err(ErrorKind::UnexpectedClose))
            },
            StateView::DictionaryReferences(references) => (
                StateView::Character(CharacterStateView { dictionary_references: references, ..st }),
                Ok(()),
            ),
            StateView::QueryCodes(codes) => (
                StateView::Character(CharacterStateView { query_codes: codes, ..st }),
                Ok(()),
            ),
            StateView::ReadingMeaning(rs, ms, ns) => (
                StateView::Character(
                    CharacterStateView { readings: rs, meanings: ms, nanori: ns, ..st },
                ),
                Ok(()),
            ),
            _ => (parent, Err(ErrorKind::UnexpectedClose)),
        },
        StateView::CodePoint(values) => match head {
            StateView::AttrValue(name, attr, v) => if name == "cp_value"@ && attr == "cp_type"@ {
                match (v.text, v.attr) {
                    (Some(t), Some(ty)) => (StateView::CodePoint(values.push(CodePoint { text: t, ty })), Ok(())),
                    _ => (parent, Err(ErrorKind::MissingText)),
                }
            } else {
                (parent, Err(ErrorKind::UnexpectedClose))
            },
            _ => (parent, Err(ErrorKind::UnexpectedClose)),
        },
        StateView::Radical(values) => match head {
            StateView::AttrValue(name, attr, v) => if name == "rad_value"@ && attr == "rad_type"@ {
                match (v.text, v.attr) {
                    (Some(t), Some(ty)) => (StateView::Radical(values.push(Radical { text: t, ty })), Ok(())),
                    _ => (parent, Err(ErrorKind::MissingText)),
                }
            } else {
                (parent, Err(ErrorKind::UnexpectedClose))
            },
            _ => (parent, Err(ErrorKind::UnexpectedClose)),
        },
        StateView::Misc(m) => {
            let (m2, r) = misc_step(m, head);
            (StateView::Misc(m2), r)
        },
        StateView::DictionaryReferences(references) => match head {
            StateView::DictionaryReference(base, volume, page) => match (base.text, base.attr) {
                (Some(t), Some(ty)) => (
                    StateView::DictionaryReferences(
                        references.push(DictionaryReference { text: t, ty, volume, page }),
                    ),
                    Ok(()),
                ),
                _ => (parent, Err(ErrorKind::MissingText)),
            },
            _ => (parent, Err(ErrorKind::UnexpectedClose)),
        },
        StateView::QueryCodes(codes) => match head {
            StateView::QueryCode(base, skip) => match (base.text, base.attr) {
                (Some(t), Some(ty)) => (
                    StateView::QueryCodes(codes.push(QueryCode { text: t, ty, skip_misclass: skip })),
                    Ok(()),
                ),
                _ => (parent, Err(ErrorKind::MissingText)),
            },
            _ => (parent, Err(ErrorKind::UnexpectedClose)),
        },
        StateView::ReadingMeaning(rs, ms, ns) => match head {
            StateView::ReadingMeaningGroup => (parent, Ok(())),
            StateView::Text(name, text) => if name == "nanori"@ {
                match text {
                    Some(t) => (StateView::ReadingMeaning(rs, ms, ns.push(t)), Ok(())),
                    None => (parent, Ok(())),
                }
            } else {
                (parent, Err(ErrorKind::UnexpectedClose))
            },
            _ => (parent, Err(ErrorKind::UnexpectedClose)),
        },
        _ => (parent, Err(ErrorKind::UnexpectedClose)),
    }
}

/// What closing an element gives, the character by what it holds.
pub enum ClosedView<'a> {
    Character(CharacterView<'a>),
    Root,
    Element,
}

/// The elements being read after the innermost one closes, and what that
/// gives: the character when a character closes directly inside the root,
/// the end when the root closes.
pub open spec fn close_step<'a>(states: Seq<StateView<'a>>) -> (
    Seq<StateView<'a>>,
    Result<ClosedView<'a>, ErrorKind>,
) {
    if states.len() == 0 {
        (states, Err(ErrorKind::ExpectedState))
    } else {
        let head = states.last();
        let rest = states.drop_last();
        if rest.len() == 0 {
            (
                rest,
                if head is Root {
                    Ok(ClosedView::Root)
                } else {
                    Err(ErrorKind::UnexpectedClose)
                },
            )
        } else {
            let parent = rest.last();
            let outer = rest.drop_last();
            let at_root = rest.len() == 1 && parent is Root;
            if at_root && head is Character {
                let st = head->Character_0;
                (
                    rest,
                    match st.literal {
                        Some(literal) => Ok(
                            ClosedView::Character(
                                CharacterView {
                                    literal,
                                    code_point: st.code_points,
                                    radical: st.radicals,
                                    misc: match st.misc {
                                        Some(m) => m,
                                        None => empty_misc_view(),
                                    },
                                    dictionary_references: st.dictionary_references,
                                    query_codes: st.query_codes,
                                    readings: st.readings,
                                    meanings: st.meanings,
                                    nanori: st.nanori,
                                },
                            ),
                        ),
                        None => Err(ErrorKind::MissingText),
                    },
                )
            } else if parent is ReadingMeaningGroup {
                if outer.len() == 0 {
                    (rest, Err(ErrorKind::UnexpectedClose))
                } else {
                    let (g, r) = group_step(outer.last(), head);
                    (
                        outer.drop_last().push(g).push(StateView::ReadingMeaningGroup),
                        match r {
                            Ok(()) => Ok(ClosedView::Element),
                            Err(e) => Err(e),
                        },
                    )
                }
            } else {
                let (p, r) = combine_step(parent, head, at_root);
                (
                    outer.push(p),
                    match r {
                        Ok(()) => Ok(ClosedView::Element),
                        Err(e) => Err(e),
                    },
                )
            }
        }
    }
}

/// The kind of an element by what is read of it.
pub open spec fn view_kind(s: StateView) -> StateKind {
    match s {
        StateView::Root(_) => StateKind::Root,
        StateView::Text(e, _) => StateKind::Text(e),
        StateView::AttrValue(e, a, _) => StateKind::AttrValue(e, a),
        StateView::Header(..) => StateKind::Header,
        StateView::Character(_) => StateKind::Character,
        StateView::CodePoint(_) => StateKind::CodePoint,
        StateView::Radical(_) => StateKind::Radical,
        StateView::Misc(_) => StateKind::Misc,
        StateView::DictionaryReferences(_) => StateKind::DictionaryReferences,
        StateView::DictionaryReference(..) => StateKind::DictionaryReference,
        StateView::QueryCodes(_) => StateKind::QueryCodes,
        StateView::QueryCode(..) => StateKind::QueryCode,
        StateView::ReadingMeaning(..) => StateKind::ReadingMeaning,
        StateView::ReadingMeaningGroup => StateKind::ReadingMeaningGroup,
    }
}

/// The elements being read, and what it gives, after one output of the
/// document: an element opens, its text or an attribute is read, it
/// closes, or the document ends, which it may only do outside of every
/// element and which then gives the end.
pub open spec fn feed_step<'a>(states: Seq<StateView<'a>>, output: Output<'a>) -> (
    Seq<StateView<'a>>,
    Result<ClosedView<'a>, ErrorKind>,
) {
    match output {
        Output::Open(e) => match open_kind(states.map_values(|s: StateView<'a>| view_kind(s)), e@) {
            Some(k) => (states.push(fresh_state(k)), Ok(ClosedView::Element)),
            None => (states, Err(ErrorKind::UnexpectedElement)),
        },
        Output::Text(v) => if states.len() == 0 {
            (states, Err(ErrorKind::UnexpectedText))
        } else {
            let (s, r) = text_step(states.last(), v);
            (
                states.drop_last().push(s),
                match r {
                    Ok(()) => Ok(ClosedView::Element),
                    Err(e) => Err(e),
                },
            )
        },
        Output::Attribute(k, v) => if states.len() == 0 {
            (states, Err(ErrorKind::UnexpectedAttribute))
        } else {
            let (s, r) = attribute_step(states.last(), k, v);
            (
                states.drop_last().push(s),
                match r {
                    Ok(()) => Ok(ClosedView::Element),
                    Err(e) => Err(e),
                },
            )
        },
        Output::Close => close_step(states),
        Output::Eof => if states.len() > 0 {
            (states, Err(ErrorKind::UnexpectedEof))
        } else {
            (states, Ok(ClosedView::Root))
        },
    }
}

/// What parsing gives from where the reader stands: the outputs are read
/// and fed in turn until one gives a character, the end, or an error, or
/// reading fails. The elements being read, the result, and where the
/// reader stands after.
pub open spec fn run<'a>(states: Seq<StateView<'a>>, v: ReaderView<'a>) -> (
    Seq<StateView<'a>>,
    Result<ClosedView<'a>, ErrorKind>,
    ReaderView<'a>,
)
    decreases v.tokens.len() - v.pos,
{
    let (o, next) = reader_step(v);
    match o {
        Err(e) => (states, Err(e), next),
        Ok(out) => {
            let (after, r) = feed_step(states, out);
            if r == Ok::<ClosedView<'a>, ErrorKind>(ClosedView::Element) && next.tokens == v.tokens
                && v.pos < next.pos <= v.tokens.len() {
                run(after, next)
            } else {
                (after, r, next)
            }
        },
    }
}

/// Parsing moves past at least one token when it gives a character.
pub proof fn lemma_run_advances<'a>(states: Seq<StateView<'a>>, v: ReaderView<'a>)
    requires
        v.pos >= 0,
    ensures
        run(states, v).1 matches Ok(ClosedView::Character(_)) ==> run(states, v).2.tokens
            == v.tokens && v.pos < run(states, v).2.pos <= v.tokens.len(),
    decreases v.tokens.len() - v.pos,
{
    let (o, next) = reader_step(v);
    lemma_read_from_advances(v.tokens, v.pos);
    match o {
        Err(e) => {},
        Ok(out) => {
            let (after, r) = feed_step(states, out);
            if r == Ok::<ClosedView<'a>, ErrorKind>(ClosedView::Element) && next.tokens == v.tokens
                && v.pos < next.pos <= v.tokens.len() {
                lemma_run_advances(after, next);
            }
        },
    }
}

/// Every character which parsing gives in turn from where the reader
/// stands, and the error which stopped it, if one did.
pub open spec fn characters_from<'a>(states: Seq<StateView<'a>>, v: ReaderView<'a>) -> (
    Seq<CharacterView<'a>>,
    Option<ErrorKind>,
)
    decreases v.tokens.len() - v.pos,
{
    let (after, r, next) = run(states, v);
    match r {
        Ok(ClosedView::Character(c)) => if next.tokens == v.tokens && v.pos < next.pos
            <= v.tokens.len() {
            let (rest, end) = characters_from(after, next);
            (seq![c] + rest, end)
        } else {
            (seq![c], None)
        },
        Ok(_) => (Seq::empty(), None),
        Err(k) => (Seq::empty(), Some(k)),
    }
}

/// What a result of parsing gives: the character by what it holds, the end
/// of the document, or the kind of the error.
pub open spec fn parse_result_view<'a>(r: Result<Option<Character<'a>>, ParseError>) -> Result<
    ClosedView<'a>,
    ErrorKind,
> {
    match r {
        Ok(Some(c)) => Ok(ClosedView::Character(c@)),
        Ok(None) => Ok(ClosedView::Root),
        Err(p) => Err(p.kind),
    }
}

/// What a result of parsing without a path gives.
pub open spec fn inner_result_view<'a>(r: Result<Option<Character<'a>>, ErrorKind>) -> Result<
    ClosedView<'a>,
    ErrorKind,
> {
    match r {
        Ok(Some(c)) => Ok(ClosedView::Character(c@)),
        Ok(None) => Ok(ClosedView::Root),
        Err(e) => Err(e),
    }
}

/// What a result of closing gives, the character by what it holds.
pub open spec fn closed_view<'a>(r: Result<Closed<'a>, ErrorKind>) -> Result<ClosedView<'a>, ErrorKind> {
    match r {
        Ok(Closed::Character(c)) => Ok(ClosedView::Character(c@)),
        Ok(Closed::Root) => Ok(ClosedView::Root),
        Ok(Closed::Element) => Ok(ClosedView::Element),
        Err(e) => Err(e),
    }
}

fn attr_value<'a>() -> (r: AttrValue<'a>)
    ensures
        r == (AttrValue { text: None, attr: None }),
{
    AttrValue { text: None, attr: None }
}

fn empty_misc<'a>() -> (r: Misc<'a>)
    ensures
        r@ =~~= empty_misc_view(),
{
    Misc {
        grade: None,
        stroke_counts: Vec::new(),
        variant: None,
        freq: None,
        jlpt: None,
        radical_names: Vec::new(),
    }
}

/// Parse a number no larger than `max`.
fn parse_bounded(s: &str, max: u64) -> (r: Result<u64, ErrorKind>)
    ensures
        match bounded(s@, max) {
            Some(v) => r == Ok::<u64, ErrorKind>(v),
            None => r == Err::<u64, ErrorKind>(ErrorKind::InvalidNumber),
        },
        match r {
            Ok(v) => v <= max,
            Err(e) => e == ErrorKind::InvalidNumber,
        },
{
    match parse_u64(s) {
        Some(v) => if v <= max {
            Ok(v)
        } else {
            Err(ErrorKind::InvalidNumber)
        },
        None => Err(ErrorKind::InvalidNumber),
    }
}

/// A KANJIDIC2 parser.
pub struct Parser<'a> {
    reader: Reader<'a>,
    stack: Vec<State<'a>>,
}

impl<'a> Parser<'a> {
    /// The elements the parser is inside of, outermost first.
    pub closed spec fn kinds(&self) -> Seq<StateKind> {
        self.stack@.map_values(|s: State<'a>| kind_of(s))
    }

    /// What is read of the elements the parser is inside of, outermost
    /// first.
    pub closed spec fn states(&self) -> Seq<StateView<'a>> {
        self.stack@.map_values(|s: State<'a>| state_view(s))
    }

    /// How many more tokens the parser reads at most.
    pub closed spec fn fuel(&self) -> nat {
        self.reader.fuel()
    }

    /// Where the reader of the document stands.
    pub closed spec fn reader(&self) -> ReaderView<'a> {
        self.reader.view()
    }

    /// The reader never stands before the start of the document, and the
    /// fuel is the number of tokens left.
    pub proof fn lemma_reader_pos(&self)
        ensures
            self.reader().pos >= 0,
            self.fuel() == (if self.reader().pos < self.reader().tokens.len() {
                (self.reader().tokens.len() - self.reader().pos) as nat
            } else {
                0nat
            }),
    {
        self.reader.lemma_fuel();
    }

    /// A parser of the given document, at its start.
    pub fn new(input: &'a str) -> (r: Self)
        ensures
            r.kinds() == Seq::<StateKind>::empty(),
            r.states() == Seq::<StateView<'a>>::empty(),
            r.reader().tokens.map_values(|t: Result<XmlToken<'a>, String>| token_view(t))
                == xml_tokens(input@),
            r.reader().pos == 0,
            !r.reader().closed,
            r.reader().path == Seq::<&'a str>::empty(),
    {
        let r = Self { reader: Reader::new(input), stack: Vec::new() };
        assert(r.kinds() =~= Seq::<StateKind>::empty());
        assert(r.states() =~= Seq::<StateView<'a>>::empty());
        r
    }

    /// Parse the next character, if there is one before the end of the
    /// dictionary.
    pub fn parse(&mut self) -> (r: Result<Option<Character<'a>>, ParseError>)
        ensures
            (final(self).states(), parse_result_view(r), final(self).reader()) == run(
                old(self).states(),
                old(self).reader(),
            ),
            r matches Err(e) ==> e.path@ == joined_path(final(self).reader().path),
            match r {
                Ok(Some(_)) => final(self).kinds().len() == 1 && final(self).kinds()[0] is Root,
                Ok(None) => final(self).kinds() == Seq::<StateKind>::empty(),
                Err(_) => true,
            },
    {
        match self.parse_inner() {
            Ok(r) => Ok(r),
            Err(kind) => {
                proof {
                    self.reader.lemma_path();
                }
                Err(ParseError { kind, path: self.reader.path_string() })
            },
        }
    }

    fn parse_inner(&mut self) -> (r: Result<Option<Character<'a>>, ErrorKind>)
        ensures
            (final(self).states(), inner_result_view(r), final(self).reader()) == run(
                old(self).states(),
                old(self).reader(),
            ),
            match r {
                Ok(Some(_)) => final(self).kinds().len() == 1 && final(self).kinds()[0] is Root,
                Ok(None) => final(self).kinds() == Seq::<StateKind>::empty(),
                Err(_) => true,
            },
    {
        let ghost goal = run(old(self).states(), old(self).reader());
        loop
            invariant
                goal == run(old(self).states(), old(self).reader()),
                goal == run(self.states(), self.reader()),
                self.kinds() == self.states().map_values(|s: StateView<'a>| view_kind(s)),
            decreases self.fuel(),
        {
            let ghost v = self.reader();
            let ghost states = self.states();
            proof {
                self.reader.lemma_fuel();
            }
            let output = self.reader.next();
            proof {
                self.reader.lemma_fuel();
                lemma_read_from_advances(v.tokens, v.pos);
            }
            assert(goal == run(states, v));
            let output = match output {
                Ok(o) => o,
                Err(e) => {
                    assert(run(states, v) == (states, Err::<ClosedView<'a>, ErrorKind>(e), self.reader()));
                    return Err(e);
                },
            };
            let ghost next = self.reader();
            let r = self.feed(output);
            assert(feed_step(states, output) == (self.states(), closed_view(r)));
            match r {
                Ok(Closed::Character(c)) => {
                    assert(run(states, v) == (self.states(), closed_view(r), next));
                    return Ok(Some(c));
                },
                Ok(Closed::Root) => {
                    assert(run(states, v) == (self.states(), closed_view(r), next));
                    return Ok(None);
                },
                Ok(Closed::Element) => {
                    assert(run(states, v) == run(self.states(), next));
                },
                Err(e) => {
                    assert(run(states, v) == (self.states(), closed_view(r), next));
                    return Err(e);
                },
            }
        }
    }

    /// The kinds of the elements are those of what is read of them.
    pub proof fn lemma_kinds_of_states(&self)
        ensures
            self.kinds() == self.states().map_values(|s: StateView<'a>| view_kind(s)),
    {
        assert(self.kinds() =~= self.states().map_values(|s: StateView<'a>| view_kind(s)));
    }

    /// Feed one output of the document to the parser: a character when one
    /// closes directly inside the root, the end when the root closes or the
    /// document ends outside of every element.
    pub fn feed(&mut self, output: Output<'a>) -> (r: Result<Closed<'a>, ErrorKind>)
        ensures
            final(self).fuel() == old(self).fuel(),
            final(self).reader() == old(self).reader(),
            final(self).states() == feed_step(old(self).states(), output).0,
            closed_view(r) == feed_step(old(self).states(), output).1,
            match r {
                Ok(Closed::Character(_)) => final(self).kinds().len() == 1 && final(self).kinds()[0] is Root,
                Ok(Closed::Root) => final(self).kinds() == Seq::<StateKind>::empty(),
                _ => true,
            },
    {
        proof {
            self.lemma_kinds_of_states();
        }
        match output {
            Output::Text(text) => match self.text(text) {
                Ok(()) => Ok(Closed::Element),
                Err(e) => Err(e),
            },
            Output::Open(tag) => match self.open(tag) {
                Ok(()) => Ok(Closed::Element),
                Err(e) => Err(e),
            },
            Output::Attribute(key, value) => match self.attribute(key, value) {
                Ok(()) => Ok(Closed::Element),
                Err(e) => Err(e),
            },
            Output::Close => self.close(),
            Output::Eof => {
                if self.stack.len() > 0 {
                    return Err(ErrorKind::UnexpectedEof);
                }
                assert(self.kinds() =~= Seq::<StateKind>::empty());
                assert(self.states() =~= Seq::<StateView<'a>>::empty());
                Ok(Closed::Root)
            },
        }
    }

    /// Enter an element.
    pub fn open(&mut self, tag: &'a str) -> (r: Result<(), ErrorKind>)
        ensures
            final(self).fuel() == old(self).fuel(),
            final(self).reader() == old(self).reader(),
            match open_kind(old(self).kinds(), tag@) {
                Some(k) => r is Ok && final(self).kinds() == old(self).kinds().push(k)
                    && final(self).states() == old(self).states().push(fresh_state(k)),
                None => r == Err::<(), ErrorKind>(ErrorKind::UnexpectedElement) && final(self).kinds()
                    == old(self).kinds() && final(self).states() == old(self).states(),
            },
    {
        let n = self.stack.len();
        let ghost kinds = self.kinds();
        let ghost states = self.states();
        let at_root = n == 1 && matches!(self.stack[0], State::Root(_));
        proof {
            if n == 1 {
                assert(kinds[0] == kind_of(self.stack@[0]));
            }
        }
        let next: Option<State<'a>> = if n == 0 {
            if str_eq(tag, "kanjidic2") {
                Some(State::Root(None))
            } else {
                None
            }
        } else if at_root && str_eq(tag, "header") {
            Some(State::Header(None, None, None))
        } else if at_root && str_eq(tag, "character") {
            Some(
                State::Character(
                    CharacterState {
                        literal: None,
                        code_points: Vec::new(),
                        radicals: Vec::new(),
                        misc: None,
                        dictionary_references: Vec::new(),
                        query_codes: Vec::new(),
                        readings: Vec::new(),
                        meanings: Vec::new(),
                        nanori: Vec::new(),
                    },
                ),
            )
        } else {
            assert(kinds.last() == kind_of(self.stack@[n - 1]));
            match &self.stack[n - 1] {
                State::Header(..) => {
                    if str_eq(tag, "file_version") || str_eq(tag, "database_version") || str_eq(
                        tag,
                        "date_of_creation",
                    ) {
                        Some(State::Text(tag, None))
                    } else {
                        None
                    }
                },
                State::Character(_) => {
                    if str_eq(tag, "literal") {
                        Some(State::Text(tag, None))
                    } else if str_eq(tag, "codepoint") {
                        Some(State::CodePoint(Vec::new()))
                    } else if str_eq(tag, "radical") {
                        Some(State::Radical(Vec::new()))
                    } else if str_eq(tag, "misc") {
                        Some(State::Misc(empty_misc()))
                    } else if str_eq(tag, "dic_number") {
                        Some(State::DictionaryReferences(Vec::new()))
                    } else if str_eq(tag, "query_code") {
                        Some(State::QueryCodes(Vec::new()))
                    } else if str_eq(tag, "reading_meaning") {
                        Some(State::ReadingMeaning(Vec::new(), Vec::new(), Vec::new()))
                    } else {
                        None
                    }
                },
                State::CodePoint(_) => {
                    if str_eq(tag, "cp_value") {
                        Some(State::AttrValue("cp_value", "cp_type", attr_value()))
                    } else {
                        None
                    }
                },
                State::Radical(_) => {
                    if str_eq(tag, "rad_value") {
                        Some(State::AttrValue("rad_value", "rad_type", attr_value()))
                    } else {
                        None
                    }
                },
                State::Misc(_) => {
                    if str_eq(tag, "grade") || str_eq(tag, "stroke_count") || str_eq(tag, "freq")
                        || str_eq(tag, "jlpt") || str_eq(tag, "rad_name") {
                        Some(State::Text(tag, None))
                    } else if str_eq(tag, "variant") {
                        Some(State::AttrValue("variant", "var_type", attr_value()))
                    } else {
                        None
                    }
                },
                State::DictionaryReferences(_) => {
                    if str_eq(tag, "dic_ref") {
                        Some(State::DictionaryReference(attr_value(), None, None))
                    } else {
                        None
                    }
                },
                State::QueryCodes(_) => {
                    if str_eq(tag, "q_code") {
                        Some(State::QueryCode(attr_value(), None))
                    } else {
                        None
                    }
                },
                State::ReadingMeaning(..) => {
                    if str_eq(tag, "rmgroup") {
                        Some(State::ReadingMeaningGroup)
                    } else if str_eq(tag, "nanori") {
                        Some(State::Text(tag, None))
                    } else {
                        None
                    }
                },
                State::ReadingMeaningGroup => {
                    if str_eq(tag, "reading") {
                        Some(State::AttrValue("reading", "r_type", attr_value()))
                    } else if str_eq(tag, "meaning") {
                        Some(State::AttrValue("meaning", "m_lang", attr_value()))
                    } else {
                        None
                    }
                },
                _ => None,
            }
        };
        match next {
            Some(state) => {
                assert(state_view(state) =~~= fresh_state(kind_of(state)));
                self.stack.push(state);
                assert(self.kinds() =~= kinds.push(kind_of(state)));
                assert(self.states() =~= states.push(state_view(state)));
                Ok(())
            },
            None => Err(ErrorKind::UnexpectedElement),
        }
    }

    /// Take the text of the element being read, which must not have any
    /// yet.
    pub fn text(&mut self, value: &'a str) -> (r: Result<(), ErrorKind>)
        ensures
            final(self).fuel() == old(self).fuel(),
            final(self).reader() == old(self).reader(),
            final(self).kinds() == old(self).kinds(),
            old(self).kinds().len() == 0 || !accepts_text(old(self).kinds().last()) ==> r
                == Err::<(), ErrorKind>(ErrorKind::UnexpectedText),
            match r {
                Err(e) => e == ErrorKind::UnexpectedText,
                Ok(_) => true,
            },
            old(self).states().len() == 0 ==> final(self).states() == old(self).states(),
            old(self).states().len() > 0 ==> final(self).states() == old(self).states().drop_last().push(
                text_step(old(self).states().last(), value).0,
            ) && r == text_step(old(self).states().last(), value).1,
    {
        let ghost kinds = self.kinds();
        let ghost states = self.states();
        let top = match self.stack.pop() {
            Some(top) => top,
            None => return Err(ErrorKind::UnexpectedText),
        };
        assert(kinds.last() == kind_of(top));
        assert(states.last() == state_view(top));
        assert(self.states() =~= states.drop_last());
        let (state, r) = match top {
            State::Text(name, None) => (State::Text(name, Some(value)), Ok(())),
            State::AttrValue(name, attr, v) => {
                let mut v = v;
                if v.text.is_none() {
                    v.text = Some(value);
                    (State::AttrValue(name, attr, v), Ok(()))
                } else {
                    (State::AttrValue(name, attr, v), Err(ErrorKind::UnexpectedText))
                }
            },
            State::DictionaryReference(base, volume, page) => {
                let mut base = base;
                if base.text.is_none() {
                    base.text = Some(value);
                    (State::DictionaryReference(base, volume, page), Ok(()))
                } else {
                    (State::DictionaryReference(base, volume, page), Err(ErrorKind::UnexpectedText))
                }
            },
            State::QueryCode(base, skip) => {
                let mut base = base;
                if base.text.is_none() {
                    base.text = Some(value);
                    (State::QueryCode(base, skip), Ok(()))
                } else {
                    (State::QueryCode(base, skip), Err(ErrorKind::UnexpectedText))
                }
            },
            other => (other, Err(ErrorKind::UnexpectedText)),
        };
        assert(state_view(state) =~~= text_step(states.last(), value).0);
        self.stack.push(state);
        assert(self.kinds() =~= kinds);
        assert(self.states() =~= states.drop_last().push(state_view(state)));
        r
    }

    /// Take an attribute of the element being read.
    pub fn attribute(&mut self, key: &'a str, value: &'a str) -> (r: Result<(), ErrorKind>)
        ensures
            final(self).fuel() == old(self).fuel(),
            final(self).reader() == old(self).reader(),
            final(self).kinds() == old(self).kinds(),
            r is Ok <==> old(self).kinds().len() > 0 && accepts_attribute(
                old(self).kinds().last(),
                key@,
            ),
            match r {
                Err(e) => e == ErrorKind::UnexpectedAttribute,
                Ok(_) => true,
            },
            old(self).states().len() == 0 ==> final(self).states() == old(self).states(),
            old(self).states().len() > 0 ==> final(self).states() == old(self).states().drop_last().push(
                attribute_step(old(self).states().last(), key, value).0,
            ) && r == attribute_step(old(self).states().last(), key, value).1,
    {
        let ghost kinds = self.kinds();
        let ghost states = self.states();
        let top = match self.stack.pop() {
            Some(top) => top,
            None => return Err(ErrorKind::UnexpectedAttribute),
        };
        assert(kinds.last() == kind_of(top));
        assert(states.last() == state_view(top));
        assert(self.states() =~= states.drop_last());
        let (state, r) = match top {
            State::AttrValue(name, attr, v) => {
                let mut v = v;
                if str_eq(key, attr) {
                    v.attr = Some(value);
                    (State::AttrValue(name, attr, v), Ok(()))
                } else {
                    (State::AttrValue(name, attr, v), Err(ErrorKind::UnexpectedAttribute))
                }
            },
            State::DictionaryReference(base, volume, page) => {
                let mut base = base;
                let mut volume = volume;
                let mut page = page;
                let r = if str_eq(key, "dr_type") {
                    base.attr = Some(value);
                    Ok(())
                } else if str_eq(key, "m_vol") {
                    volume = Some(value);
                    Ok(())
                } else if str_eq(key, "m_page") {
                    page = Some(value);
                    Ok(())
                } else {
                    Err(ErrorKind::UnexpectedAttribute)
                };
                (State::DictionaryReference(base, volume, page), r)
            },
            State::QueryCode(base, skip) => {
                let mut base = base;
                let mut skip = skip;
                let r = if str_eq(key, "qc_type") {
                    base.attr = Some(value);
                    Ok(())
                } else if str_eq(key, "skip_misclass") {
                    skip = Some(value);
                    Ok(())
                } else {
                    Err(ErrorKind::UnexpectedAttribute)
                };
                (State::QueryCode(base, skip), r)
            },
            other => (other, Err(ErrorKind::UnexpectedAttribute)),
        };
        assert(state_view(state) =~~= attribute_step(states.last(), key, value).0);
        self.stack.push(state);
        assert(self.kinds() =~= kinds);
        assert(self.states() =~= states.drop_last().push(state_view(state)));
        r
    }

    /// Leave the element being read: a character when one closes directly
    /// inside the root, the end when the root closes.
    pub fn close(&mut self) -> (r: Result<Closed<'a>, ErrorKind>)
        ensures
            final(self).fuel() == old(self).fuel(),
            final(self).reader() == old(self).reader(),
            final(self).states() == close_step(old(self).states()).0,
            closed_view(r) == close_step(old(self).states()).1,
            old(self).kinds().len() == 0 ==> r == Err::<Closed<'a>, ErrorKind>(
                ErrorKind::ExpectedState,
            ),
            old(self).kinds().len() > 0 ==> {
                let rest = old(self).kinds().drop_last();
                let top = old(self).kinds().last();
                &&& final(self).kinds() == rest
                &&& r matches Ok(Closed::Character(_)) ==> rest.len() == 1 && rest[0] is Root
                    && top is Character
                &&& r matches Ok(Closed::Root) ==> rest.len() == 0 && top is Root
            },
    {
        let ghost kinds = self.kinds();
        let ghost states = self.states();
        let head = match self.stack.pop() {
            Some(head) => head,
            None => return Err(ErrorKind::ExpectedState),
        };
        assert(kinds.last() == kind_of(head));
        assert(self.kinds() =~= kinds.drop_last());
        assert(states.last() == state_view(head));
        assert(self.states() =~= states.drop_last());
        let n = self.stack.len();
        if n == 0 {
            return match head {
                State::Root(_) => Ok(Closed::Root),
                _ => Err(ErrorKind::UnexpectedClose),
            };
        }
        let ghost rest = self.kinds();
        let ghost rest_states = self.states();
        let parent = self.stack.pop().unwrap();
        assert(rest.last() == kind_of(parent));
        assert(rest_states.last() == state_view(parent));
        assert(self.states() =~= rest_states.drop_last());
        let ghost outer = self.states();
        let at_root = n == 1 && matches!(parent, State::Root(_));
        if at_root {
            if let State::Character(state) = head {
                self.stack.push(parent);
                assert(self.kinds() =~= rest);
                assert(self.states() =~= rest_states);
                return match state.literal {
                    Some(literal) => {
                        let misc = match state.misc {
                            Some(misc) => misc,
                            None => empty_misc(),
                        };
                        Ok(
                            Closed::Character(
                                Character {
                                    literal,
                                    code_point: state.code_points,
                                    radical: state.radicals,
                                    misc,
                                    dictionary_references: state.dictionary_references,
                                    query_codes: state.query_codes,
                                    readings: state.readings,
                                    meanings: state.meanings,
                                    nanori: state.nanori,
                                },
                            ),
                        )
                    },
                    None => Err(ErrorKind::MissingText),
                };
            }
        }
        let (parent, r) = match parent {
            State::ReadingMeaningGroup => {
                match self.stack.pop() {
                    Some(grandparent) => {
                        assert(outer.last() == state_view(grandparent));
                        assert(self.states() =~= outer.drop_last());
                        let (grandparent, r) = combine_group(grandparent, head);
                        self.stack.push(grandparent);
                        assert(self.states() =~= outer.drop_last().push(state_view(grandparent)));
                        (State::ReadingMeaningGroup, r)
                    },
                    None => (State::ReadingMeaningGroup, Err(ErrorKind::UnexpectedClose)),
                }
            },
            parent => combine(parent, head, at_root),
        };
        let ghost before_push = self.states();
        self.stack.push(parent);
        assert(self.kinds() =~= rest);
        assert(self.states() =~= before_push.push(state_view(parent)));
        match r {
            Ok(()) => Ok(Closed::Element),
            Err(e) => Err(e),
        }
    }
}

/// What closing an element gave.
pub enum Closed<'a> {
    /// A character which closed directly inside the root.
    Character(Character<'a>),
    /// The root.
    Root,
    /// Any other element.
    Element,
}

/// Fold a reading or meaning which closed inside a group into the
/// reading and meaning element holding the group.
fn combine_group<'a>(grandparent: State<'a>, head: State<'a>) -> (r: (State<'a>, Result<(), ErrorKind>))
    ensures
        state_view(r.0) == group_step(state_view(grandparent), state_view(head)).0,
        r.1 == group_step(state_view(grandparent), state_view(head)).1,
        kind_of(r.0) == kind_of(grandparent),
{
    match (grandparent, head) {
        (State::ReadingMeaning(readings, meanings, nanori), State::AttrValue(name, attr, v)) => {
            let mut readings = readings;
            let mut meanings = meanings;
            let r = if str_eq(name, "reading") && str_eq(attr, "r_type") {
                match (v.text, v.attr) {
                    (Some(text), Some(ty)) => {
                        readings.push(Reading { text, ty });
                        Ok(())
                    },
                    _ => Err(ErrorKind::MissingText),
                }
            } else if str_eq(name, "meaning") && str_eq(attr, "m_lang") {
                match v.text {
                    Some(text) => {
                        meanings.push(Meaning { text, lang: v.attr });
                        Ok(())
                    },
                    None => Err(ErrorKind::MissingText),
                }
            } else {
                Err(ErrorKind::UnexpectedClose)
            };
            (State::ReadingMeaning(readings, meanings, nanori), r)
        },
        (grandparent, _) => (grandparent, Err(ErrorKind::UnexpectedClose)),
    }
}

/// Fold an element which closed into the element it stands in.
fn combine<'a>(parent: State<'a>, head: State<'a>, at_root: bool) -> (r: (
    State<'a>,
    Result<(), ErrorKind>,
))
    ensures
        state_view(r.0) == combine_step(state_view(parent), state_view(head), at_root).0,
        r.1 == combine_step(state_view(parent), state_view(head), at_root).1,
        kind_of(r.0) == kind_of(parent),
{
    match parent {
        State::Header(file_version, database_version, date_of_creation) => {
            let mut file_version = file_version;
            let mut database_version = database_version;
            let mut date_of_creation = date_of_creation;
            let r = match head {
                State::Text(name, content) => {
                    if str_eq(name, "file_version") && file_version.is_none() {
                        file_version = content;
                        Ok(())
                    } else if str_eq(name, "database_version") && database_version.is_none() {
                        database_version = content;
                        Ok(())
                    } else if str_eq(name, "date_of_creation") && date_of_creation.is_none() {
                        date_of_creation = content;
                        Ok(())
                    } else {
                        Err(ErrorKind::UnexpectedClose)
                    }
                },
                _ => Err(ErrorKind::UnexpectedClose),
            };
            (State::Header(file_version, database_version, date_of_creation), r)
        },
        State::Root(header) => {
            let mut header = header;
            let r = match head {
                State::Header(file_version, database_version, date_of_creation) => {
                    if at_root {
                        match (file_version, database_version, date_of_creation) {
                            (Some(file_version), Some(database_version), Some(date_of_creation)) => {
                                header = Some(
                                    Header { file_version, database_version, date_of_creation },
                                );
                                Ok(())
                            },
                            _ => Err(ErrorKind::MissingText),
                        }
                    } else {
                        Err(ErrorKind::UnexpectedClose)
                    }
                },
                _ => Err(ErrorKind::UnexpectedClose),
            };
            (State::Root(header), r)
        },
        State::Character(state) => {
            let mut state = state;
            let r = match head {
                State::Text(name, content) => {
                    if str_eq(name, "literal") && state.literal.is_none() {
                        state.literal = content;
                        Ok(())
                    } else {
                        Err(ErrorKind::UnexpectedClose)
                    }
                },
                State::CodePoint(values) => {
                    state.code_points = values;
                    Ok(())
                },
                State::Radical(values) => {
                    state.radicals = values;
                    Ok(())
                },
                State::Misc(misc) => {
                    if state.misc.is_none() {
                        state.misc = Some(misc);
                        Ok(())
                    } else {
                        Err(ErrorKind::UnexpectedClose)
                    }
                },
                State::DictionaryReferences(references) => {
                    state.dictionary_references = references;
                    Ok(())
                },
                State::QueryCodes(query_codes) => {
                    state.query_codes = query_codes;
                    Ok(())
                },
                State::ReadingMeaning(readings, meanings, nanori) => {
                    state.readings = readings;
                    state.meanings = meanings;
                    state.nanori = nanori;
                    Ok(())
                },
                _ => Err(ErrorKind::UnexpectedClose),
            };
            (State::Character(state), r)
        },
        State::CodePoint(values) => {
            let mut values = values;
            let r = match head {
                State::AttrValue(name, attr, v) => {
                    if str_eq(name, "cp_value") && str_eq(attr, "cp_type") {
                        match (require_text(v.text), require_text(v.attr)) {
                            (Ok(text), Ok(ty)) => {
                                values.push(CodePoint { text, ty });
                                Ok(())
                            },
                            _ => Err(ErrorKind::MissingText),
                        }
                    } else {
                        Err(ErrorKind::UnexpectedClose)
                    }
                },
                _ => Err(ErrorKind::UnexpectedClose),
            };
            (State::CodePoint(values), r)
        },
        State::Radical(values) => {
            let mut values = values;
            let r = match head {
                State::AttrValue(name, attr, v) => {
                    if str_eq(name, "rad_value") && str_eq(attr, "rad_type") {
                        match (require_text(v.text), require_text(v.attr)) {
                            (Ok(text), Ok(ty)) => {
                                values.push(Radical { text, ty });
                                Ok(())
                            },
                            _ => Err(ErrorKind::MissingText),
                        }
                    } else {
                        Err(ErrorKind::UnexpectedClose)
                    }
                },
                _ => Err(ErrorKind::UnexpectedClose),
            };
            (State::Radical(values), r)
        },
        State::Misc(misc) => {
            let mut misc = misc;
            let r = combine_misc(&mut misc, head);
            (State::Misc(misc), r)
        },
        State::DictionaryReferences(references) => {
            let mut references = references;
            let r = match head {
                State::DictionaryReference(base, volume, page) => {
                    match (require_text(base.text), require_text(base.attr)) {
                        (Ok(text), Ok(ty)) => {
                            references.push(DictionaryReference { text, ty, volume, page });
                            Ok(())
                        },
                        _ => Err(ErrorKind::MissingText),
                    }
                },
                _ => Err(ErrorKind::UnexpectedClose),
            };
            (State::DictionaryReferences(references), r)
        },
        State::QueryCodes(codes) => {
            let mut codes = codes;
            let r = match head {
                State::QueryCode(base, skip_misclass) => {
                    match (require_text(base.text), require_text(base.attr)) {
                        (Ok(text), Ok(ty)) => {
                            codes.push(QueryCode { text, ty, skip_misclass });
                            Ok(())
                        },
                        _ => Err(ErrorKind::MissingText),
                    }
                },
                _ => Err(ErrorKind::UnexpectedClose),
            };
            (State::QueryCodes(codes), r)
        },
        State::ReadingMeaning(readings, meanings, nanori) => {
            let mut nanori = nanori;
            let r = match head {
                State::ReadingMeaningGroup => Ok(()),
                State::Text(name, text) => {
                    if str_eq(name, "nanori") {
                        if let Some(text) = text {
                            nanori.push(text);
                        }
                        Ok(())
                    } else {
                        Err(ErrorKind::UnexpectedClose)
                    }
                },
                _ => Err(ErrorKind::UnexpectedClose),
            };
            (State::ReadingMeaning(readings, meanings, nanori), r)
        },
        other => (other, Err(ErrorKind::UnexpectedClose)),
    }
}

/// Fold an element which closed into the miscellaneous information.
fn combine_misc<'a>(misc: &mut Misc<'a>, head: State<'a>) -> (r: Result<(), ErrorKind>)
    ensures
        final(misc)@ == misc_step(old(misc)@, state_view(head)).0,
        r == misc_step(old(misc)@, state_view(head)).1,
{
    match head {
        State::Text(name, content) => {
            if str_eq(name, "grade") && misc.grade.is_none() {
                match content {
                    Some(content) => match parse_bounded(content, 255) {
                        Ok(v) => {
                            misc.grade = Some(v as u8);
                            Ok(())
                        },
                        Err(e) => Err(e),
                    },
                    None => Ok(()),
                }
            } else if str_eq(name, "stroke_count") {
                match content {
                    Some(content) => match parse_bounded(content, 255) {
                        Ok(v) => {
                            misc.stroke_counts.push(v as u8);
                            Ok(())
                        },
                        Err(e) => Err(e),
                    },
                    None => Ok(()),
                }
            } else if str_eq(name, "freq") && misc.freq.is_none() {
                match content {
                    Some(content) => match parse_bounded(content, 0xffff_ffff) {
                        Ok(v) => {
                            misc.freq = Some(v as u32);
                            Ok(())
                        },
                        Err(e) => Err(e),
                    },
                    None => Ok(()),
                }
            } else if str_eq(name, "jlpt") && misc.jlpt.is_none() {
                match content {
                    Some(content) => match parse_bounded(content, 255) {
                        Ok(v) => {
                            misc.jlpt = Some(v as u8);
                            Ok(())
                        },
                        Err(e) => Err(e),
                    },
                    None => Ok(()),
                }
            } else if str_eq(name, "rad_name") {
                match require_text(content) {
                    Ok(text) => {
                        misc.radical_names.push(text);
                        Ok(())
                    },
                    Err(e) => Err(e),
                }
            } else {
                Err(ErrorKind::UnexpectedClose)
            }
        },
        State::AttrValue(name, attr, v) => {
            if str_eq(name, "variant") && str_eq(attr, "var_type") {
                match (require_text(v.text), require_text(v.attr)) {
                    (Ok(text), Ok(ty)) => {
                        misc.variant = Some(Variant { text, ty });
                        Ok(())
                    },
                    _ => Err(ErrorKind::MissingText),
                }
            } else {
                Err(ErrorKind::UnexpectedClose)
            }
        },
        _ => Err(ErrorKind::UnexpectedClose),
    }
}

} // verus!
