//! Reading an XML document as a stream of tokens.

use vstd::prelude::*;
use vstd::string::*;
use xmlparser::Token as RawToken;
use xmlparser::ElementEnd::{Close, Empty, Open};
use xmlparser::Token::{Declaration, DtdEnd, DtdStart, EntityDeclaration};
use xmlparser::Tokenizer;

use crate::priority::{all_digits, decimal_value, lemma_decimal_prefix};
use crate::text::{spec_trim, trim};

verus! {

#[verifier::external_type_specification]
#[verifier::external_body]
pub struct ExToken<'a>(RawToken<'a>);

/// A token of an XML document, as the dictionary parsers read it.
#[derive(Debug, Clone, Copy)]
pub enum XmlToken<'a> {
    /// Character data.
    Text(&'a str),
    /// A CDATA section.
    Cdata(&'a str),
    /// The start of an element, by its local name.
    ElementStart(&'a str),
    /// An attribute, by its local name and value.
    Attribute(&'a str, &'a str),
    /// The `>` which ends the start of an element.
    ElementOpen,
    /// The end of an element: `</name>` with its local name, or `/>`.
    ElementClose(Option<&'a str>),
    /// The XML declaration, or part of the document type declaration.
    Prolog,
    /// A comment.
    Comment,
    /// A processing instruction or an empty document type declaration.
    Other,
}

/// What a token holds, by the characters of its names and texts.
#[verifier::ext_equal]
pub enum TokenView {
    Text(Seq<char>),
    Cdata(Seq<char>),
    ElementStart(Seq<char>),
    Attribute(Seq<char>, Seq<char>),
    ElementOpen,
    ElementClose(Option<Seq<char>>),
    Prolog,
    Comment,
    Other,
    /// The description of the error which stopped the tokenizer.
    Error(Seq<char>),
}

/// What a token, or the error in its place, holds.
pub open spec fn token_view<'a>(t: Result<XmlToken<'a>, String>) -> TokenView {
    match t {
        Ok(XmlToken::Text(s)) => TokenView::Text(s@),
        Ok(XmlToken::Cdata(s)) => TokenView::Cdata(s@),
        Ok(XmlToken::ElementStart(s)) => TokenView::ElementStart(s@),
        Ok(XmlToken::Attribute(k, v)) => TokenView::Attribute(k@, v@),
        Ok(XmlToken::ElementOpen) => TokenView::ElementOpen,
        Ok(XmlToken::ElementClose(Some(n))) => TokenView::ElementClose(Some(n@)),
        Ok(XmlToken::ElementClose(None)) => TokenView::ElementClose(None),
        Ok(XmlToken::Prolog) => TokenView::Prolog,
        Ok(XmlToken::Comment) => TokenView::Comment,
        Ok(XmlToken::Other) => TokenView::Other,
        Err(e) => TokenView::Error(e@),
    }
}

/// The tokens of a document, in order, as `xmlparser::Tokenizer` gives
/// them from the start of the document to its end: each token as
/// `classify` sorts it, and, where the tokenizer stops on an error, the
/// description of that error last. The tokenizer reads the text of the
/// document and nothing else.
pub uninterp spec fn xml_tokens(doc: Seq<char>) -> Seq<TokenView>;

/// Every token of a document, by `xmlparser::Tokenizer::from` and its
/// `Iterator::next`, each sorted by `classify`; an error, which ends the
/// tokenizer, is kept by its description. The tokens are those named by
/// `xml_tokens`.
#[verifier::external_body]
fn tokenize<'a>(doc: &'a str) -> (r: Vec<Result<XmlToken<'a>, String>>)
    ensures
        r@.map_values(|t: Result<XmlToken<'a>, String>| token_view(t)) == xml_tokens(doc@),
{
    let mut out = Vec::new();
    for t in Tokenizer::from(doc) {
        out.push(match t {
            Ok(t) => Ok(classify(t)),
            Err(e) => Err(format!("{e}")),
        });
    }
    out
}

/// The kind of a token of `xmlparser` (`xmlparser::Token`), with the names
/// and text it holds. Nothing is promised of it: the token is opaque to the
/// library.
#[verifier::external_body]
fn classify<'a>(token: RawToken<'a>) -> XmlToken<'a> {
    match token {
        RawToken::Text { text } => XmlToken::Text(text.as_str()),
        RawToken::Cdata { text, .. } => XmlToken::Cdata(text.as_str()),
        RawToken::ElementStart { local, .. } => XmlToken::ElementStart(local.as_str()),
        RawToken::Attribute { local, value, .. } => XmlToken::Attribute(local.as_str(), value.as_str()),
        RawToken::ElementEnd { end: Open, .. } => XmlToken::ElementOpen,
        RawToken::ElementEnd { end: Close(_, name), .. } => XmlToken::ElementClose(Some(name.as_str())),
        RawToken::ElementEnd { end: Empty, .. } => XmlToken::ElementClose(None),
        Declaration { .. } | DtdStart { .. } | EntityDeclaration { .. } | DtdEnd { .. } => XmlToken::Prolog,
        RawToken::Comment { .. } => XmlToken::Comment,
        _ => XmlToken::Other,
    }
}

/// What the parser reads of a document: text, the start of an element by
/// its name, an attribute, the end of an element, or the end of the
/// document.
#[derive(Debug, Clone, Copy)]
pub enum Output<'a> {
    Text(&'a str),
    Open(&'a str),
    Attribute(&'a str, &'a str),
    Close,
    Eof,
}

/// Why a document could not be parsed.
#[derive(Debug, Clone, PartialEq, Eq)]
pub enum ErrorKind {
    /// The document is not well-formed XML.
    Xml(String),
    /// A value was given twice.
    DuplicateValue,
    /// Text where none is expected.
    UnexpectedText,
    /// An element where none of its name is expected.
    UnexpectedElement,
    /// An attribute where none of its name is expected.
    UnexpectedAttribute,
    /// An attribute value other than the allowed ones.
    InvalidAttributeValue,
    /// An element closed with none open.
    ExpectedState,
    /// An element closed inside one it does not belong to.
    UnexpectedClose,
    /// The document ended inside an element.
    UnexpectedEof,
    /// An element closed without the text it needs.
    MissingText,
    /// An entry closed without its sequence number.
    MissingSequence,
    /// Text which names no known entity.
    InvalidEntity,
    /// Text which is no priority.
    InvalidPriority,
    /// Text which is no number.
    InvalidNumber,
    /// An element closed under another name than it opened with.
    MismatchedClose,
    /// A token of a kind the document may not hold where it stands.
    UnsupportedToken,
}

/// A parse error, with the path of the element where it happened.
#[derive(Debug, Clone, PartialEq, Eq)]
pub struct ParseError {
    pub kind: ErrorKind,
    pub path: String,
}

/// The value of a string of decimal digits, if it is one, with an optional
/// leading `+`, that fits in 64 bits.
pub open spec fn spec_parse_u64(s: Seq<char>) -> Option<u64> {
    let digits = if s.len() > 0 && s[0] == '+' {
        s.drop_first()
    } else {
        s
    };
    if digits.len() > 0 && all_digits(digits) && decimal_value(digits) <= u64::MAX {
        Some(decimal_value(digits) as u64)
    } else {
        None
    }
}

/// Parse an unsigned decimal number.
pub fn parse_u64(s: &str) -> (r: Option<u64>)
    ensures
        r == spec_parse_u64(s@),
{
    let chars = crate::text::to_chars(s);
    let len = chars.len();
    let start: usize = if len > 0 && chars[0] == '+' {
        1
    } else {
        0
    };
    let ghost digits = chars@.subrange(start as int, len as int);
    assert(digits =~= if s@.len() > 0 && s@[0] == '+' {
        s@.drop_first()
    } else {
        s@
    });
    if start == len {
        assert(digits.len() == 0);
        return None;
    }
    let mut value: u64 = 0;
    let mut i: usize = start;
    while i < len
        invariant
            chars@ == s@,
            len == s@.len(),
            start < len,
            start <= i <= len,
            digits == chars@.subrange(start as int, len as int),
            digits == (if s@.len() > 0 && s@[0] == '+' {
                s@.drop_first()
            } else {
                s@
            }),
            all_digits(chars@.subrange(start as int, i as int)),
            value == decimal_value(chars@.subrange(start as int, i as int)),
        decreases len - i,
    {
        let c = chars[i];
        if !('0' <= c && c <= '9') {
            assert(digits[i - start] == c);
            assert(!all_digits(digits));
            return None;
        }
        let ghost prefix = chars@.subrange(start as int, i + 1);
        assert(prefix.drop_last() =~= chars@.subrange(start as int, i as int));
        assert(prefix.last() == c);
        let d = (c as u32 - '0' as u32) as u64;
        assert(decimal_value(prefix) == value * 10 + d);
        if value > (u64::MAX - d) / 10 {
            proof {
                assert(value * 10 + d > u64::MAX) by (nonlinear_arith)
                    requires
                        value > (u64::MAX - d) / 10,
                        d <= 9,
                ;
                assert(prefix =~= digits.take(i - start + 1));
                lemma_decimal_prefix(digits, i - start + 1);
            }
            return None;
        }
        assert(value * 10 + d <= u64::MAX) by (nonlinear_arith)
            requires
                value <= (u64::MAX - d) / 10,
                d <= 9,
        ;
        value = value * 10 + d;
        i = i + 1;
    }
    assert(chars@.subrange(start as int, len as int) =~= digits);
    Some(value)
}


/// The tokens of a document, and how many of them have been read.
pub struct Tokens<'a> {
    tokens: Vec<Result<XmlToken<'a>, String>>,
    pos: usize,
}

impl<'a> Tokens<'a> {
    /// The tokens of the document, in order.
    pub closed spec fn tokens(&self) -> Seq<Result<XmlToken<'a>, String>> {
        self.tokens@
    }

    /// How many tokens have been read.
    pub closed spec fn pos(&self) -> int {
        self.pos as int
    }

    /// The position is not negative.
    pub proof fn lemma_pos(&self)
        ensures
            self.pos() >= 0,
    {
    }

    /// How many tokens are left to read.
    pub open spec fn fuel(&self) -> nat {
        if self.pos() < self.tokens().len() {
            (self.tokens().len() - self.pos()) as nat
        } else {
            0
        }
    }

    /// The tokens of the given document, none of them read.
    pub fn new(input: &'a str) -> (r: Self)
        ensures
            r.tokens().map_values(|t: Result<XmlToken<'a>, String>| token_view(t)) == xml_tokens(
                input@,
            ),
            r.pos() == 0,
    {
        Self { tokens: tokenize(input), pos: 0 }
    }

    /// The next token, or `None` at the end of the document.
    pub fn next(&mut self) -> (r: Option<Result<XmlToken<'a>, String>>)
        ensures
            final(self).tokens() == old(self).tokens(),
            old(self).pos() < old(self).tokens().len() ==> r == Some(
                old(self).tokens()[old(self).pos()],
            ) && final(self).pos() == old(self).pos() + 1,
            old(self).pos() >= old(self).tokens().len() ==> r is None && final(self).pos()
                == old(self).pos(),
            r is Some ==> final(self).fuel() < old(self).fuel(),
            r is None ==> final(self).fuel() <= old(self).fuel(),
    {
        if self.pos >= self.tokens.len() {
            return None;
        }
        let t = match &self.tokens[self.pos] {
            Ok(t) => Ok(*t),
            Err(e) => Err(e.clone()),
        };
        self.pos = self.pos + 1;
        Some(t)
    }
}

/// The output of the first token at or after `pos` which gives one, and the
/// position after it: the end of the document where no token is left, and
/// the error where the tokenizer stopped on one.
pub open spec fn read_from<'a>(toks: Seq<Result<XmlToken<'a>, String>>, pos: int) -> (Result<
    Output<'a>,
    ErrorKind,
>, int)
    decreases toks.len() - pos,
{
    if pos < 0 || pos >= toks.len() {
        (Ok(Output::Eof), pos)
    } else {
        match toks[pos] {
            Err(e) => (Err(ErrorKind::Xml(e)), pos + 1),
            Ok(t) => match token_output(t) {
                Some(o) => (Ok(o), pos + 1),
                None => read_from(toks, pos + 1),
            },
        }
    }
}

/// Where a reader stands: the tokens of its document, how many are read,
/// whether the element last read has closed, and the path of the elements
/// being read.
pub struct ReaderView<'a> {
    pub tokens: Seq<Result<XmlToken<'a>, String>>,
    pub pos: int,
    pub closed: bool,
    pub path: Seq<&'a str>,
}

/// What reading the next output gives, and where the reader stands after:
/// an element which closed is left first; an element which opens is
/// entered.
pub open spec fn reader_step<'a>(v: ReaderView<'a>) -> (Result<Output<'a>, ErrorKind>, ReaderView<'a>) {
    let base = if v.closed && v.path.len() > 0 {
        v.path.drop_last()
    } else {
        v.path
    };
    let (r, pos) = read_from(v.tokens, v.pos);
    let path = match r {
        Ok(Output::Open(local)) => base.push(local),
        _ => base,
    };
    (r, ReaderView { tokens: v.tokens, pos, closed: r matches Ok(Output::Close), path })
}

/// Reading moves past at least one token, unless it ends the document.
pub proof fn lemma_read_from_advances<'a>(toks: Seq<Result<XmlToken<'a>, String>>, pos: int)
    requires
        0 <= pos,
    ensures
        read_from(toks, pos).0 matches Ok(Output::Eof) || (pos < read_from(toks, pos).1
            <= toks.len()),
        read_from(toks, pos).0 matches Ok(Output::Eof) ==> read_from(toks, pos).1 >= pos,
    decreases toks.len() - pos,
{
    if pos < toks.len() {
        lemma_read_from_advances(toks, pos + 1);
    }
}

/// A reader of the outputs of a document, which keeps the path of the
/// element being read.
pub struct Reader<'a> {
    closed: bool,
    path: Vec<&'a str>,
    tokens: Tokens<'a>,
}

impl<'a> Reader<'a> {
    /// How many more tokens the reader asks for at most.
    pub closed spec fn fuel(&self) -> nat {
        self.tokens.fuel()
    }

    /// Where the reader stands.
    pub closed spec fn view(&self) -> ReaderView<'a> {
        ReaderView {
            tokens: self.tokens.tokens(),
            pos: self.tokens.pos(),
            closed: self.closed,
            path: self.path@,
        }
    }

    /// How many tokens are left is what the view says.
    pub proof fn lemma_fuel(&self)
        ensures
            self.fuel() == (if self.view().pos < self.view().tokens.len() {
                (self.view().tokens.len() - self.view().pos) as nat
            } else {
                0nat
            }),
            self.view().pos >= 0,
    {
    }

    /// A reader of the given document, at its root.
    pub fn new(input: &'a str) -> (r: Self)
        ensures
            r.view().tokens.map_values(|t: Result<XmlToken<'a>, String>| token_view(t))
                == xml_tokens(input@),
            r.view().pos == 0,
            !r.view().closed,
            r.view().path == Seq::<&'a str>::empty(),
            r.path() == Seq::<&'a str>::empty(),
    {
        Self { closed: false, path: Vec::new(), tokens: Tokens::new(input) }
    }

    /// The names of the elements being read, outermost first.
    pub closed spec fn path(&self) -> Seq<&'a str> {
        self.path@
    }

    /// The path is that of the view.
    pub proof fn lemma_path(&self)
        ensures
            self.path() == self.view().path,
    {
    }

    /// The path of the element being read, its names joined by `/`.
    pub fn path_string(&self) -> (r: String)
        ensures
            r@ == joined_path(self.path()),
    {
        join_path(&self.path)
    }

    /// Read the next output of the document: text that is not all
    /// whitespace, the start of an element, an attribute, the end of an
    /// element, or the end of the document.
    pub fn next(&mut self) -> (r: Result<Output<'a>, ErrorKind>)
        ensures
            (r, final(self).view()) == reader_step(old(self).view()),
            r matches Ok(o) ==> o is Eof || exists|t: XmlToken<'a>| #[trigger] token_output(t) == Some(o),
            match r {
                Ok(Output::Eof) => true,
                Ok(Output::Text(t)) => spec_trim(t@).len() > 0 && final(self).fuel() < old(self).fuel(),
                _ => final(self).fuel() < old(self).fuel(),
            },
    {
        let ghost toks = self.tokens.tokens();
        let ghost start = self.tokens.pos();
        if self.closed {
            self.closed = false;
            self.path.pop();
        }
        let ghost base = self.path@;
        assert(base == (if old(self).view().closed && old(self).view().path.len() > 0 {
            old(self).view().path.drop_last()
        } else {
            old(self).view().path
        }));
        loop
            invariant
                self.fuel() <= old(self).fuel(),
                !self.closed,
                self.path@ == base,
                self.tokens.tokens() == toks,
                toks == old(self).view().tokens,
                start == old(self).view().pos,
                0 <= start <= self.tokens.pos(),
                read_from(toks, self.tokens.pos()) == read_from(toks, start),
                base == (if old(self).view().closed && old(self).view().path.len() > 0 {
                    old(self).view().path.drop_last()
                } else {
                    old(self).view().path
                }),
            decreases self.fuel(),
        {
            let ghost p = self.tokens.pos();
            let token = match self.tokens.next() {
                None => return Ok(Output::Eof),
                Some(Err(e)) => return Err(ErrorKind::Xml(e)),
                Some(Ok(token)) => token,
            };
            match output_of(token) {
                Some(output) => {
                    match output {
                        Output::Open(local) => self.path.push(local),
                        Output::Close => self.closed = true,
                        _ => {},
                    }
                    return Ok(output);
                },
                None => {
                    assert(read_from(toks, p) == read_from(toks, p + 1));
                },
            }
        }
    }
}

/// The output which a token gives, if any: text which is not all
/// whitespace, the start of an element, its end, or an attribute; the
/// parsers skip the other tokens.
pub open spec fn token_output<'a>(t: XmlToken<'a>) -> Option<Output<'a>> {
    match t {
        XmlToken::Text(text) | XmlToken::Cdata(text) => if spec_trim(text@).len() > 0 {
            Some(Output::Text(text))
        } else {
            None
        },
        XmlToken::ElementStart(local) => Some(Output::Open(local)),
        XmlToken::ElementClose(_) => Some(Output::Close),
        XmlToken::Attribute(key, value) => Some(Output::Attribute(key, value)),
        _ => None,
    }
}

/// The output which a token gives, if any.
pub fn output_of<'a>(t: XmlToken<'a>) -> (r: Option<Output<'a>>)
    ensures
        r == token_output(t),
{
    match t {
        XmlToken::Text(text) | XmlToken::Cdata(text) => if trim(text).unicode_len() > 0 {
            Some(Output::Text(text))
        } else {
            None
        },
        XmlToken::ElementStart(local) => Some(Output::Open(local)),
        XmlToken::ElementClose(_) => Some(Output::Close),
        XmlToken::Attribute(key, value) => Some(Output::Attribute(key, value)),
        _ => None,
    }
}

/// The names of a path joined by `/`.
pub open spec fn joined_path(path: Seq<&str>) -> Seq<char>
    decreases path.len(),
{
    if path.len() == 0 {
        Seq::empty()
    } else if path.len() == 1 {
        path[0]@
    } else {
        joined_path(path.drop_last()) + "/"@ + path.last()@
    }
}

/// The names of a path joined by `/`.
pub fn join_path(path: &Vec<&str>) -> (r: String)
    ensures
        r@ == joined_path(path@),
{
    let mut s = String::new();
    let mut i: usize = 0;
    while i < path.len()
        invariant
            i <= path@.len(),
            s@ == joined_path(path@.take(i as int)),
        decreases path@.len() - i,
    {
        assert(path@.take(i + 1).drop_last() =~= path@.take(i as int));
        if i > 0 {
            s.append("/");
        } else {
            assert(path@.take(1) =~= seq![path@[0]]);
        }
        s.append(path[i]);
        i = i + 1;
    }
    assert(path@.take(path@.len() as int) =~= path@);
    s
}

/// Set a value which must not have been set before.
pub fn set_option<T>(slot: &mut Option<T>, value: T) -> (r: Result<(), ErrorKind>)
    ensures
        (*old(slot)) is None ==> r == Ok::<(), ErrorKind>(()) && *final(slot) == Some(value),
        (*old(slot)) is Some ==> r == Err::<(), ErrorKind>(ErrorKind::DuplicateValue) && *final(slot)
            == *old(slot),
{
    if slot.is_some() {
        return Err(ErrorKind::DuplicateValue);
    }
    *slot = Some(value);
    Ok(())
}

/// The text of an element, which it must have.
pub fn require_text<'a>(text: Option<&'a str>) -> (r: Result<&'a str, ErrorKind>)
    ensures
        match text {
            Some(t) => r == Ok::<&'a str, ErrorKind>(t),
            None => r == Err::<&'a str, ErrorKind>(ErrorKind::MissingText),
        },
{
    match text {
        Some(t) => Ok(t),
        None => Err(ErrorKind::MissingText),
    }
}

} // verus!
