//! The elements of a JMdict entry.

use vstd::prelude::*;
use vstd::string::*;

use crate::entities::{Dialect, Field, KanjiInfo, Miscellaneous, PartOfSpeech, ReadingInfo};
use crate::priority::Priority;
use crate::text::str_eq;

verus! {

/// A dictionary entry.
#[derive(Debug)]
pub struct Entry<'a> {
    pub sequence: u64,
    pub reading_elements: Vec<ReadingElement<'a>>,
    pub kanji_elements: Vec<KanjiElement<'a>>,
    pub senses: Vec<Sense<'a>>,
}

/// How well a query matches an entry, from worst to best: by no text, by
/// a glossary, by a reading, or exactly.
#[derive(Debug, Clone, Copy, PartialEq, Eq, Structural, Hash, PartialOrd, Ord)]
pub enum QueryMatch {
    Unmatched,
    Gloss,
    Reading,
    Exact,
}

/// Every kanji spelling of an entry is rare.
pub open spec fn all_kanji_rare(e: Entry) -> bool {
    forall|j: int|
        0 <= j < e.kanji_elements@.len() ==> (#[trigger] e.kanji_elements@[j]).info@.contains(
            KanjiInfo::RareKanji,
        )
}

/// The query is a kanji spelling of the entry, or a reading of it that
/// takes no kanji or whose kanji are all rare.
pub open spec fn exact_match(e: Entry, input: Seq<char>) -> bool {
    (exists|i: int|
        0 <= i < e.reading_elements@.len() && (#[trigger] e.reading_elements@[i]).text@ == input
            && (e.reading_elements@[i].no_kanji || all_kanji_rare(e))) || (exists|j: int|
        0 <= j < e.kanji_elements@.len() && (#[trigger] e.kanji_elements@[j]).text@ == input)
}

/// The query is a reading of the entry.
pub open spec fn reading_match(e: Entry, input: Seq<char>) -> bool {
    exists|i: int|
        0 <= i < e.reading_elements@.len() && (#[trigger] e.reading_elements@[i]).text@ == input
}

/// The query is the text of a glossary of the entry.
pub open spec fn gloss_match(e: Entry, input: Seq<char>) -> bool {
    exists|i: int, k: int|
        0 <= i < e.senses@.len() && 0 <= k < e.senses@[i].gloss@.len() && (#[trigger] e.senses@[i].gloss@[k]).text@
            == input
}

/// How well a query matches an entry.
pub open spec fn entry_query_match(e: Entry, input: Seq<char>) -> QueryMatch {
    if exact_match(e, input) {
        QueryMatch::Exact
    } else if reading_match(e, input) {
        QueryMatch::Reading
    } else if gloss_match(e, input) {
        QueryMatch::Gloss
    } else {
        QueryMatch::Unmatched
    }
}

impl<'a> Entry<'a> {
    /// Test if every kanji spelling of the entry is rare.
    fn kanji_all_rare(&self) -> (r: bool)
        ensures
            r == all_kanji_rare(*self),
    {
        let mut j: usize = 0;
        while j < self.kanji_elements.len()
            invariant
                j <= self.kanji_elements@.len(),
                forall|k: int|
                    0 <= k < j ==> (#[trigger] self.kanji_elements@[k]).info@.contains(
                        KanjiInfo::RareKanji,
                    ),
            decreases self.kanji_elements@.len() - j,
        {
            if !self.kanji_elements[j].is_rare() {
                return false;
            }
            j = j + 1;
        }
        true
    }

    /// How well a query matches the entry, which decides the boost the
    /// query gives its weight.
    pub fn query_match(&self, input: &str) -> (r: QueryMatch)
        ensures
            r == entry_query_match(*self, input@),
    {
        let all_rare = self.kanji_all_rare();
        let mut exact = false;
        let mut reading = false;
        let mut i: usize = 0;
        while i < self.reading_elements.len()
            invariant
                i <= self.reading_elements@.len(),
                all_rare == all_kanji_rare(*self),
                reading == exists|k: int|
                    0 <= k < i && (#[trigger] self.reading_elements@[k]).text@ == input@,
                exact == exists|k: int|
                    0 <= k < i && (#[trigger] self.reading_elements@[k]).text@ == input@ && (
                    self.reading_elements@[k].no_kanji || all_rare),
            decreases self.reading_elements@.len() - i,
        {
            let element = &self.reading_elements[i];
            if str_eq(element.text, input) {
                reading = true;
                if element.no_kanji || all_rare {
                    exact = true;
                }
            }
            i = i + 1;
        }
        let mut j: usize = 0;
        while j < self.kanji_elements.len()
            invariant
                j <= self.kanji_elements@.len(),
                exact == ((exists|k: int|
                    0 <= k < self.reading_elements@.len() && (
                    #[trigger] self.reading_elements@[k]).text@ == input@ && (
                    self.reading_elements@[k].no_kanji || all_kanji_rare(*self))) || (exists|k: int|
                    0 <= k < j && (#[trigger] self.kanji_elements@[k]).text@ == input@)),
            decreases self.kanji_elements@.len() - j,
        {
            if str_eq(self.kanji_elements[j].text, input) {
                exact = true;
            }
            j = j + 1;
        }
        if exact {
            return QueryMatch::Exact;
        }
        if reading {
            return QueryMatch::Reading;
        }
        assert(!exact_match(*self, input@) && !reading_match(*self, input@));
        let mut s: usize = 0;
        while s < self.senses.len()
            invariant
                s <= self.senses@.len(),
                !exact_match(*self, input@) && !reading_match(*self, input@),
                forall|a: int, k: int|
                    0 <= a < s && 0 <= k < self.senses@[a].gloss@.len() ==> (
                    #[trigger] self.senses@[a].gloss@[k]).text@ != input@,
            decreases self.senses@.len() - s,
        {
            let sense = &self.senses[s];
            let mut k: usize = 0;
            while k < sense.gloss.len()
                invariant
                    s < self.senses@.len(),
                    !exact_match(*self, input@) && !reading_match(*self, input@),
                    *sense == self.senses@[s as int],
                    k <= sense.gloss@.len(),
                    forall|a: int, b: int|
                        0 <= a < s && 0 <= b < self.senses@[a].gloss@.len() ==> (
                        #[trigger] self.senses@[a].gloss@[b]).text@ != input@,
                    forall|b: int| 0 <= b < k ==> (#[trigger] sense.gloss@[b]).text@ != input@,
                decreases sense.gloss@.len() - k,
            {
                if str_eq(sense.gloss[k].text, input) {
                    assert(self.senses@[s as int].gloss@[k as int].text@ == input@);
                    return QueryMatch::Gloss;
                }
                k = k + 1;
            }
            s = s + 1;
        }
        QueryMatch::Unmatched
    }
}

/// A kanji spelling of an entry.
#[derive(Debug)]
pub struct KanjiElement<'a> {
    pub text: &'a str,
    pub priority: Vec<Priority>,
    pub info: Vec<KanjiInfo>,
}

impl<'a> KanjiElement<'a> {
    /// Test if kanji is rare.
    pub fn is_rare(&self) -> (r: bool)
        ensures
            r == self.info@.contains(KanjiInfo::RareKanji),
    {
        contains_kanji_info(&self.info, KanjiInfo::RareKanji)
    }

    /// Test if kanji is search only.
    pub fn is_search_only(&self) -> (r: bool)
        ensures
            r == self.info@.contains(KanjiInfo::SearchOnlyKanji),
    {
        contains_kanji_info(&self.info, KanjiInfo::SearchOnlyKanji)
    }
}

fn contains_kanji_info(v: &Vec<KanjiInfo>, x: KanjiInfo) -> (r: bool)
    ensures
        r == v@.contains(x),
{
    let mut i: usize = 0;
    while i < v.len()
        invariant
            i <= v@.len(),
            forall|j: int| 0 <= j < i ==> v@[j] != x,
        decreases v@.len() - i,
    {
        if v[i] == x {
            assert(v@[i as int] == x);
            return true;
        }
        i = i + 1;
    }
    false
}

fn contains_reading_info(v: &Vec<ReadingInfo>, x: ReadingInfo) -> (r: bool)
    ensures
        r == v@.contains(x),
{
    let mut i: usize = 0;
    while i < v.len()
        invariant
            i <= v@.len(),
            forall|j: int| 0 <= j < i ==> v@[j] != x,
        decreases v@.len() - i,
    {
        if v[i] == x {
            assert(v@[i as int] == x);
            return true;
        }
        i = i + 1;
    }
    false
}

/// Some string of the slice equals `text`.
pub open spec fn contains_str(v: Seq<&str>, text: Seq<char>) -> bool {
    exists|i: int| 0 <= i < v.len() && (#[trigger] v[i])@ == text
}

fn contains_str_exec(v: &Vec<&str>, text: &str) -> (r: bool)
    ensures
        r == contains_str(v@, text@),
{
    let mut i: usize = 0;
    while i < v.len()
        invariant
            i <= v@.len(),
            forall|j: int| 0 <= j < i ==> (#[trigger] v@[j])@ != text@,
        decreases v@.len() - i,
    {
        if str_eq(v[i], text) {
            return true;
        }
        i = i + 1;
    }
    false
}

/// Some string of the vector equals `text`.
pub open spec fn contains_string(v: Seq<String>, text: Seq<char>) -> bool {
    exists|i: int| 0 <= i < v.len() && (#[trigger] v[i])@ == text
}

fn contains_string_exec(v: &Vec<String>, text: &str) -> (r: bool)
    ensures
        r == contains_string(v@, text@),
{
    let mut i: usize = 0;
    while i < v.len()
        invariant
            i <= v@.len(),
            forall|j: int| 0 <= j < i ==> (#[trigger] v@[j])@ != text@,
        decreases v@.len() - i,
    {
        if str_eq(v[i].as_str(), text) {
            return true;
        }
        i = i + 1;
    }
    false
}

/// A reading of an entry.
#[derive(Debug)]
pub struct ReadingElement<'a> {
    pub text: &'a str,
    pub no_kanji: bool,
    /// The kanji spellings the reading is restricted to, if any.
    pub reading_string: Vec<&'a str>,
    pub priority: Vec<Priority>,
    pub info: Vec<ReadingInfo>,
}

impl<'a> ReadingElement<'a> {
    /// Test if kana is search only.
    pub fn is_search_only(&self) -> (r: bool)
        ensures
            r == self.info@.contains(ReadingInfo::SearchOnlyKana),
    {
        contains_reading_info(&self.info, ReadingInfo::SearchOnlyKana)
    }

    /// Test if this reading applies to the given kanji spelling.
    pub fn applies_to(&self, text: &str) -> (r: bool)
        ensures
            r == (!self.no_kanji && !self.info@.contains(ReadingInfo::SearchOnlyKana) && (
            self.reading_string@.len() == 0 || contains_str(self.reading_string@, text@))),
    {
        if self.no_kanji || self.is_search_only() {
            return false;
        }
        if self.reading_string.len() == 0 {
            return true;
        }
        contains_str_exec(&self.reading_string, text)
    }
}

/// The owned variant of [`ReadingElement`].
#[derive(Debug)]
pub struct OwnedReadingElement {
    pub text: String,
    pub no_kanji: bool,
    /// The kanji spellings the reading is restricted to, if any.
    pub reading_string: Vec<String>,
    pub priority: Vec<Priority>,
    pub info: Vec<ReadingInfo>,
}

impl OwnedReadingElement {
    /// If the reading element applies to nothing.
    pub fn applies_to_nothing(&self) -> (r: bool)
        ensures
            r == (self.no_kanji || self.info@.contains(ReadingInfo::SearchOnlyKana)),
    {
        self.no_kanji || self.is_search_only()
    }

    /// Test if kana is search only.
    pub fn is_search_only(&self) -> (r: bool)
        ensures
            r == self.info@.contains(ReadingInfo::SearchOnlyKana),
    {
        contains_reading_info(&self.info, ReadingInfo::SearchOnlyKana)
    }

    /// Test if this reading applies to the given kanji spelling.
    pub fn applies_to(&self, text: &str) -> (r: bool)
        ensures
            r == (!self.no_kanji && !self.info@.contains(ReadingInfo::SearchOnlyKana) && (
            self.reading_string@.len() == 0 || contains_string(self.reading_string@, text@))),
    {
        if self.applies_to_nothing() {
            return false;
        }
        if self.reading_string.len() == 0 {
            return true;
        }
        contains_string_exec(&self.reading_string, text)
    }
}

/// An example of usage.
#[derive(Debug)]
pub struct Example<'a> {
    pub sentences: Vec<ExampleSentence<'a>>,
    pub sources: Vec<ExampleSource<'a>>,
    pub texts: Vec<&'a str>,
}

/// A sentence of an example.
#[derive(Debug)]
pub struct ExampleSentence<'a> {
    pub text: &'a str,
    pub lang: Option<&'a str>,
}

/// The source of an example.
#[derive(Debug)]
pub struct ExampleSource<'a> {
    pub text: &'a str,
    pub ty: Option<&'a str>,
}

/// A glossary of a sense.
#[derive(Debug)]
pub struct Glossary<'a> {
    pub text: &'a str,
    pub ty: Option<&'a str>,
    pub lang: Option<&'a str>,
}

/// The language of glossaries without one.
pub const DEFAULT_LANGUAGE: &'static str = "eng";

/// A sense of an entry.
#[derive(Debug)]
pub struct Sense<'a> {
    pub xref: Vec<&'a str>,
    pub gloss: Vec<Glossary<'a>>,
    pub info: Option<&'a str>,
    pub stagk: Vec<&'a str>,
    pub stagr: Vec<&'a str>,
    pub source_language: Vec<SourceLanguage<'a>>,
    pub antonym: Vec<&'a str>,
    pub examples: Vec<Example<'a>>,
    pub pos: Vec<PartOfSpeech>,
    pub misc: Vec<Miscellaneous>,
    pub dialect: Vec<Dialect>,
    pub field: Vec<Field>,
}

/// The language of a glossary.
pub open spec fn gloss_lang(g: Glossary) -> Seq<char> {
    match g.lang {
        Some(l) => l@,
        None => DEFAULT_LANGUAGE@,
    }
}

/// The characters of an optional string.
pub open spec fn opt_view(s: Option<&str>) -> Option<Seq<char>> {
    match s {
        Some(s) => Some(s@),
        None => None,
    }
}

/// A sense applies to a spelling when its kanji and reading restrictions,
/// where it has any, name the spelling's kanji and reading.
pub open spec fn sense_applies_to(sense: Sense, kanji: Option<Seq<char>>, reading: Seq<char>) -> bool {
    &&& match kanji {
        Some(k) => sense.stagk@.len() == 0 || contains_str(sense.stagk@, k),
        None => true,
    }
    &&& (sense.stagr@.len() == 0 || contains_str(sense.stagr@, reading))
}

impl<'a> Sense<'a> {
    /// Test if the sense applies to the given kanji spelling (if any) and
    /// reading.
    pub fn applies_to(&self, kanji: Option<&str>, reading: &str) -> (r: bool)
        ensures
            r == sense_applies_to(*self, opt_view(kanji), reading@),
    {
        if let Some(kanji) = kanji {
            if self.stagk.len() > 0 && !contains_str_exec(&self.stagk, kanji) {
                return false;
            }
        }
        if self.stagr.len() > 0 && !contains_str_exec(&self.stagr, reading) {
            return false;
        }
        true
    }

    /// Test if some glossary of the sense is in the given language.
    pub fn is_lang(&self, arg: &str) -> (r: bool)
        ensures
            r == exists|i: int| 0 <= i < self.gloss@.len() && gloss_lang(#[trigger] self.gloss@[i]) == arg@,
    {
        let mut i: usize = 0;
        while i < self.gloss.len()
            invariant
                i <= self.gloss@.len(),
                forall|j: int| 0 <= j < i ==> gloss_lang(#[trigger] self.gloss@[j]) != arg@,
            decreases self.gloss@.len() - i,
        {
            let lang = match self.gloss[i].lang {
                Some(l) => l,
                None => DEFAULT_LANGUAGE,
            };
            if str_eq(lang, arg) {
                assert(gloss_lang(self.gloss@[i as int]) == arg@);
                return true;
            }
            i = i + 1;
        }
        false
    }
}

/// The source language of a loan word.
#[derive(Debug)]
pub struct SourceLanguage<'a> {
    pub text: Option<&'a str>,
    pub lang: Option<&'a str>,
    pub waseigo: bool,
    pub ty: Option<&'a str>,
}

/// The debug form of a string: quoted, with special characters escaped.
pub uninterp spec fn spec_debug_str(s: Seq<char>) -> Seq<char>;

#[verifier::external_body]
pub(crate) fn debug_str(s: &str) -> (r: String)
    ensures
        r@ == spec_debug_str(s@),
{
    format!("{:?}", s)
}

/// The sparse debug form of an optional field: `name: "value", ` when
/// present, nothing otherwise.
pub open spec fn sparse_field(name: Seq<char>, value: Option<&str>) -> Seq<char> {
    match value {
        Some(v) => name + ": "@ + spec_debug_str(v@) + ", "@,
        None => Seq::empty(),
    }
}

fn append_sparse_field(s: &mut String, name: &str, value: Option<&str>)
    ensures
        final(s)@ == old(s)@ + sparse_field(name@, value),
{
    match value {
        Some(v) => {
            s.append(name);
            s.append(": ");
            let d = debug_str(v);
            s.append(d.as_str());
            s.append(", ");
        },
        None => {},
    }
}

impl<'a> SourceLanguage<'a> {
    /// The sparse debug form of the source language: the fields which hold
    /// nothing are left out (the flag of a loan word made in Japan is shown
    /// under the name `lang`).
    pub open spec fn spec_debug_sparse(self) -> Seq<char> {
        "SourceLanguage { "@ + sparse_field("text"@, self.text) + sparse_field("lang"@, self.lang)
            + "lang: "@ + (if self.waseigo {
            "true"@
        } else {
            "false"@
        }) + ", "@ + sparse_field("ty"@, self.ty) + ".. }"@
    }

    /// Debug the source language element, while avoiding formatting
    /// elements which are not defined.
    pub fn debug_sparse(&self) -> (r: String)
        ensures
            r@ == self.spec_debug_sparse(),
    {
        let mut s = String::new();
        s.append("SourceLanguage { ");
        append_sparse_field(&mut s, "text", self.text);
        append_sparse_field(&mut s, "lang", self.lang);
        s.append("lang: ");
        if self.waseigo {
            s.append("true");
        } else {
            s.append("false");
        }
        s.append(", ");
        append_sparse_field(&mut s, "ty", self.ty);
        s.append(".. }");
        s
    }
}

/// What a kanji spelling holds.
#[verifier::ext_equal]
pub struct KanjiElementView<'a> {
    pub text: &'a str,
    pub priority: Seq<Priority>,
    pub info: Seq<KanjiInfo>,
}

impl<'a> View for KanjiElement<'a> {
    type V = KanjiElementView<'a>;

    open spec fn view(&self) -> KanjiElementView<'a> {
        KanjiElementView { text: self.text, priority: self.priority@, info: self.info@ }
    }
}

/// What a reading holds.
#[verifier::ext_equal]
pub struct ReadingElementView<'a> {
    pub text: &'a str,
    pub no_kanji: bool,
    pub reading_string: Seq<&'a str>,
    pub priority: Seq<Priority>,
    pub info: Seq<ReadingInfo>,
}

impl<'a> View for ReadingElement<'a> {
    type V = ReadingElementView<'a>;

    open spec fn view(&self) -> ReadingElementView<'a> {
        ReadingElementView {
            text: self.text,
            no_kanji: self.no_kanji,
            reading_string: self.reading_string@,
            priority: self.priority@,
            info: self.info@,
        }
    }
}

/// What an example holds.
#[verifier::ext_equal]
pub struct ExampleView<'a> {
    pub sentences: Seq<ExampleSentence<'a>>,
    pub sources: Seq<ExampleSource<'a>>,
    pub texts: Seq<&'a str>,
}

impl<'a> View for Example<'a> {
    type V = ExampleView<'a>;

    open spec fn view(&self) -> ExampleView<'a> {
        ExampleView { sentences: self.sentences@, sources: self.sources@, texts: self.texts@ }
    }
}

/// The examples as what each holds.
pub open spec fn example_views<'a>(v: Seq<Example<'a>>) -> Seq<ExampleView<'a>> {
    v.map_values(|e: Example<'a>| e@)
}

/// What a sense holds.
#[verifier::ext_equal]
pub struct SenseView<'a> {
    pub xref: Seq<&'a str>,
    pub gloss: Seq<Glossary<'a>>,
    pub info: Option<&'a str>,
    pub stagk: Seq<&'a str>,
    pub stagr: Seq<&'a str>,
    pub source_language: Seq<SourceLanguage<'a>>,
    pub antonym: Seq<&'a str>,
    pub examples: Seq<ExampleView<'a>>,
    pub pos: Seq<PartOfSpeech>,
    pub misc: Seq<Miscellaneous>,
    pub dialect: Seq<Dialect>,
    pub field: Seq<Field>,
}

impl<'a> View for Sense<'a> {
    type V = SenseView<'a>;

    open spec fn view(&self) -> SenseView<'a> {
        SenseView {
            xref: self.xref@,
            gloss: self.gloss@,
            info: self.info,
            stagk: self.stagk@,
            stagr: self.stagr@,
            source_language: self.source_language@,
            antonym: self.antonym@,
            examples: example_views(self.examples@),
            pos: self.pos@,
            misc: self.misc@,
            dialect: self.dialect@,
            field: self.field@,
        }
    }
}

/// The readings as what each holds.
pub open spec fn reading_views<'a>(v: Seq<ReadingElement<'a>>) -> Seq<ReadingElementView<'a>> {
    v.map_values(|e: ReadingElement<'a>| e@)
}

/// The kanji spellings as what each holds.
pub open spec fn kanji_views<'a>(v: Seq<KanjiElement<'a>>) -> Seq<KanjiElementView<'a>> {
    v.map_values(|e: KanjiElement<'a>| e@)
}

/// The senses as what each holds.
pub open spec fn sense_views<'a>(v: Seq<Sense<'a>>) -> Seq<SenseView<'a>> {
    v.map_values(|e: Sense<'a>| e@)
}

/// What an entry holds.
#[verifier::ext_equal]
pub struct EntryView<'a> {
    pub sequence: u64,
    pub reading_elements: Seq<ReadingElementView<'a>>,
    pub kanji_elements: Seq<KanjiElementView<'a>>,
    pub senses: Seq<SenseView<'a>>,
}

impl<'a> View for Entry<'a> {
    type V = EntryView<'a>;

    open spec fn view(&self) -> EntryView<'a> {
        EntryView {
            sequence: self.sequence,
            reading_elements: reading_views(self.reading_elements@),
            kanji_elements: kanji_views(self.kanji_elements@),
            senses: sense_views(self.senses@),
        }
    }
}

} // verus!
