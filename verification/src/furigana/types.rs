//! Furigana over borrowed and owned strings.

use vstd::prelude::*;
use vstd::string::*;

use super::emit::{furigana, furigana_groups, group_views, FuriganaGroup, GroupView};
use crate::text::{chars_eq, chars_of_pair, concat_strs, concat_views};

verus! {

/// A string pair, such as a kanji spelling or reading followed by a suffix.
#[derive(Debug)]
pub struct Pair<'a> {
    prefix: &'a str,
    suffix: &'a str,
}

impl<'a> Pair<'a> {
    /// The text of the pair: the prefix followed by the suffix.
    pub closed spec fn text(&self) -> Seq<char> {
        self.prefix@ + self.suffix@
    }

    /// The prefix of the pair.
    pub closed spec fn prefix_view(&self) -> Seq<char> {
        self.prefix@
    }

    /// The suffix of the pair.
    pub closed spec fn suffix_view(&self) -> Seq<char> {
        self.suffix@
    }

    /// The text of a pair is its prefix followed by its suffix.
    pub proof fn lemma_text(&self)
        ensures
            self.text() == self.prefix_view() + self.suffix_view(),
    {
    }

    /// Construct a new pair.
    pub fn new(prefix: &'a str, suffix: &'a str) -> (r: Self)
        ensures
            r.prefix_view() == prefix@,
            r.suffix_view() == suffix@,
            r.text() == prefix@ + suffix@,
    {
        Self { prefix, suffix }
    }

    /// The two parts of the pair, the prefix first.
    pub fn parts(&self) -> (r: [&'a str; 2])
        ensures
            r[0]@ == self.prefix_view(),
            r[1]@ == self.suffix_view(),
    {
        [self.prefix, self.suffix]
    }
}

impl<'a> PartialEq for Pair<'a> {
    /// Two pairs are equal when their texts are equal, wherever the text is
    /// split between prefix and suffix.
    fn eq(&self, other: &Self) -> (r: bool) {
        let a = chars_of_pair(self.prefix, self.suffix);
        let b = chars_of_pair(other.prefix, other.suffix);
        chars_eq(&a, &b)
    }
}

impl<'a> vstd::std_specs::cmp::PartialEqSpecImpl for Pair<'a> {
    open spec fn obeys_eq_spec() -> bool {
        true
    }

    open spec fn eq_spec(&self, other: &Self) -> bool {
        self.text() == other.text()
    }
}

impl<'a> Eq for Pair<'a> {}

impl<'a> Pair<'a> {
    /// The displayed form of the pair: the prefix followed by the suffix.
    pub fn display(&self) -> (r: String)
        ensures
            r@ == self.text(),
    {
        let mut s = String::new();
        s.append(self.prefix);
        s.append(self.suffix);
        s
    }
}

/// The displayed form of furigana groups: each group of kanji followed by
/// its reading in brackets, such as `私[わたし]`, and each group of kana as
/// it is.
pub open spec fn groups_display(gs: Seq<GroupView>) -> Seq<char>
    decreases gs.len(),
{
    if gs.len() == 0 {
        Seq::empty()
    } else {
        let last = match gs.last() {
            GroupView::Kanji(k, r) => k + "["@ + r + "]"@,
            GroupView::Kana(k) => k,
        };
        groups_display(gs.drop_last()) + last
    }
}

fn display_groups(groups: &Vec<FuriganaGroup>) -> (r: String)
    ensures
        r@ == groups_display(group_views(groups@)),
{
    let mut s = String::new();
    let mut i: usize = 0;
    while i < groups.len()
        invariant
            i <= groups@.len(),
            s@ == groups_display(group_views(groups@.take(i as int))),
        decreases groups@.len() - i,
    {
        assert(group_views(groups@.take(i + 1)).drop_last() =~= group_views(groups@.take(i as int)));
        match groups[i] {
            FuriganaGroup::Kanji(kanji, kana) => {
                s.append(kanji);
                s.append("[");
                s.append(kana);
                s.append("]");
            },
            FuriganaGroup::Kana(kana) => {
                s.append(kana);
            },
        }
        i = i + 1;
    }
    assert(groups@.take(groups@.len() as int) =~= groups@);
    s
}

/// A kanji spelling with its reading and a common kana suffix.
#[derive(Clone, Copy)]
pub struct Furigana<'a> {
    kanji: &'a str,
    reading: &'a str,
    suffix: &'a str,
}

impl<'a> View for Furigana<'a> {
    type V = (Seq<char>, Seq<char>, Seq<char>);

    closed spec fn view(&self) -> (Seq<char>, Seq<char>, Seq<char>) {
        (self.kanji@, self.reading@, self.suffix@)
    }
}

impl<'a> Furigana<'a> {
    /// Construct a new furigana wrapper based on an exact combo of kanji and
    /// reading.
    pub fn new(kanji: &'a str, reading: &'a str, suffix: &'a str) -> (r: Self)
        ensures
            r@ == (kanji@, reading@, suffix@),
    {
        Self { kanji, reading, suffix }
    }

    /// The furigana groups.
    pub fn iter(&self) -> (r: Vec<FuriganaGroup<'a>>)
        ensures
            group_views(r@) == furigana_groups(self@.0, self@.1, self@.2),
    {
        furigana(self.kanji, self.reading, self.suffix)
    }

    /// The displayed form: each group of kanji followed by its reading in
    /// brackets, and each group of kana as it is.
    pub fn display(&self) -> (r: String)
        ensures
            r@ == groups_display(furigana_groups(self@.0, self@.1, self@.2)),
    {
        display_groups(&self.iter())
    }

    /// The displayed form with furigana where asked for; else the spelling
    /// followed by the reading in parentheses where they differ, or the
    /// spelling alone.
    pub fn display_plain(&self, with_furigana: bool) -> (r: String)
        ensures
            r@ == (if with_furigana {
                groups_display(furigana_groups(self@.0, self@.1, self@.2))
            } else if self@.0 + self@.2 != self@.1 + self@.2 {
                self@.0 + self@.2 + " ("@ + self@.1 + self@.2 + ")"@
            } else {
                self@.0 + self@.2
            }),
    {
        if with_furigana {
            return self.display();
        }
        let kanji = self.kanji();
        let reading = self.reading();
        let mut s = kanji.display();
        if kanji != reading {
            s.append(" (");
            let r = reading.display();
            s.append(r.as_str());
            s.append(")");
        }
        s
    }

    /// Access underlying kanji.
    pub fn kanji(&self) -> (r: Pair<'a>)
        ensures
            r.prefix_view() == self@.0,
            r.suffix_view() == self@.2,
            r.text() == self@.0 + self@.2,
    {
        Pair::new(self.kanji, self.suffix)
    }

    /// Access underlying reading.
    pub fn reading(&self) -> (r: Pair<'a>)
        ensures
            r.prefix_view() == self@.1,
            r.suffix_view() == self@.2,
            r.text() == self@.1 + self@.2,
    {
        Pair::new(self.reading, self.suffix)
    }
}

/// Owned furigana.
pub struct OwnedFurigana {
    kanji: String,
    reading: String,
    suffix: String,
}

impl View for OwnedFurigana {
    type V = (Seq<char>, Seq<char>, Seq<char>);

    closed spec fn view(&self) -> (Seq<char>, Seq<char>, Seq<char>) {
        (self.kanji@, self.reading@, self.suffix@)
    }
}

impl OwnedFurigana {
    /// Construct owned furigana by concatenating the fragments of each part.
    pub fn new(kanji: &[&str], reading: &[&str], suffix: &[&str]) -> (r: Self)
        ensures
            r@ == (concat_views(kanji@), concat_views(reading@), concat_views(suffix@)),
    {
        Self { kanji: concat_strs(kanji), reading: concat_strs(reading), suffix: concat_strs(suffix) }
    }

    /// The furigana groups.
    pub fn iter(&self) -> (r: Vec<FuriganaGroup<'_>>)
        ensures
            group_views(r@) == furigana_groups(self@.0, self@.1, self@.2),
    {
        furigana(self.kanji.as_str(), self.reading.as_str(), self.suffix.as_str())
    }

    /// The displayed form: each group of kanji followed by its reading in
    /// brackets, and each group of kana as it is.
    pub fn display(&self) -> (r: String)
        ensures
            r@ == groups_display(furigana_groups(self@.0, self@.1, self@.2)),
    {
        display_groups(&self.iter())
    }

    /// Access underlying kanji.
    pub fn kanji(&self) -> (r: Pair<'_>)
        ensures
            r.prefix_view() == self@.0,
            r.suffix_view() == self@.2,
            r.text() == self@.0 + self@.2,
    {
        Pair::new(self.kanji.as_str(), self.suffix.as_str())
    }

    /// Access underlying reading.
    pub fn reading(&self) -> (r: Pair<'_>)
        ensures
            r.prefix_view() == self@.1,
            r.suffix_view() == self@.2,
            r.text() == self@.1 + self@.2,
    {
        Pair::new(self.reading.as_str(), self.suffix.as_str())
    }

    /// Borrow owned furigana.
    pub fn borrow(&self) -> (r: Furigana<'_>)
        ensures
            r@ == self@,
    {
        Furigana::new(self.kanji.as_str(), self.reading.as_str(), self.suffix.as_str())
    }
}

} // verus!
