//! Kana pairs of a text with its reading and a common suffix.

use vstd::prelude::*;
use vstd::string::*;

use crate::concat::{nonempty_parts, part_views, Concat};
use crate::furigana::{Furigana, OwnedFurigana};
use crate::text::{concat_views, str_eq};

verus! {

/// A kana pair made up of complete text fragments.
pub struct Full<'a> {
    /// Verb stem.
    pub text: &'a str,
    /// Furigana reading of verb stem.
    pub reading: &'a str,
    /// Common suffix.
    pub suffix: &'a str,
}

/// The owned variant of [`Full`].
pub struct OwnedFull {
    /// Verb stem.
    pub text: String,
    /// Furigana reading of verb stem.
    pub reading: String,
    /// Common suffix.
    pub suffix: String,
}

/// How a text with its reading and suffix is displayed: `text+suffix
/// (reading+suffix)` when the reading differs from the text, otherwise just
/// `text+suffix`.
pub open spec fn full_display(text: Seq<char>, reading: Seq<char>, suffix: Seq<char>) -> Seq<char> {
    if text != reading {
        text + suffix + " ("@ + reading + suffix + ")"@
    } else {
        text + suffix
    }
}

impl<'a> Full<'a> {
    pub fn new(text: &'a str, reading: &'a str, suffix: &'a str) -> (r: Self)
        ensures
            r.text == text,
            r.reading == reading,
            r.suffix == suffix,
    {
        Self { text, reading, suffix }
    }

    /// Display the given combination as furigana.
    pub fn furigana(&self) -> (r: Furigana<'a>)
        ensures
            r@ == (self.text@, self.reading@, self.suffix@),
    {
        Furigana::new(self.text, self.reading, self.suffix)
    }

    /// The displayed form of the pair.
    pub fn display(&self) -> (r: String)
        ensures
            r@ == full_display(self.text@, self.reading@, self.suffix@),
    {
        let mut s = String::new();
        s.append(self.text);
        s.append(self.suffix);
        if !str_eq(self.text, self.reading) {
            s.append(" (");
            s.append(self.reading);
            s.append(self.suffix);
            s.append(")");
        }
        s
    }

    /// Convert into the owned variant.
    pub fn to_owned_full(&self) -> (r: OwnedFull)
        ensures
            r.text@ == self.text@,
            r.reading@ == self.reading@,
            r.suffix@ == self.suffix@,
    {
        OwnedFull {
            text: self.text.to_owned(),
            reading: self.reading.to_owned(),
            suffix: self.suffix.to_owned(),
        }
    }
}

impl OwnedFull {
    /// Display the given combination as furigana.
    pub fn furigana(&self) -> (r: Furigana<'_>)
        ensures
            r@ == (self.text@, self.reading@, self.suffix@),
    {
        Furigana::new(self.text.as_str(), self.reading.as_str(), self.suffix.as_str())
    }
}

/// A kana pair made up of many text fragments.
#[derive(Debug, Clone)]
pub struct Fragments<'a> {
    text: Concat<'a, 3>,
    reading: Concat<'a, 3>,
    suffix: Concat<'a, 4>,
}

impl<'a> View for Fragments<'a> {
    /// The characters of each text, reading and suffix part.
    type V = (Seq<Seq<char>>, Seq<Seq<char>>, Seq<Seq<char>>);

    open spec fn view(&self) -> Self::V {
        (
            part_views(self.text_concat().parts()),
            part_views(self.reading_concat().parts()),
            part_views(self.suffix_concat().parts()),
        )
    }
}

impl<'a> Fragments<'a> {
    /// A copy of the fragments.
    pub fn duplicate(&self) -> (r: Self)
        ensures
            r.text_concat().parts() == self.text_concat().parts(),
            r.reading_concat().parts() == self.reading_concat().parts(),
            r.suffix_concat().parts() == self.suffix_concat().parts(),
            r@ == self@,
    {
        Fragments {
            text: self.text.duplicate(),
            reading: self.reading.duplicate(),
            suffix: self.suffix.duplicate(),
        }
    }

    /// The fragments are stored within their capacities.
    pub open spec fn wf(&self) -> bool {
        self.text_concat().wf() && self.reading_concat().wf() && self.suffix_concat().wf()
    }

    pub closed spec fn text_concat(&self) -> Concat<'a, 3> {
        self.text
    }

    pub closed spec fn reading_concat(&self) -> Concat<'a, 3> {
        self.reading
    }

    pub closed spec fn suffix_concat(&self) -> Concat<'a, 4> {
        self.suffix
    }

    /// Construct a kanji/reading pair with a common suffix.
    pub fn new(text: &[&'a str], reading: &[&'a str], suffix: &[&'a str]) -> (r: Self)
        requires
            nonempty_parts(text@).len() <= 3,
            nonempty_parts(reading@).len() <= 3,
            nonempty_parts(suffix@).len() <= 4,
        ensures
            r.wf(),
            r.text_concat().parts() == nonempty_parts(text@),
            r.reading_concat().parts() == nonempty_parts(reading@),
            r.suffix_concat().parts() == nonempty_parts(suffix@),
    {
        Fragments {
            text: Concat::from_strs(text),
            reading: Concat::from_strs(reading),
            suffix: Concat::from_strs(suffix),
        }
    }

    /// Test if fragments is empty.
    pub fn is_empty(&self) -> (r: bool)
        ensures
            r == (self.text_concat().parts().len() == 0 && self.suffix_concat().parts().len()
                == 0),
    {
        self.text.is_empty() && self.suffix.is_empty()
    }

    /// Access text prefix.
    pub fn text(&self) -> (r: &Concat<'a, 3>)
        ensures
            *r == self.text_concat(),
    {
        &self.text
    }

    /// Access reading prefix.
    pub fn reading(&self) -> (r: &Concat<'a, 3>)
        ensures
            *r == self.reading_concat(),
    {
        &self.reading
    }

    /// Access shared suffix.
    pub fn suffix(&self) -> (r: &Concat<'a, 4>)
        ensures
            *r == self.suffix_concat(),
    {
        &self.suffix
    }

    /// The furigana of the fragments.
    pub fn furigana(&self) -> (r: OwnedFurigana)
        ensures
            r@ == (
                self.text_concat().text(),
                self.reading_concat().text(),
                self.suffix_concat().text(),
            ),
    {
        OwnedFurigana::new(self.text.as_slice(), self.reading.as_slice(), self.suffix.as_slice())
    }

    /// Append suffixes to this pair.
    pub fn concat(&self, strings: &[&'a str]) -> (r: Self)
        requires
            self.wf(),
            self.suffix_concat().parts().len() + nonempty_parts(strings@).len() <= 4,
        ensures
            r.wf(),
            r.text_concat().parts() == self.text_concat().parts(),
            r.reading_concat().parts() == self.reading_concat().parts(),
            r.suffix_concat().parts() == self.suffix_concat().parts() + nonempty_parts(strings@),
    {
        let mut suffix = self.suffix.duplicate();
        let mut i: usize = 0;
        while i < strings.len()
            invariant
                i <= strings@.len(),
                suffix.wf(),
                self.suffix_concat().parts().len() + nonempty_parts(strings@).len() <= 4,
                suffix.parts() == self.suffix_concat().parts() + nonempty_parts(
                    strings@.subrange(0, i as int),
                ),
            decreases strings@.len() - i,
        {
            proof {
                crate::concat::lemma_nonempty_parts_prefix(strings@, i as int + 1);
            }
            assert(strings@.subrange(0, i + 1).drop_last() =~= strings@.subrange(0, i as int));
            suffix.push(strings[i]);
            i = i + 1;
        }
        assert(strings@.subrange(0, strings@.len() as int) =~= strings@);
        Self { text: self.text.duplicate(), reading: self.reading.duplicate(), suffix }
    }

    /// The displayed form: `text+suffix [reading+suffix]`.
    pub fn display(&self) -> (r: String)
        ensures
            r@ == self.text_concat().text() + self.suffix_concat().text() + " ["@
                + self.reading_concat().text() + self.suffix_concat().text() + "]"@,
    {
        let mut s = String::new();
        append_all(&mut s, self.text.as_slice());
        append_all(&mut s, self.suffix.as_slice());
        s.append(" [");
        append_all(&mut s, self.reading.as_slice());
        append_all(&mut s, self.suffix.as_slice());
        s.append("]");
        s
    }
}

/// Append all of the given strings.
pub fn append_all(s: &mut String, parts: &[&str])
    ensures
        final(s)@ == old(s)@ + concat_views(parts@),
{
    let mut i: usize = 0;
    while i < parts.len()
        invariant
            i <= parts@.len(),
            s@ == old(s)@ + concat_views(parts@.subrange(0, i as int)),
        decreases parts@.len() - i,
    {
        assert(parts@.subrange(0, i + 1).drop_last() =~= parts@.subrange(0, i as int));
        s.append(parts[i]);
        i = i + 1;
    }
    assert(parts@.subrange(0, parts@.len() as int) =~= parts@);
}

} // verus!
