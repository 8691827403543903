//! A concatenation of a bounded number of borrowed strings.

use vstd::prelude::*;
use vstd::string::*;

use crate::text::{chars_eq, concat_views, to_chars};

verus! {

/// A concatenation of at most `N` non-empty borrowed strings.
#[derive(Clone, Debug)]
pub struct Concat<'a, const N: usize> {
    storage: Vec<&'a str>,
}

/// All strings of the sequence are non-empty.
pub open spec fn all_nonempty(parts: Seq<&str>) -> bool {
    forall|i: int| 0 <= i < parts.len() ==> (#[trigger] parts[i])@.len() > 0
}

/// The non-empty strings of a sequence, in order.
pub open spec fn nonempty_parts<'a>(parts: Seq<&'a str>) -> Seq<&'a str>
    decreases parts.len(),
{
    if parts.len() == 0 {
        Seq::empty()
    } else if parts.last()@.len() > 0 {
        nonempty_parts(parts.drop_last()).push(parts.last())
    } else {
        nonempty_parts(parts.drop_last())
    }
}

/// Dropping empty strings leaves at most as many strings, and fewer when
/// the first string is empty.
pub proof fn lemma_nonempty_parts_len(parts: Seq<&str>)
    ensures
        nonempty_parts(parts).len() <= parts.len(),
        parts.len() > 0 && parts[0]@.len() == 0 ==> nonempty_parts(parts).len() < parts.len(),
    decreases parts.len(),
{
    if parts.len() > 0 {
        lemma_nonempty_parts_len(parts.drop_last());
    }
}

/// The characters of each string of a sequence.
pub open spec fn part_views(parts: Seq<&str>) -> Seq<Seq<char>> {
    parts.map_values(|s: &str| s@)
}

/// The non-empty strings of a sequence of character sequences, in order.
pub open spec fn nonempty_views(parts: Seq<Seq<char>>) -> Seq<Seq<char>>
    decreases parts.len(),
{
    if parts.len() == 0 {
        Seq::empty()
    } else if parts.last().len() > 0 {
        nonempty_views(parts.drop_last()).push(parts.last())
    } else {
        nonempty_views(parts.drop_last())
    }
}

/// Dropping empty strings commutes with taking their characters.
pub proof fn lemma_nonempty_part_views(parts: Seq<&str>)
    ensures
        part_views(nonempty_parts(parts)) == nonempty_views(part_views(parts)),
    decreases parts.len(),
{
    if parts.len() > 0 {
        lemma_nonempty_part_views(parts.drop_last());
        assert(part_views(parts).drop_last() =~= part_views(parts.drop_last()));
        assert(part_views(nonempty_parts(parts.drop_last()).push(parts.last())) =~= part_views(
            nonempty_parts(parts.drop_last()),
        ).push(parts.last()@));
    } else {
        assert(part_views(nonempty_parts(parts)) =~= nonempty_views(part_views(parts)));
    }
}

impl<'a, const N: usize> Concat<'a, N> {
    /// The stored strings.
    pub closed spec fn parts(&self) -> Seq<&'a str> {
        self.storage@
    }

    /// The text of the concatenation.
    pub open spec fn text(&self) -> Seq<char> {
        concat_views(self.parts())
    }

    /// At most `N` strings are stored, none of them empty.
    pub open spec fn wf(&self) -> bool {
        self.parts().len() <= N && all_nonempty(self.parts())
    }

    /// Concatenate the given strings together into a single composite string.
    pub fn new(string: &'a str) -> (r: Concat<'a, N>)
        requires
            string@.len() > 0 ==> N > 0,
        ensures
            r.wf(),
            r.parts() == (if string@.len() > 0 {
                seq![string]
            } else {
                Seq::empty()
            }),
    {
        let mut storage: Vec<&'a str> = Vec::new();
        if string.unicode_len() > 0 {
            storage.push(string);
        }
        Concat { storage }
    }

    /// The empty concatenation.
    pub fn empty() -> (r: Concat<'a, N>)
        ensures
            r.wf(),
            r.parts() == Seq::<&'a str>::empty(),
    {
        Concat { storage: Vec::new() }
    }

    /// Push the given string onto storage; empty strings are skipped.
    pub fn push(&mut self, string: &'a str)
        requires
            old(self).wf(),
            string@.len() > 0 ==> old(self).parts().len() < N,
        ensures
            final(self).wf(),
            final(self).parts() == (if string@.len() > 0 {
                old(self).parts().push(string)
            } else {
                old(self).parts()
            }),
    {
        if string.unicode_len() > 0 {
            self.storage.push(string);
        }
    }

    /// The stored strings.
    pub fn as_slice(&self) -> (r: &[&'a str])
        ensures
            r@ == self.parts(),
    {
        self.storage.as_slice()
    }

    /// The characters of the composite word.
    pub fn chars(&self) -> (r: Vec<char>)
        ensures
            r@ == self.text(),
    {
        let mut out: Vec<char> = Vec::new();
        let mut i: usize = 0;
        while i < self.storage.len()
            invariant
                i <= self.parts().len(),
                self.parts() == self.storage@,
                out@ == concat_views(self.parts().subrange(0, i as int)),
            decreases self.parts().len() - i,
        {
            assert(self.parts().subrange(0, i + 1).drop_last() =~= self.parts().subrange(
                0,
                i as int,
            ));
            let mut cs = to_chars(self.storage[i]);
            out.append(&mut cs);
            i = i + 1;
        }
        assert(self.parts().subrange(0, self.parts().len() as int) =~= self.parts());
        out
    }

    /// The number of stored strings.
    pub fn len(&self) -> (r: usize)
        ensures
            r == self.parts().len(),
    {
        self.storage.len()
    }

    /// Test if concat is empty.
    pub fn is_empty(&self) -> (r: bool)
        ensures
            r == (self.parts().len() == 0),
    {
        self.storage.len() == 0
    }

    /// A copy of the concatenation.
    pub fn duplicate(&self) -> (r: Self)
        ensures
            r.parts() == self.parts(),
    {
        let mut storage: Vec<&'a str> = Vec::new();
        let mut i: usize = 0;
        while i < self.storage.len()
            invariant
                i <= self.storage@.len(),
                storage@ == self.storage@.subrange(0, i as int),
            decreases self.storage@.len() - i,
        {
            storage.push(self.storage[i]);
            i = i + 1;
        }
        assert(self.storage@.subrange(0, i as int) =~= self.storage@);
        Concat { storage }
    }

    /// Concatenate the given strings together into a single composite
    /// string, skipping empty strings.
    pub fn from_strs(strings: &[&'a str]) -> (r: Self)
        requires
            nonempty_parts(strings@).len() <= N,
        ensures
            r.wf(),
            r.parts() == nonempty_parts(strings@),
    {
        let mut this = Self::empty();
        let mut i: usize = 0;
        while i < strings.len()
            invariant
                i <= strings@.len(),
                this.wf(),
                this.parts() == nonempty_parts(strings@.subrange(0, i as int)),
                nonempty_parts(strings@).len() <= N,
            decreases strings@.len() - i,
        {
            proof {
                lemma_nonempty_parts_prefix(strings@, i as int + 1);
            }
            assert(strings@.subrange(0, i + 1).drop_last() =~= strings@.subrange(0, i as int));
            this.push(strings[i]);
            i = i + 1;
        }
        assert(strings@.subrange(0, strings@.len() as int) =~= strings@);
        this
    }
}

/// The non-empty parts of a prefix are no more than those of the whole.
pub proof fn lemma_nonempty_parts_prefix(parts: Seq<&str>, i: int)
    requires
        0 <= i <= parts.len(),
    ensures
        nonempty_parts(parts.subrange(0, i)).len() <= nonempty_parts(parts).len(),
    decreases parts.len() - i,
{
    if i < parts.len() {
        lemma_nonempty_parts_prefix(parts, i + 1);
        assert(parts.subrange(0, i + 1).drop_last() =~= parts.subrange(0, i));
    } else {
        assert(parts.subrange(0, i) =~= parts);
    }
}

impl<'a, const N: usize> Concat<'a, N> {
    /// Iterate over the stored strings, taking the concatenation.
    pub fn into_iter(self) -> (r: IntoIter<'a, N>)
        ensures
            r.remaining() == self.parts(),
    {
        let r = IntoIter { parts: self.storage, pos: 0 };
        assert(r.remaining() =~= self.parts());
        r
    }
}

/// Iterator over the strings of a concatenation.
pub struct IntoIter<'a, const N: usize> {
    parts: Vec<&'a str>,
    pos: usize,
}

impl<'a, const N: usize> IntoIter<'a, N> {
    /// The strings not yet given, in order.
    pub closed spec fn remaining(&self) -> Seq<&'a str> {
        if self.pos < self.parts@.len() {
            self.parts@.skip(self.pos as int)
        } else {
            Seq::empty()
        }
    }

    /// The next string, if any is left.
    pub fn next(&mut self) -> (r: Option<&'a str>)
        ensures
            match r {
                Some(s) => old(self).remaining().len() > 0 && s == old(self).remaining()[0]
                    && final(self).remaining() == old(self).remaining().drop_first(),
                None => old(self).remaining().len() == 0 && final(self).remaining() == old(self).remaining(),
            },
    {
        if self.pos < self.parts.len() {
            let s = self.parts[self.pos];
            self.pos = self.pos + 1;
            assert(self.remaining() =~= old(self).remaining().drop_first());
            Some(s)
        } else {
            None
        }
    }
}

impl<'a, const N: usize> PartialEq for Concat<'a, N> {
    /// Concatenations are equal when their texts are equal.
    fn eq(&self, other: &Self) -> (r: bool) {
        let a = self.chars();
        let b = other.chars();
        chars_eq(&a, &b)
    }
}

impl<'a, const N: usize> vstd::std_specs::cmp::PartialEqSpecImpl for Concat<'a, N> {
    open spec fn obeys_eq_spec() -> bool {
        true
    }

    open spec fn eq_spec(&self, other: &Self) -> bool {
        self.text() == other.text()
    }
}

impl<'a, const N: usize> Eq for Concat<'a, N> {}

} // verus!
