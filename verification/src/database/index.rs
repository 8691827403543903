//! Kinds of dictionary indexes and the inputs a dictionary is built from.

use vstd::prelude::*;
use vstd::string::*;
use crate::database::text::push_char;

verus! {

/// The ways a kanji is indexed.
#[derive(Debug, Clone, Copy, PartialEq, Eq, Structural, Hash, PartialOrd, Ord)]
pub enum KanjiIndex {
    /// Indexed by entry.
    Entry,
    /// The literal reading.
    Literal,
    /// Kunyomi readings only.
    KunyomiHiragana,
    KunyomiRomanize,
    KunyomiKatakana,
    /// Kunyomi readings including contextual part.
    KunyomiFullHiragana,
    KunyomiFullRomanized,
    KunyomiFullKatakana,
    /// Onyomi readings.
    OnyomiKatakana,
    OnyomiRomanized,
    OnyomiHiragana,
    /// Meaning (or sense).
    Meaning,
    /// Other language.
    Other,
}

/// The ways a name is indexed.
#[derive(Debug, Clone, Copy, PartialEq, Eq, Structural, Hash, PartialOrd, Ord)]
pub enum NameIndex {
    /// The literal reading.
    Literal,
    /// Hiragana reading.
    Hiragana,
    /// Katakana reading.
    Katakana,
    /// Romanized.
    Romanized,
}

/// The ways a phrase is indexed.
#[derive(Debug, Clone, Copy, PartialEq, Eq, Structural, Hash, PartialOrd, Ord)]
pub enum PhraseIndex {
    /// Indexed by entry.
    Entry,
    /// Indexed by kanji reading.
    Kanji,
    /// Indexed by half-kanji reading.
    KanjiHalf,
    /// Indexed by hiragana reading.
    Hiragana,
    /// Indexed by katakana reading.
    Katakana,
    /// Indexed by romanized reading.
    Romanized,
    /// Indexed by meaning.
    Meaning,
}

/// A unique key of an entry: the index it was found in and its offset.
#[derive(Debug, Clone, Copy, PartialEq, Eq, Structural, Hash, PartialOrd, Ord)]
pub struct Key {
    index: u32,
    offset: u32,
}

impl Key {
    /// The index the entry is found in.
    pub closed spec fn spec_index(&self) -> u32 {
        self.index
    }

    /// The offset of the entry in its index.
    pub closed spec fn spec_offset(&self) -> u32 {
        self.offset
    }

    /// The index the entry is found in.
    pub fn index(&self) -> (r: u32)
        ensures
            r == self.spec_index(),
    {
        self.index
    }

    /// The offset of the entry in its index.
    pub fn offset(&self) -> (r: u32)
        ensures
            r == self.spec_offset(),
    {
        self.offset
    }
}

/// Data stored for a given inflection: the reading it belongs to and the
/// inflection.
#[derive(Debug, Clone, Copy, PartialEq, Eq, Structural, Hash, PartialOrd, Ord)]
pub struct InflectionData {
    pub reading: crate::inflection::Reading,
    pub inflection: crate::inflection::Inflection,
}

/// Why an entry was indexed.
#[derive(Debug, Clone, Copy, PartialEq, Eq, Structural, Hash, PartialOrd, Ord)]
pub enum Source {
    /// Indexed due to a kanji.
    Kanji { index: KanjiIndex },
    /// Indexed due to a phrase.
    Phrase { index: PhraseIndex },
    /// Indexed due to an inflection.
    Inflection { data: InflectionData },
    /// Indexed due to a name.
    Name { index: NameIndex },
}

impl Source {
    /// Test if the source is an inflection.
    pub fn is_inflection(&self) -> (r: bool)
        ensures
            r == (*self is Inflection),
    {
        match self {
            Source::Inflection { .. } => true,
            _ => false,
        }
    }
}

/// The identifier of an indexed entry: the index it was fetched from, its
/// offset inside of that index, and why it was indexed.
#[derive(Debug, Clone, Copy, PartialEq, Eq, Structural, Hash, PartialOrd, Ord)]
pub struct Id {
    index: u32,
    offset: u32,
    source: Source,
}

impl Id {
    /// The index the entry was fetched from.
    pub closed spec fn spec_index(&self) -> u32 {
        self.index
    }

    /// The offset of the entry inside of its index.
    pub closed spec fn spec_offset(&self) -> u32 {
        self.offset
    }

    /// Why the entry was indexed.
    pub closed spec fn spec_source(&self) -> Source {
        self.source
    }

    /// The key of the entry pointed to.
    pub closed spec fn key_of(&self) -> Key {
        Key { index: self.index, offset: self.offset }
    }

    /// The key of an entry holds its index and offset.
    pub proof fn lemma_key_of(&self)
        ensures
            self.key_of().spec_index() == self.spec_index(),
            self.key_of().spec_offset() == self.spec_offset(),
    {
    }

    /// The identifier of the entry at `offset` of index `index`, indexed
    /// because of `source`.
    pub closed spec fn spec_make(index: u32, offset: u32, source: Source) -> Id {
        Id { index, offset, source }
    }

    /// An identifier is made of its index, offset and source.
    pub proof fn lemma_make(index: u32, offset: u32, source: Source)
        ensures
            Id::spec_make(index, offset, source).spec_index() == index,
            Id::spec_make(index, offset, source).spec_offset() == offset,
            Id::spec_make(index, offset, source).spec_source() == source,
    {
    }

    /// The identifier of the entry at `offset` of index `index`.
    pub fn new(index: u32, offset: u32, source: Source) -> (r: Id)
        ensures
            r == Id::spec_make(index, offset, source),
            r.spec_index() == index,
            r.spec_offset() == offset,
            r.spec_source() == source,
    {
        Id { index, offset, source }
    }

    /// Get a unique key that identifies the entry being pointed to.
    pub fn key(&self) -> (r: Key)
        ensures
            r == self.key_of(),
            r.spec_index() == self.spec_index(),
            r.spec_offset() == self.spec_offset(),
    {
        Key { index: self.index, offset: self.offset }
    }

    /// Stored source.
    pub fn source(&self) -> (r: &Source)
        ensures
            *r == self.spec_source(),
    {
        &self.source
    }
}

/// Used for diagnostics to indicate where a dictionary was loaded from.
pub enum Location {
    /// The dictionary was loaded from the given path.
    Path(String),
    /// The dictionary was loaded from memory at the given address.
    Memory(usize),
}

/// The character of a hexadecimal digit, in lower case.
pub open spec fn hex_char(d: nat) -> char {
    if d < 10 {
        ((d + 48) as u32) as char
    } else {
        ((d + 87) as u32) as char
    }
}

/// The hexadecimal digits of a number, in lower case, with no leading zero.
pub open spec fn hex(v: nat) -> Seq<char>
    decreases v,
{
    if v < 16 {
        seq![hex_char(v)]
    } else {
        hex(v / 16).push(hex_char(v % 16))
    }
}

/// The hexadecimal digits of a number, padded with zeros to at least eight.
pub open spec fn hex8(v: nat) -> Seq<char> {
    let h = hex(v);
    if h.len() < 8 {
        Seq::new((8 - h.len()) as nat, |i: int| '0') + h
    } else {
        h
    }
}

/// The description of a dictionary loaded from memory at `address`: the
/// address in lower case hexadecimal, padded to at least eight digits, in
/// `<memory at ..>`.
pub open spec fn memory_description(address: usize) -> Seq<char> {
    "<memory at "@ + hex8(address as nat) + ">"@
}

/// The hexadecimal digits of a number.
fn hex_digits(v: usize) -> (r: Vec<char>)
    ensures
        r@ == hex(v as nat),
    decreases v,
{
    let mut out = if v >= 16 {
        hex_digits(v / 16)
    } else {
        Vec::new()
    };
    let d = v % 16;
    let c: char = if d < 10 {
        char_of_digit(d as u32 + 48)
    } else {
        char_of_digit(d as u32 + 87)
    };
    out.push(c);
    proof {
        if v < 16 {
            assert(out@ =~= seq![hex_char(v as nat)]);
        }
    }
    out
}

/// The character of an ASCII digit or lower case letter.
fn char_of_digit(u: u32) -> (r: char)
    requires
        48 <= u <= 57 || 97 <= u <= 102,
    ensures
        r == (u as char),
{
    if u == 48 { '0' } else if u == 49 { '1' } else if u == 50 { '2' } else if u == 51 { '3' }
    else if u == 52 { '4' } else if u == 53 { '5' } else if u == 54 { '6' } else if u == 55 { '7' }
    else if u == 56 { '8' } else if u == 57 { '9' } else if u == 97 { 'a' } else if u == 98 { 'b' }
    else if u == 99 { 'c' } else if u == 100 { 'd' } else if u == 101 { 'e' } else { 'f' }
}

/// Describe a dictionary loaded from memory at `address`.
fn describe_memory(address: usize) -> (r: String)
    ensures
        r@ == memory_description(address),
{
    let digits = hex_digits(address);
    let mut s = String::new();
    s.append("<memory at ");
    let ghost base = s@;
    let n = digits.len();
    let mut z: usize = n;
    while z < 8
        invariant
            n <= z <= 8 || (n > 8 && z == n),
            s@ == base + Seq::new((z - n) as nat, |i: int| '0'),
        decreases 8 - z,
    {
        push_char(&mut s, '0');
        assert(s@ =~= base + Seq::new((z + 1 - n) as nat, |i: int| '0'));
        z = z + 1;
    }
    let ghost padded = s@;
    let mut i: usize = 0;
    while i < n
        invariant
            n == digits@.len(),
            i <= n,
            s@ == padded + digits@.take(i as int),
        decreases n - i,
    {
        push_char(&mut s, digits[i]);
        assert(s@ =~= padded + digits@.take(i + 1));
        i = i + 1;
    }
    s.append(">");
    proof {
        assert(digits@.take(n as int) =~= digits@);
        reveal_strlit("<memory at ");
        reveal_strlit(">");
        let h = hex(address as nat);
        if h.len() < 8 {
            assert(s@ =~= "<memory at "@ + (Seq::new((8 - h.len()) as nat, |i: int| '0') + h) + ">"@);
        } else {
            assert(Seq::new(0, |i: int| '0') + h =~= h);
            assert(s@ =~= "<memory at "@ + h + ">"@);
        }
    }
    s
}

impl Location {
    /// Describe where the dictionary was loaded from.
    pub fn describe(&self) -> (r: String)
        ensures
            match self {
                Location::Path(p) => r@ == p@,
                Location::Memory(a) => r@ == memory_description(*a),
            },
    {
        match self {
            Location::Path(p) => p.clone(),
            Location::Memory(a) => describe_memory(*a),
        }
    }
}

/// Input to build the database.
pub enum Input<'a> {
    Jmdict(&'a str),
    Kanjidic2(&'a str),
    Jmnedict(&'a str),
    Kradfile(&'a [u8]),
}

impl<'a> Input<'a> {
    /// The name of the kind of input.
    pub fn name(&self) -> (r: &'static str)
        ensures
            r@ == match self {
                Input::Jmdict(..) => "JMdict"@,
                Input::Kanjidic2(..) => "Kanjidic2"@,
                Input::Jmnedict(..) => "JMnedict"@,
                Input::Kradfile(..) => "Kradfile"@,
            },
    {
        match self {
            Input::Jmdict(..) => "JMdict",
            Input::Kanjidic2(..) => "Kanjidic2",
            Input::Jmnedict(..) => "JMnedict",
            Input::Kradfile(..) => "Kradfile",
        }
    }
}

} // verus!
