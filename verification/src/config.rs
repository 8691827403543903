//! The configuration of the application: which dictionary indexes exist,
//! where they are downloaded from and which of them are enabled.

use vstd::prelude::*;
use vstd::string::*;

use crate::text::str_eq;

verus! {

pub const JMDICT_URL: &'static str = "http://ftp.edrdg.org/pub/Nihongo/JMdict_e_examp.gz";
pub const JMDICT_HELP: &'static str = "https://www.edrdg.org/wiki/index.php/JMdict-EDICT_Dictionary_Project";
pub const JMDICT_DESCRIPTION: &'static str = "JMDict (with examples)";
pub const JMNEDICT_URL: &'static str = "http://ftp.edrdg.org/pub/Nihongo/JMnedict.xml.gz";
pub const JMNEDICT_HELP: &'static str = "https://www.edrdg.org/wiki/index.php/Main_Page#The_ENAMDICT/JMnedict_Project";
pub const JMNEDICT_DESCRIPTION: &'static str = "Names from JMnedict";
pub const KANJIDIC2_URL: &'static str = "http://ftp.edrdg.org/pub/Nihongo/kanjidic2.xml.gz";
pub const KANJIDIC2_HELP: &'static str = "https://www.edrdg.org/wiki/index.php/KANJIDIC_Project";
pub const KANJIDIC2_DESCRIPTION: &'static str = "Kanji from Kanjidic2";
pub const KRADFILE_URL: &'static str = "http://ftp.edrdg.org/pub/Nihongo/kradfile.gz";
pub const KRADFILE_HELP: &'static str = "https://www.edrdg.org/krad/kradinf.html";
pub const KRADFILE_DESCRIPTION: &'static str = "Radicals from KRADFILE";

/// Error raised when parsing an unknown index format.
#[derive(Debug)]
pub struct IndexFormatError;

/// The formats of dictionary indexes.
#[derive(Debug, Clone, Copy, PartialEq, Eq, Structural, PartialOrd, Ord, Hash)]
pub enum IndexFormat {
    Jmdict,
    Jmnedict,
    Kanjidic2,
    Kradfile,
}

/// The identifier of an index format.
pub open spec fn format_id(f: IndexFormat) -> Seq<char> {
    match f {
        IndexFormat::Jmdict => "jmdict"@,
        IndexFormat::Jmnedict => "jmnedict"@,
        IndexFormat::Kanjidic2 => "kanjidic2"@,
        IndexFormat::Kradfile => "kradfile"@,
    }
}

/// The format with the given identifier.
pub open spec fn format_of_id(s: Seq<char>) -> Option<IndexFormat> {
    if s == "jmdict"@ {
        Some(IndexFormat::Jmdict)
    } else if s == "jmnedict"@ {
        Some(IndexFormat::Jmnedict)
    } else if s == "kanjidic2"@ {
        Some(IndexFormat::Kanjidic2)
    } else if s == "kradfile"@ {
        Some(IndexFormat::Kradfile)
    } else {
        None
    }
}

/// All index formats, in order.
pub open spec fn all_formats() -> Seq<IndexFormat> {
    seq![IndexFormat::Jmdict, IndexFormat::Jmnedict, IndexFormat::Kanjidic2, IndexFormat::Kradfile]
}

/// An index.
#[derive(Debug, Clone, PartialEq, Eq)]
pub struct ConfigIndex {
    pub format: IndexFormat,
    pub url: String,
    pub enabled: bool,
    pub description: Option<String>,
    pub help: Option<String>,
}

/// The default index configuration of a format.
pub open spec fn is_default_config(c: ConfigIndex, f: IndexFormat, enabled: bool) -> bool {
    &&& c.format == f
    &&& c.enabled == enabled
    &&& c.description is Some
    &&& c.help is Some
    &&& match f {
        IndexFormat::Jmdict => c.url@ == JMDICT_URL@ && c.description->0@ == JMDICT_DESCRIPTION@
            && c.help->0@ == JMDICT_HELP@,
        IndexFormat::Jmnedict => c.url@ == JMNEDICT_URL@ && c.description->0@
            == JMNEDICT_DESCRIPTION@ && c.help->0@ == JMNEDICT_HELP@,
        IndexFormat::Kanjidic2 => c.url@ == KANJIDIC2_URL@ && c.description->0@
            == KANJIDIC2_DESCRIPTION@ && c.help->0@ == KANJIDIC2_HELP@,
        IndexFormat::Kradfile => c.url@ == KRADFILE_URL@ && c.description->0@
            == KRADFILE_DESCRIPTION@ && c.help->0@ == KRADFILE_HELP@,
    }
}

impl IndexFormat {
    /// All supported index formats.
    pub fn all() -> (r: Vec<IndexFormat>)
        ensures
            r@ == all_formats(),
    {
        let r = vec![
            IndexFormat::Jmdict,
            IndexFormat::Jmnedict,
            IndexFormat::Kanjidic2,
            IndexFormat::Kradfile,
        ];
        assert(r@ =~= all_formats());
        r
    }

    /// Get the identifier of an index format.
    pub fn id(&self) -> (r: &'static str)
        ensures
            r@ == format_id(*self),
    {
        match self {
            IndexFormat::Jmdict => "jmdict",
            IndexFormat::Jmnedict => "jmnedict",
            IndexFormat::Kanjidic2 => "kanjidic2",
            IndexFormat::Kradfile => "kradfile",
        }
    }

    /// Get a human readable short description of the format.
    pub fn description(&self) -> (r: &'static str)
        ensures
            r@ == match *self {
                IndexFormat::Jmdict => "JMDict"@,
                IndexFormat::Jmnedict => "Names from JMnedict"@,
                IndexFormat::Kanjidic2 => "Kanji from Kanjidic2"@,
                IndexFormat::Kradfile => "Radicals from KRADFILE"@,
            },
    {
        match self {
            IndexFormat::Jmdict => "JMDict",
            IndexFormat::Jmnedict => "Names from JMnedict",
            IndexFormat::Kanjidic2 => "Kanji from Kanjidic2",
            IndexFormat::Kradfile => "Radicals from KRADFILE",
        }
    }

    /// Generate a default index configuration for the given format.
    pub fn default_config(self, enabled: bool) -> (r: ConfigIndex)
        ensures
            is_default_config(r, self, enabled),
    {
        match self {
            IndexFormat::Jmdict => ConfigIndex {
                format: self,
                url: JMDICT_URL.to_owned(),
                enabled,
                description: Some(JMDICT_DESCRIPTION.to_owned()),
                help: Some(JMDICT_HELP.to_owned()),
            },
            IndexFormat::Jmnedict => ConfigIndex {
                format: self,
                url: JMNEDICT_URL.to_owned(),
                enabled,
                description: Some(JMNEDICT_DESCRIPTION.to_owned()),
                help: Some(JMNEDICT_HELP.to_owned()),
            },
            IndexFormat::Kanjidic2 => ConfigIndex {
                format: self,
                url: KANJIDIC2_URL.to_owned(),
                enabled,
                description: Some(KANJIDIC2_DESCRIPTION.to_owned()),
                help: Some(KANJIDIC2_HELP.to_owned()),
            },
            IndexFormat::Kradfile => ConfigIndex {
                format: self,
                url: KRADFILE_URL.to_owned(),
                enabled,
                description: Some(KRADFILE_DESCRIPTION.to_owned()),
                help: Some(KRADFILE_HELP.to_owned()),
            },
        }
    }

    /// Parse an index format from its identifier.
    pub fn parse(s: &str) -> (r: Result<IndexFormat, IndexFormatError>)
        ensures
            match r {
                Ok(f) => format_of_id(s@) == Some(f),
                Err(_) => format_of_id(s@) is None,
            },
    {
        if str_eq(s, "jmdict") {
            Ok(IndexFormat::Jmdict)
        } else if str_eq(s, "jmnedict") {
            Ok(IndexFormat::Jmnedict)
        } else if str_eq(s, "kanjidic2") {
            Ok(IndexFormat::Kanjidic2)
        } else if str_eq(s, "kradfile") {
            Ok(IndexFormat::Kradfile)
        } else {
            Err(IndexFormatError)
        }
    }
}

impl core::str::FromStr for IndexFormat {
    type Err = IndexFormatError;

    fn from_str(s: &str) -> (r: Result<Self, Self::Err>)
        ensures
            match r {
                Ok(f) => format_of_id(s@) == Some(f),
                Err(_) => format_of_id(s@) is None,
            },
    {
        IndexFormat::parse(s)
    }
}

/// Parsing the identifier of a format gives back the format.
pub proof fn lemma_format_id_roundtrip(f: IndexFormat)
    ensures
        format_of_id(format_id(f)) == Some(f),
{
    reveal_strlit("jmdict");
    reveal_strlit("jmnedict");
    reveal_strlit("kanjidic2");
    reveal_strlit("kradfile");
    assert("jmdict"@.len() == 6);
    assert("jmnedict"@.len() == 8);
    assert("kanjidic2"@.len() == 9);
    assert("kradfile"@.len() == 8);
    assert("jmnedict"@[0] == 'j');
    assert("kradfile"@[0] == 'k');
    assert("jmdict"@ != "jmnedict"@);
    assert("jmdict"@ != "kanjidic2"@);
    assert("jmdict"@ != "kradfile"@);
    assert("jmnedict"@ != "kanjidic2"@);
    assert("jmnedict"@ != "kradfile"@);
    assert("kanjidic2"@ != "kradfile"@);
}

/// Distinct index formats have distinct identifiers.
pub proof fn lemma_format_ids_distinct(a: IndexFormat, b: IndexFormat)
    ensures
        a != b ==> format_id(a) != format_id(b),
{
    lemma_format_id_roundtrip(a);
    lemma_format_id_roundtrip(b);
}

/// The position of the first index configured under `id`.
pub open spec fn find_index(entries: Seq<(String, ConfigIndex)>, id: Seq<char>) -> Option<int>
    decreases entries.len(),
{
    if entries.len() == 0 {
        None
    } else {
        match find_index(entries.drop_last(), id) {
            Some(i) => Some(i),
            None => if entries.last().0@ == id {
                Some(entries.len() - 1)
            } else {
                None
            },
        }
    }
}

/// No two indexes are configured under the same identifier.
pub open spec fn unique_ids(entries: Seq<(String, ConfigIndex)>) -> bool {
    forall|i: int, j: int|
        0 <= i < j < entries.len() ==> (#[trigger] entries[i]).0@ != (#[trigger] entries[j]).0@
}

proof fn lemma_find_index(entries: Seq<(String, ConfigIndex)>, id: Seq<char>)
    ensures
        match find_index(entries, id) {
            Some(i) => 0 <= i < entries.len() && entries[i].0@ == id && forall|j: int|
                0 <= j < i ==> (#[trigger] entries[j]).0@ != id,
            None => forall|j: int| 0 <= j < entries.len() ==> (#[trigger] entries[j]).0@ != id,
        },
    decreases entries.len(),
{
    if entries.len() > 0 {
        lemma_find_index(entries.drop_last(), id);
        match find_index(entries.drop_last(), id) {
            Some(i) => {
                assert(entries[i] == entries.drop_last()[i]);
                assert forall|j: int| 0 <= j < i implies (#[trigger] entries[j]).0@ != id by {
                    assert(entries[j] == entries.drop_last()[j]);
                }
            },
            None => {
                assert forall|j: int| 0 <= j < entries.len() - 1 implies (#[trigger] entries[j]).0@ != id by {
                    assert(entries[j] == entries.drop_last()[j]);
                }
            },
        }
    }
}

/// A configuration used for the application.
#[derive(Debug, Clone)]
pub struct Config {
    /// Configured indexes, by identifier.
    pub indexes: Vec<(String, ConfigIndex)>,
    /// Whether OCR support is enabled or not.
    pub ocr: bool,
}

/// OCR is enabled unless configured otherwise.
pub fn default_ocr() -> (r: bool)
    ensures
        r,
{
    true
}

/// Find the first index configured under `id`.
fn find(entries: &Vec<(String, ConfigIndex)>, id: &str) -> (r: Option<usize>)
    ensures
        match r {
            Some(i) => find_index(entries@, id@) == Some(i as int),
            None => find_index(entries@, id@) is None,
        },
{
    proof {
        lemma_find_index(entries@, id@);
    }
    let mut i: usize = 0;
    while i < entries.len()
        invariant
            i <= entries@.len(),
            forall|j: int| 0 <= j < i ==> (#[trigger] entries@[j]).0@ != id@,
            match find_index(entries@, id@) {
                Some(k) => 0 <= k < entries@.len() && entries@[k].0@ == id@ && forall|j: int|
                    0 <= j < k ==> (#[trigger] entries@[j]).0@ != id@,
                None => forall|j: int| 0 <= j < entries@.len() ==> (#[trigger] entries@[j]).0@ != id@,
            },
        decreases entries@.len() - i,
    {
        if str_eq(entries[i].0.as_str(), id) {
            return Some(i);
        }
        i = i + 1;
    }
    None
}

impl Config {
    /// The default configuration: every index format, enabled, and OCR.
    pub fn new_default() -> (r: Config)
        ensures
            r.ocr,
            unique_ids(r.indexes@),
            r.indexes@.len() == 4,
            forall|i: int|
                0 <= i < 4 ==> (#[trigger] r.indexes@[i]).0@ == format_id(all_formats()[i])
                    && is_default_config(r.indexes@[i].1, all_formats()[i], true),
    {
        let mut indexes: Vec<(String, ConfigIndex)> = Vec::new();
        let formats = IndexFormat::all();
        let mut i: usize = 0;
        while i < formats.len()
            invariant
                formats@ == all_formats(),
                i <= 4,
                indexes@.len() == i,
                forall|k: int|
                    0 <= k < i ==> (#[trigger] indexes@[k]).0@ == format_id(all_formats()[k])
                        && is_default_config(indexes@[k].1, all_formats()[k], true),
            decreases 4 - i,
        {
            let f = formats[i];
            indexes.push((f.id().to_owned(), f.default_config(true)));
            i = i + 1;
        }
        proof {
            assert forall|a: int, b: int| 0 <= a < b < indexes@.len() implies (#[trigger] indexes@[a]).0@ != (#[trigger] indexes@[b]).0@ by {
                lemma_format_ids_distinct(all_formats()[a], all_formats()[b]);
            }
        }
        Config { indexes, ocr: true }
    }

    /// Add the default configuration, disabled, of each index format which
    /// is not configured yet.
    pub fn fill_missing_indexes(&mut self)
        ensures
            final(self).ocr == old(self).ocr,
            final(self).indexes@.len() >= old(self).indexes@.len(),
            forall|i: int| 0 <= i < old(self).indexes@.len() ==> #[trigger] final(self).indexes@[i] == old(self).indexes@[i],
            forall|i: int|
                old(self).indexes@.len() <= i < final(self).indexes@.len() ==> (#[trigger] final(self).indexes@[i]).0@ == format_id(final(self).indexes@[i].1.format)
                    && is_default_config(final(self).indexes@[i].1, final(self).indexes@[i].1.format, false)
                    && find_index(old(self).indexes@, final(self).indexes@[i].0@) is None,
            forall|k: int| 0 <= k < 4 ==> find_index(final(self).indexes@, format_id(#[trigger] all_formats()[k])) is Some,
            unique_ids(old(self).indexes@) ==> unique_ids(final(self).indexes@),
    {
        let formats = IndexFormat::all();
        let ghost orig = self.indexes@;
        proof {
            reveal_strlit("jmdict");
            reveal_strlit("jmnedict");
            reveal_strlit("kanjidic2");
            reveal_strlit("kradfile");
        }
        let mut i: usize = 0;
        while i < formats.len()
            invariant
                formats@ == all_formats(),
                i <= 4,
                self.ocr == old(self).ocr,
                orig == old(self).indexes@,
                self.indexes@.len() >= orig.len(),
                forall|j: int| 0 <= j < orig.len() ==> #[trigger] self.indexes@[j] == orig[j],
                forall|j: int|
                    orig.len() <= j < self.indexes@.len() ==> (#[trigger] self.indexes@[j]).0@ == format_id(
                        self.indexes@[j].1.format,
                    ) && is_default_config(self.indexes@[j].1, self.indexes@[j].1.format, false)
                        && find_index(orig, self.indexes@[j].0@) is None,
                forall|k: int| 0 <= k < i ==> find_index(self.indexes@, format_id(#[trigger] all_formats()[k])) is Some,
                unique_ids(orig) ==> unique_ids(self.indexes@),
            decreases 4 - i,
        {
            let f = formats[i];
            let id = f.id();
            let ghost before = self.indexes@;
            proof {
                lemma_find_index(before, id@);
            }
            if find(&self.indexes, id).is_none() {
                self.indexes.push((id.to_owned(), f.default_config(false)));
                proof {
                    let after = self.indexes@;
                    assert(after.drop_last() == before);
                    lemma_find_index(orig, id@);
                    assert forall|j: int| 0 <= j < orig.len() implies (#[trigger] orig[j]).0@ != id@ by {
                        assert(orig[j] == before[j]);
                    }
                    assert forall|k: int| 0 <= k < i + 1 implies find_index(after, format_id(#[trigger] all_formats()[k])) is Some by {
                        if k < i {
                            assert(find_index(before, format_id(all_formats()[k])) is Some);
                        }
                    }
                    if unique_ids(orig) {
                        assert forall|a: int, b: int| 0 <= a < b < after.len() implies (#[trigger] after[a]).0@ != (#[trigger] after[b]).0@ by {
                            if b == after.len() - 1 {
                                assert(after[a] == before[a]);
                            } else {
                                assert(after[a] == before[a]);
                                assert(after[b] == before[b]);
                            }
                        }
                    }
                }
            }
            i = i + 1;
        }
    }

    /// Toggle the specified index.
    pub fn toggle(&mut self, id: &str)
        ensures
            final(self).ocr == old(self).ocr,
            final(self).indexes@.len() == old(self).indexes@.len(),
            match find_index(old(self).indexes@, id@) {
                Some(k) => final(self).indexes@[k] == (
                    old(self).indexes@[k].0,
                    (ConfigIndex {
                        enabled: !old(self).indexes@[k].1.enabled,
                        ..old(self).indexes@[k].1
                    }),
                ) && forall|j: int| 0 <= j < old(self).indexes@.len() && j != k ==> #[trigger] final(self).indexes@[j] == old(self).indexes@[j],
                None => final(self).indexes@ == old(self).indexes@,
            },
            unique_ids(old(self).indexes@) ==> unique_ids(final(self).indexes@),
    {
        proof {
            lemma_find_index(self.indexes@, id@);
        }
        match find(&self.indexes, id) {
            Some(k) => {
                let mut entry = self.indexes.remove(k);
                entry.1.enabled = !entry.1.enabled;
                self.indexes.insert(k, entry);
                proof {
                    assert forall|j: int| 0 <= j < old(self).indexes@.len() && j != k implies #[trigger] self.indexes@[j] == old(self).indexes@[j] by {
                        if j < k {
                        } else {
                        }
                    }
                    let o = old(self).indexes@;
                    let f = self.indexes@;
                    assert forall|j: int| 0 <= j < f.len() implies (#[trigger] f[j]).0@ == o[j].0@ by {
                        if j != k {
                            assert(f[j] == o[j]);
                        }
                    }
                    if unique_ids(o) {
                        assert forall|a: int, b: int| 0 <= a < b < f.len() implies (#[trigger] f[a]).0@ != (#[trigger] f[b]).0@ by {
                            assert(f[a].0@ == o[a].0@);
                            assert(f[b].0@ == o[b].0@);
                        }
                    }
                }
            },
            None => {},
        }
    }

    /// Test if the given index is enabled.
    pub fn is_enabled(&self, id: &str) -> (r: bool)
        ensures
            r == match find_index(self.indexes@, id@) {
                Some(k) => self.indexes@[k].1.enabled,
                None => false,
            },
    {
        proof {
            lemma_find_index(self.indexes@, id@);
        }
        match find(&self.indexes, id) {
            Some(k) => self.indexes[k].1.enabled,
            None => false,
        }
    }
}

impl Default for Config {
    fn default() -> (r: Config)
        ensures
            r.ocr,
            unique_ids(r.indexes@),
            r.indexes@.len() == 4,
            forall|i: int|
                0 <= i < 4 ==> (#[trigger] r.indexes@[i]).0@ == format_id(all_formats()[i])
                    && is_default_config(r.indexes@[i].1, all_formats()[i], true),
    {
        Config::new_default()
    }
}

} // verus!
