# jpv_lib

A Japanese dictionary library, verified with Verus: it parses the JMdict,
JMnedict, KANJIDIC2 and KRADFILE dictionaries, builds an index of their
entries in memory, conjugates verbs and adjectives, and searches the index
by readings, spellings, glossaries and wildcards.

## Layout

- `src/` is the verified library. Each public function states what it
  returns in `ensures`; the properties that span several functions are
  public proof functions (`lemma_*`).
  - `xml.rs`: the tokens of an XML document and a reader of its outputs.
  - `jmdict/`, `jmnedict/`, `kanjidic2/`, `kradfile.rs`: the parsers of the
    dictionaries, each stated as a fold of its steps over the tokens of the
    document.
  - `database/`: the keys under which entries are indexed, the table of
    inflections, lookups (exact, by prefix and with wildcards), searching,
    `builder.rs`, which builds an index from a dictionary, and
    `results.rs`, which sorts what a search finds into phrases, names and
    kanji.
  - `inflection/`: conjugation tables and the conjugation of an entry.
  - `furigana/`, `kana/`, `romaji/`, `morae.rs`: readings and their forms.
  - `config.rs`, `priority.rs`, `entities.rs`, `api.rs`: configuration and
    the vocabulary of the dictionaries.
- `app/` is a command line program around the library: it reads the
  dictionary files, builds an index of each, orders what a search finds by
  weights (floating point numbers, which the library does not hold) and
  prints it.
- `tests/` runs the library on concrete inputs.
