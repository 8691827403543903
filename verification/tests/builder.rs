use jpv_lib::database::builder::{build, BuildError, MemoryIndex};
use jpv_lib::database::index::{Input, KanjiIndex, NameIndex, PhraseIndex};
use jpv_lib::database::query::lookup_table;
use jpv_lib::database::stored;
use jpv_lib::reporter::EmptyReporter;
use jpv_lib::token::Token;

const JMDICT: &str = r#"<?xml version="1.0" encoding="UTF-8"?>
<JMdict>
<entry>
<ent_seq>1358280</ent_seq>
<k_ele>
<keb>食べる</keb>
</k_ele>
<r_ele>
<reb>たべる</reb>
</r_ele>
<sense>
<pos>&v1;</pos>
<gloss>to eat</gloss>
</sense>
</entry>
<entry>
<ent_seq>2</ent_seq>
<r_ele>
<reb>かな</reb>
</r_ele>
</entry>
</JMdict>
"#;

const KANJIDIC2: &str = r#"<?xml version="1.0" encoding="UTF-8"?>
<kanjidic2>
<character>
<literal>亜</literal>
<reading_meaning>
<rmgroup>
<meaning>Asia</meaning>
</rmgroup>
</reading_meaning>
</character>
</kanjidic2>
"#;

const JMNEDICT: &str = r#"<?xml version="1.0" encoding="UTF-8"?>
<JMnedict>
<entry>
<ent_seq>5000000</ent_seq>
<k_ele>
<keb>山田</keb>
</k_ele>
<r_ele>
<reb>やまだ</reb>
</r_ele>
</entry>
</JMnedict>
"#;

#[test]
fn build_phrases() {
    let index = build(&EmptyReporter, &Token::new(), Input::Jmdict(JMDICT)).unwrap();
    assert_eq!(index.phrases.len(), 2);
    assert_eq!(index.phrases[0].sequence, 1358280);
    assert_eq!(index.table.phrases, vec![0, 1]);
    let found = lookup_table(&index.table.lookup, &index.table.phrases, "たべる");
    assert!(found.contains(&stored::Id::phrase(0, PhraseIndex::Hiragana)));
    let found = lookup_table(&index.table.lookup, &index.table.phrases, "to eat");
    assert_eq!(found, vec![stored::Id::phrase(0, PhraseIndex::Meaning)]);
    // The inflected forms are stored too.
    assert!(!index.table.inflections.is_empty());
    let found = lookup_table(&index.table.lookup, &index.table.phrases, "たべた");
    assert!(found.iter().any(|id| matches!(id.source, stored::Source::Inflection { .. })));
    assert_eq!(index.sequences.sequence_to_id(2).unwrap().key().offset(), 1);
}

#[test]
fn build_characters_and_names() {
    let mut index = MemoryIndex::new();
    let token = Token::new();
    index.add(&EmptyReporter, &token, Input::Kanjidic2(KANJIDIC2)).unwrap();
    index.add(&EmptyReporter, &token, Input::Jmnedict(JMNEDICT)).unwrap();
    assert_eq!(index.characters.len(), 1);
    assert_eq!(index.names.len(), 1);
    let found = lookup_table(&index.table.lookup, &index.table.phrases, "亜");
    assert_eq!(found, vec![stored::Id::kanji(0, KanjiIndex::Literal)]);
    let found = lookup_table(&index.table.lookup, &index.table.phrases, "山田");
    assert!(found.contains(&stored::Id::name(0, NameIndex::Literal)));
    assert!(index.phrases.is_empty());
}

#[test]
fn build_radicals() {
    let mut index = MemoryIndex::new();
    let data = b"# comment\n\xb0\xa1 : | \n".to_vec();
    index
        .add(&EmptyReporter, &Token::new(), Input::Kradfile(&data))
        .unwrap();
    assert_eq!(index.radicals.len(), 1);
    assert_eq!(index.radicals_of("亜").unwrap().radicals, vec!["|".to_string()]);
    assert!(index.radicals_of("山").is_none());
}

#[test]
fn build_stops_when_shut_down() {
    let token = Token::new();
    token.set();
    let r = build(&EmptyReporter, &token, Input::Jmdict(JMDICT));
    assert!(matches!(r, Err(BuildError::Shutdown)));
}

#[test]
fn build_reports_parse_errors() {
    let r = build(&EmptyReporter, &Token::new(), Input::Jmdict("<JMdict><entry>"));
    assert!(matches!(r, Err(BuildError::Parse(_))));
}

#[test]
fn populate_kanji_shows_each_kanji_once() {
    let index = build(&EmptyReporter, &Token::new(), Input::Kanjidic2(KANJIDIC2)).unwrap();
    let mut seen = Vec::new();
    let mut out = Vec::new();
    index.populate_kanji("亜あa亜", &mut seen, &mut out);
    assert_eq!(out, vec![0]);
    assert_eq!(seen, vec!["亜"]);
    index.populate_kanji("亜", &mut seen, &mut out);
    assert_eq!(out, vec![0]);
    index.populate_kanji("山", &mut seen, &mut out);
    assert_eq!(out, vec![0]);
}

#[test]
fn sort_found_splits_by_kind() {
    let index = build(&EmptyReporter, &Token::new(), Input::Jmdict(JMDICT)).unwrap();
    let groups = index.table.search("たべる").unwrap();
    let mut seen = Vec::new();
    let mut kanji = Vec::new();
    let (phrases, names) = index.sort_found(&groups, &Vec::new(), &mut seen, &mut kanji);
    assert_eq!(phrases.len(), 1);
    assert_eq!(phrases[0].0, 0);
    assert!(names.is_empty());
    assert!(kanji.is_empty());

    let names_index = build(&EmptyReporter, &Token::new(), Input::Jmnedict(JMNEDICT)).unwrap();
    let groups = names_index.table.search("やまだ").unwrap();
    let (phrases, names) = names_index.sort_found(&groups, &Vec::new(), &mut seen, &mut kanji);
    assert!(phrases.is_empty());
    assert_eq!(names.len(), 1);
    assert_eq!(names[0].0, 0);
}
