use jpv_lib::database::by_pos::{add_pos_keys, by_pos};
use jpv_lib::database::index::{Id, InflectionData, KanjiIndex, NameIndex, PhraseIndex, Source};
use jpv_lib::database::inflections::{add_conjugation_keys, InflectionTable};
use jpv_lib::database::keys::{
    add_character_keys, add_name_keys, add_phrase_text_keys, character_is_indexable,
    phrase_is_indexable,
};
use jpv_lib::database::query::{
    all_entries, analysis_candidates, convert_id, exact_table, group_results, kanji_candidates,
    literal_to_kanji, lookup_table, prefix_table, retain_common,
};
use jpv_lib::database::sequences::SequenceTable;
use jpv_lib::database::stored;
use jpv_lib::database::wildcard::{parse_query, LookupQuery};
use jpv_lib::inflection::{conjugate, Reading};
use jpv_lib::jmdict::elements::{Entry, Glossary, KanjiElement, ReadingElement, Sense};
use jpv_lib::jmnedict;
use jpv_lib::kanjidic2::parser::Parser as KanjiParser;
use jpv_lib::entities::{Dialect, Entity, KanjiInfo};
use jpv_lib::PartOfSpeech;

fn sense<'a>(pos: Vec<PartOfSpeech>, gloss: Vec<Glossary<'a>>) -> Sense<'a> {
    Sense {
        xref: Vec::new(),
        gloss,
        info: None,
        stagk: Vec::new(),
        stagr: Vec::new(),
        source_language: Vec::new(),
        antonym: Vec::new(),
        examples: Vec::new(),
        pos,
        misc: Vec::new(),
        dialect: Vec::new(),
        field: Vec::new(),
    }
}

fn gloss<'a>(text: &'a str, ty: Option<&'a str>) -> Glossary<'a> {
    Glossary {
        text,
        ty,
        lang: None,
    }
}

fn reading(text: &str) -> ReadingElement<'_> {
    ReadingElement {
        text,
        no_kanji: false,
        reading_string: Vec::new(),
        priority: Vec::new(),
        info: Vec::new(),
    }
}

fn kanji(text: &str) -> KanjiElement<'_> {
    KanjiElement {
        text,
        priority: Vec::new(),
        info: Vec::new(),
    }
}

fn taberu<'a>() -> Entry<'a> {
    Entry {
        sequence: 1358280,
        reading_elements: vec![reading("たべる")],
        kanji_elements: vec![kanji("食べる")],
        senses: vec![sense(
            vec![PartOfSpeech::VerbIchidan],
            vec![gloss("to eat", None), gloss("eating food", Some("expl"))],
        )],
    }
}

fn keys(lookup: &[(String, stored::Id)]) -> Vec<&str> {
    lookup.iter().map(|(k, _)| k.as_str()).collect()
}

#[test]
fn phrase_text_keys_in_order() {
    let entry = taberu();
    assert!(phrase_is_indexable(&entry));
    let mut lookup = Vec::new();
    add_phrase_text_keys(&entry, 7, &mut lookup);
    assert_eq!(
        keys(&lookup),
        vec!["to eat", "たべる", "taberu", "タベル", "食べる"]
    );
    assert_eq!(lookup[0].1, stored::Id::phrase(7, PhraseIndex::Meaning));
    assert_eq!(lookup[1].1, stored::Id::phrase(7, PhraseIndex::Hiragana));
    assert_eq!(lookup[2].1, stored::Id::phrase(7, PhraseIndex::Romanized));
    assert_eq!(lookup[3].1, stored::Id::phrase(7, PhraseIndex::Katakana));
    assert_eq!(lookup[4].1, stored::Id::phrase(7, PhraseIndex::Kanji));
}

#[test]
fn full_width_spelling_has_half_width_key() {
    let entry = Entry {
        sequence: 1,
        reading_elements: Vec::new(),
        kanji_elements: vec![kanji("ＡＢＣ")],
        senses: Vec::new(),
    };
    let mut lookup = Vec::new();
    add_phrase_text_keys(&entry, 1, &mut lookup);
    assert_eq!(keys(&lookup), vec!["ABC", "ＡＢＣ"]);
    assert_eq!(lookup[0].1, stored::Id::phrase(1, PhraseIndex::KanjiHalf));
}

#[test]
fn glossary_with_nul_is_not_indexable() {
    let entry = Entry {
        sequence: 1,
        reading_elements: Vec::new(),
        kanji_elements: Vec::new(),
        senses: vec![sense(Vec::new(), vec![gloss("a\0b", None)])],
    };
    assert!(!phrase_is_indexable(&entry));
}

const KANJI: &str = r#"<?xml version="1.0" encoding="UTF-8"?>
<kanjidic2>
<header>
<file_version>4</file_version>
<database_version>2024-01</database_version>
<date_of_creation>2024-01-01</date_of_creation>
</header>
<character>
<literal>食</literal>
<codepoint>
<cp_value cp_type="ucs">98df</cp_value>
</codepoint>
<radical>
<rad_value rad_type="classical">184</rad_value>
</radical>
<misc>
<grade>2</grade>
<stroke_count>9</stroke_count>
</misc>
<reading_meaning>
<rmgroup>
<reading r_type="ja_on">ショク</reading>
<reading r_type="ja_kun">た.べる</reading>
<reading r_type="pinyin">shi2</reading>
<meaning>eat</meaning>
</rmgroup>
</reading_meaning>
</character>
</kanjidic2>
"#;

#[test]
fn character_keys_in_order() {
    let mut parser = KanjiParser::new(KANJI);
    let c = parser.parse().unwrap().unwrap();
    assert!(character_is_indexable(&c));
    let mut lookup = Vec::new();
    add_character_keys(&c, 3, &mut lookup);
    assert_eq!(
        keys(&lookup),
        vec![
            "食", "shoku", "しょく", "ショク", "ta", "タ", "た", "ta.beru", "タ.ベル", "た.べる",
            "shi2", "eat"
        ]
    );
    assert_eq!(lookup[0].1, stored::Id::kanji(3, KanjiIndex::Literal));
    assert_eq!(lookup[3].1, stored::Id::kanji(3, KanjiIndex::OnyomiKatakana));
    assert_eq!(lookup[6].1, stored::Id::kanji(3, KanjiIndex::KunyomiHiragana));
    assert_eq!(lookup[9].1, stored::Id::kanji(3, KanjiIndex::KunyomiFullHiragana));
    assert_eq!(lookup[10].1, stored::Id::kanji(3, KanjiIndex::Other));
    assert_eq!(lookup[11].1, stored::Id::kanji(3, KanjiIndex::Meaning));
}

#[test]
fn name_keys_in_order() {
    let entry = jmnedict::Entry {
        sequence: 5,
        kanji: vec!["山田"],
        reading: vec![jmnedict::Reading {
            text: "やまだ",
            priority: None,
        }],
        name_types: Vec::new(),
        translations: Vec::new(),
    };
    let mut lookup = Vec::new();
    add_name_keys(&entry, 9, &mut lookup);
    assert_eq!(keys(&lookup), vec!["山田", "やまだ", "yamada", "ヤマダ"]);
    assert_eq!(lookup[0].1, stored::Id::name(9, NameIndex::Literal));
    assert_eq!(lookup[3].1, stored::Id::name(9, NameIndex::Katakana));
}

#[test]
fn inflection_keys_share_positions() {
    let entry = taberu();
    let conjugations = conjugate(&entry);
    let mut table = InflectionTable::new();
    assert!(table.fits(&conjugations));
    let mut lookup = Vec::new();
    add_conjugation_keys(&conjugations, 4, &mut table, &mut lookup);
    let n = table.data().len();
    assert!(n > 10);
    let found = keys(&lookup);
    assert!(found.contains(&"食べない"));
    assert!(found.contains(&"たべない"));
    assert!(found.contains(&"tabenai"));
    assert!(found.contains(&"タベナイ"));
    for (_, id) in &lookup {
        assert_eq!(id.offset, 4);
        match id.source {
            stored::Source::Inflection { inflection } => assert!((inflection as usize) < n),
            _ => panic!("not an inflection"),
        }
    }
    // The same conjugations again add no new inflection data.
    let mut again = Vec::new();
    add_conjugation_keys(&conjugations, 5, &mut table, &mut again);
    assert_eq!(table.data().len(), n);
    assert_eq!(keys(&again), keys(&lookup));
    assert_eq!(table.data()[0].reading, Reading { kanji: 0, reading: 0 });
}

#[test]
fn inflection_table_positions() {
    let mut table = InflectionTable::new();
    let entry = taberu();
    let conjugations = conjugate(&entry);
    let first = conjugations[0].1.iter()[0].0;
    let second = conjugations[0].1.iter()[1].0;
    let a = InflectionData {
        reading: Reading { kanji: 0, reading: 0 },
        inflection: first,
    };
    let b = InflectionData {
        reading: Reading { kanji: 0, reading: 0 },
        inflection: second,
    };
    assert_eq!(table.position(a), 0);
    assert_eq!(table.position(b), 1);
    assert_eq!(table.position(a), 0);
    assert_eq!(table.data().len(), 2);
    assert_eq!(table.get(1), Some(b));
    assert_eq!(table.get(2), None);
    let copy = table.duplicate();
    assert_eq!(copy.data(), table.data());
}

#[test]
fn wildcard_queries() {
    assert!(matches!(parse_query("*"), LookupQuery::All));
    assert!(matches!(parse_query("＊*"), LookupQuery::All));
    assert!(matches!(parse_query(""), LookupQuery::All));
    assert!(matches!(parse_query("たべる"), LookupQuery::Exact("たべる")));
    let LookupQuery::Wildcard(q) = parse_query("た*る") else {
        panic!("expected a wildcard query");
    };
    assert_eq!(q.prefix, vec!['た']);
    assert_eq!(q.parts, vec![vec!['る']]);
    assert!(q.matches("たべる"));
    assert!(q.matches("たる"));
    assert!(!q.matches("たべた"));
    assert!(!q.matches("べる"));
    let LookupQuery::Wildcard(q) = parse_query("a*b**c＊") else {
        panic!("expected a wildcard query");
    };
    assert_eq!(q.prefix, vec!['a']);
    assert_eq!(q.parts, vec![vec!['b'], vec!['c']]);
    assert!(q.matches("axbxc"));
    assert!(q.matches("abc"));
    assert!(!q.matches("acb"));
    assert!(!q.matches("abcx"));
    let LookupQuery::Wildcard(q) = parse_query("*b") else {
        panic!("expected a wildcard query");
    };
    assert!(q.prefix.is_empty());
    assert!(q.matches("ab"));
    assert!(!q.matches("ba"));
}

#[test]
fn lookup_in_table() {
    let table = vec![
        ("たべる".to_string(), stored::Id::phrase(1, PhraseIndex::Hiragana)),
        ("たべた".to_string(), stored::Id::inflection(1, 0)),
        ("のむ".to_string(), stored::Id::phrase(2, PhraseIndex::Hiragana)),
        ("たべる".to_string(), stored::Id::kanji(3, KanjiIndex::Other)),
    ];
    let phrases = vec![1, 2];
    assert_eq!(
        lookup_table(&table, &phrases, "たべる"),
        vec![
            stored::Id::phrase(1, PhraseIndex::Hiragana),
            stored::Id::kanji(3, KanjiIndex::Other)
        ]
    );
    assert_eq!(
        lookup_table(&table, &phrases, "たべ*"),
        vec![
            stored::Id::phrase(1, PhraseIndex::Hiragana),
            stored::Id::inflection(1, 0),
            stored::Id::kanji(3, KanjiIndex::Other)
        ]
    );
    assert_eq!(
        lookup_table(&table, &phrases, "**"),
        vec![
            stored::Id::phrase(1, PhraseIndex::Entry),
            stored::Id::phrase(2, PhraseIndex::Entry)
        ]
    );
    assert!(lookup_table(&table, &phrases, "x").is_empty());
}

#[test]
fn convert_stored_ids() {
    let data = vec![InflectionData {
        reading: Reading { kanji: 0, reading: 1 },
        inflection: Default::default(),
    }];
    let id = convert_id(2, stored::Id::inflection(8, 0), &data).unwrap();
    assert_eq!(
        *id.source(),
        Source::Inflection { data: data[0] }
    );
    assert_eq!(id.key(), Id::new(2, 8, Source::Phrase { index: PhraseIndex::Entry }).key());
    assert!(convert_id(2, stored::Id::inflection(8, 1), &data).is_none());
    let id = convert_id(0, stored::Id::name(3, NameIndex::Romanized), &data).unwrap();
    assert_eq!(*id.source(), Source::Name { index: NameIndex::Romanized });
}

#[test]
fn search_results_combine() {
    let a = Id::new(0, 1, Source::Phrase { index: PhraseIndex::Hiragana });
    let b = Id::new(0, 1, Source::Phrase { index: PhraseIndex::Kanji });
    let c = Id::new(0, 2, Source::Phrase { index: PhraseIndex::Kanji });
    let d = Id::new(1, 1, Source::Name { index: NameIndex::Literal });
    let found = vec![Id::new(0, 1, Source::Phrase { index: PhraseIndex::Meaning }), d];
    let kept = retain_common(vec![a, c, b, d], &found);
    assert_eq!(kept, vec![a, b, d]);
    let groups = group_results(&vec![a, c, b, a, d]);
    assert_eq!(groups.len(), 3);
    assert_eq!(groups[0].0, a.key());
    assert_eq!(groups[0].1, vec![*a.source(), *b.source()]);
    assert_eq!(groups[1].0, c.key());
    assert_eq!(groups[1].1, vec![*c.source()]);
    assert_eq!(groups[2].0, d.key());
}

#[test]
fn kanji_candidates_of_search() {
    assert_eq!(kanji_candidates("食べるabcＡ山"), vec!['食', 'Ａ', '山']);
    assert!(kanji_candidates("たべるタベルxyz").is_empty());
}

#[test]
fn analysis_candidates_from_byte() {
    assert_eq!(analysis_candidates("食べる", 0), vec!["食べる", "食べ", "食"]);
    assert_eq!(analysis_candidates("食べる", 3), vec!["べる", "べ"]);
    assert!(analysis_candidates("食べる", 1).is_empty());
    assert!(analysis_candidates("食べる", 9).is_empty());
    assert!(analysis_candidates("食べる", 10).is_empty());
}

#[test]
fn indexed_phrase_is_found_by_reading_and_prefix() {
    let entry = taberu();
    let mut lookup = Vec::new();
    add_phrase_text_keys(&entry, 3, &mut lookup);
    let phrases = vec![3];
    let found = lookup_table(&lookup, &phrases, "たべる");
    assert!(found.contains(&stored::Id::phrase(3, PhraseIndex::Hiragana)));
    let found = lookup_table(&lookup, &phrases, "tab*");
    assert_eq!(found, vec![stored::Id::phrase(3, PhraseIndex::Romanized)]);
    let found = lookup_table(&lookup, &phrases, "食べる");
    assert_eq!(found, vec![stored::Id::phrase(3, PhraseIndex::Kanji)]);
}

#[test]
fn indexed_phrase_is_found_by_glossary() {
    let entry = taberu();
    let mut lookup = Vec::new();
    add_phrase_text_keys(&entry, 3, &mut lookup);
    let phrases = vec![3];
    let found = lookup_table(&lookup, &phrases, "to eat");
    assert_eq!(found, vec![stored::Id::phrase(3, PhraseIndex::Meaning)]);
    let found = lookup_table(&lookup, &phrases, "to *");
    assert_eq!(found, vec![stored::Id::phrase(3, PhraseIndex::Meaning)]);
    assert!(lookup_table(&lookup, &phrases, "eating food").is_empty());
}

#[test]
fn entities_of_a_search_filter_entries() {
    let mut entry = taberu();
    assert!(entry.contains_entities(&Vec::new()));
    assert!(entry.contains_entities(&vec![Entity::PartOfSpeech(PartOfSpeech::VerbIchidan)]));
    assert!(!entry.contains_entities(&vec![
        Entity::PartOfSpeech(PartOfSpeech::VerbIchidan),
        Entity::Dialect(Dialect::Brazilian),
    ]));
    assert!(!entry.contains_entity(Entity::KanjiInfo(KanjiInfo::Ateji)));
    entry.kanji_elements[0].info.push(KanjiInfo::Ateji);
    assert!(entry.contains_entity(Entity::KanjiInfo(KanjiInfo::Ateji)));
    let name = jmnedict::Entry {
        sequence: 5,
        kanji: vec!["山田"],
        reading: Vec::new(),
        name_types: Vec::new(),
        translations: Vec::new(),
    };
    assert!(name.contains_entities(&Vec::new()));
    assert!(!name.contains_entities(&vec![Entity::Dialect(Dialect::Brazilian)]));
}

#[test]
fn phrases_by_part_of_speech() {
    let mut table = Vec::new();
    let eat = taberu();
    let mut drink = taberu();
    drink.senses[0].pos = vec![PartOfSpeech::VerbGodanM, PartOfSpeech::VerbTransitive];
    let mut both = taberu();
    both.senses.push(sense(vec![PartOfSpeech::VerbTransitive], Vec::new()));
    add_pos_keys(&eat, 0, &mut table);
    add_pos_keys(&drink, 1, &mut table);
    add_pos_keys(&both, 2, &mut table);
    assert_eq!(
        table,
        vec![
            (PartOfSpeech::VerbIchidan, 0),
            (PartOfSpeech::VerbGodanM, 1),
            (PartOfSpeech::VerbTransitive, 1),
            (PartOfSpeech::VerbIchidan, 2),
            (PartOfSpeech::VerbTransitive, 2),
        ]
    );
    let phrases = vec![0, 1, 2];
    let meaning = |o| stored::Id::phrase(o, PhraseIndex::Meaning);
    assert_eq!(
        by_pos(&table, &phrases, &vec![PartOfSpeech::VerbTransitive]),
        vec![meaning(1), meaning(2)]
    );
    assert_eq!(
        by_pos(&table, &phrases, &vec![PartOfSpeech::VerbIchidan, PartOfSpeech::VerbTransitive]),
        vec![meaning(2)]
    );
    // A part of speech which no phrase has is passed over.
    assert_eq!(
        by_pos(&table, &phrases, &vec![PartOfSpeech::VerbIchidan, PartOfSpeech::Noun]),
        vec![meaning(0), meaning(2)]
    );
    assert!(by_pos(&table, &phrases, &vec![PartOfSpeech::Noun]).is_empty());
    assert!(by_pos(&table, &phrases, &Vec::new()).is_empty());
}

#[test]
fn prefix_lookup_in_table() {
    let table = vec![
        ("たべる".to_string(), stored::Id::phrase(1, PhraseIndex::Hiragana)),
        ("たべた".to_string(), stored::Id::inflection(1, 0)),
        ("のむ".to_string(), stored::Id::phrase(2, PhraseIndex::Hiragana)),
        ("た*".to_string(), stored::Id::phrase(3, PhraseIndex::Hiragana)),
    ];
    assert_eq!(
        prefix_table(&table, "たべ"),
        vec![
            stored::Id::phrase(1, PhraseIndex::Hiragana),
            stored::Id::inflection(1, 0)
        ]
    );
    assert_eq!(
        prefix_table(&table, "た*"),
        vec![stored::Id::phrase(3, PhraseIndex::Hiragana)]
    );
    assert_eq!(prefix_table(&table, "").len(), 4);
    assert_eq!(
        exact_table(&table, "た*"),
        vec![stored::Id::phrase(3, PhraseIndex::Hiragana)]
    );
    assert!(exact_table(&table, "たべ").is_empty());
    assert!(prefix_table(&table, "のむよ").is_empty());
}

#[test]
fn all_entries_of_an_index() {
    assert_eq!(
        all_entries(&vec![4, 9], &vec![2]),
        vec![
            stored::Id::phrase(4, PhraseIndex::Entry),
            stored::Id::phrase(9, PhraseIndex::Entry),
            stored::Id::kanji(2, KanjiIndex::Entry)
        ]
    );
    assert!(all_entries(&Vec::new(), &Vec::new()).is_empty());
}

#[test]
fn phrases_by_sequence_number() {
    let mut table = SequenceTable::new();
    assert!(table.sequence_to_id(1358280).is_none());
    table.insert(1358280, 4);
    table.insert(1000000, 5);
    let id = table.sequence_to_id(1358280).unwrap();
    assert_eq!(id, Id::new(0, 4, Source::Phrase { index: PhraseIndex::Entry }));
    // A sequence number is stored by its low 32 bits.
    table.insert((1u64 << 32) + 1000000, 6);
    assert_eq!(table.sequence_to_id(1000000).unwrap().key().offset(), 6);
}

#[test]
fn kanji_by_literal() {
    let table = vec![
        ("山".to_string(), stored::Id::kanji(1, KanjiIndex::Literal)),
        ("山".to_string(), stored::Id::kanji(2, KanjiIndex::Other)),
        ("山".to_string(), stored::Id::kanji(3, KanjiIndex::Literal)),
        ("山".to_string(), stored::Id::phrase(4, PhraseIndex::Kanji)),
        ("川".to_string(), stored::Id::kanji(5, KanjiIndex::Other)),
    ];
    assert_eq!(literal_to_kanji(&table, "山"), Some(3));
    assert_eq!(literal_to_kanji(&table, "川"), None);
    assert_eq!(literal_to_kanji(&table, "火"), None);
}
