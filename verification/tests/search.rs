use jpv_lib::database::index::{Id, InflectionData, KanjiIndex, PhraseIndex, Source};
use jpv_lib::database::search::IndexTable;
use jpv_lib::database::stored;
use jpv_lib::inflection::Reading;

fn table() -> IndexTable {
    IndexTable {
        lookup: vec![
            ("たべる".to_string(), stored::Id::phrase(1, PhraseIndex::Hiragana)),
            ("たべた".to_string(), stored::Id::inflection(1, 0)),
            ("eat".to_string(), stored::Id::phrase(1, PhraseIndex::Meaning)),
            ("のむ".to_string(), stored::Id::phrase(2, PhraseIndex::Hiragana)),
            ("eat".to_string(), stored::Id::phrase(2, PhraseIndex::Meaning)),
            ("たべる".to_string(), stored::Id::kanji(3, KanjiIndex::Other)),
            ("broken".to_string(), stored::Id::inflection(4, 7)),
        ],
        phrases: vec![1, 2],
        inflections: vec![InflectionData {
            reading: Reading { kanji: 0, reading: 1 },
            inflection: Default::default(),
        }],
    }
}

#[test]
fn index_table_lookup_converts_ids() {
    let t = table();
    let found = t.lookup("たべ*").unwrap();
    assert_eq!(
        found,
        vec![
            Id::new(0, 1, Source::Phrase { index: PhraseIndex::Hiragana }),
            Id::new(0, 1, Source::Inflection { data: t.inflections[0] }),
            Id::new(0, 3, Source::Kanji { index: KanjiIndex::Other }),
        ]
    );
    assert!(t.lookup("nothing").unwrap().is_empty());
}

#[test]
fn index_table_lookup_missing_inflection() {
    assert!(table().lookup("broken").is_none());
}

#[test]
fn index_table_search_keeps_common_entries() {
    let t = table();
    let groups = t.search("eat, たべ*").unwrap();
    assert_eq!(groups.len(), 1);
    assert_eq!(groups[0].0, Id::new(0, 1, Source::Phrase { index: PhraseIndex::Meaning }).key());
    assert_eq!(
        groups[0].1,
        vec![Source::Phrase { index: PhraseIndex::Meaning }]
    );
    let groups = t.search("eat").unwrap();
    assert_eq!(groups.len(), 2);
    assert!(t.search("").unwrap().is_empty());
    assert!(t.search("eat, broken").is_none());
}
