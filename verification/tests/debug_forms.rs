use jpv_lib::entities::{Dialect, Field, KanjiInfo, Miscellaneous, ReadingInfo};
use jpv_lib::jmdict::elements::{KanjiElement, ReadingElement, Sense, SourceLanguage};
use jpv_lib::priority::{Priority, PriorityKind};
use jpv_lib::PartOfSpeech;

fn empty_sense<'a>() -> Sense<'a> {
    Sense {
        xref: Vec::new(),
        gloss: Vec::new(),
        info: None,
        stagk: Vec::new(),
        stagr: Vec::new(),
        source_language: Vec::new(),
        antonym: Vec::new(),
        examples: Vec::new(),
        pos: Vec::new(),
        misc: Vec::new(),
        dialect: Vec::new(),
        field: Vec::new(),
    }
}

#[test]
fn kanji_element_sparse_debug() {
    let mut k = KanjiElement {
        text: "食べる",
        priority: Vec::new(),
        info: Vec::new(),
    };
    assert_eq!(k.debug_sparse(), "KanjiElement { text: \"食べる\", .. }");
    k.priority.push(Priority::new(12, PriorityKind::WordFrequency));
    k.priority.push(Priority::new(1, PriorityKind::Ichi));
    k.info.push(KanjiInfo::Ateji);
    assert_eq!(
        k.debug_sparse(),
        "KanjiElement { text: \"食べる\", priority: [Priority { level: 12, kind: WordFrequency }, \
         Priority { level: 1, kind: Ichi }], info: {Ateji}, .. }"
    );
}

#[test]
fn reading_element_sparse_debug() {
    let mut r = ReadingElement {
        text: "たべる",
        no_kanji: false,
        reading_string: Vec::new(),
        priority: Vec::new(),
        info: Vec::new(),
    };
    assert_eq!(r.debug_sparse(), "ReadingElement { text: \"たべる\", .. }");
    r.no_kanji = true;
    r.reading_string.push("食べる");
    r.info.push(ReadingInfo::SearchOnlyKana);
    assert_eq!(
        r.debug_sparse(),
        "ReadingElement { text: \"たべる\", no_kanji: true, reading_string: {\"食べる\"}, \
         info: {SearchOnlyKana}, .. }"
    );
}

#[test]
fn sense_sparse_debug() {
    let mut s = empty_sense();
    assert_eq!(s.debug_sparse(), "Sense { .. }");
    s.pos = vec![PartOfSpeech::VerbIchidan, PartOfSpeech::VerbTransitive];
    s.info = Some("say \"hi\"");
    s.misc = vec![Miscellaneous::Archaic];
    s.dialect = vec![Dialect::Brazilian];
    s.field = vec![Field::Zoology];
    s.antonym = vec!["a", "b"];
    s.source_language = vec![SourceLanguage {
        text: None,
        lang: Some("eng"),
        waseigo: false,
        ty: None,
    }];
    assert_eq!(
        s.debug_sparse(),
        "Sense { pos: {VerbIchidan, VerbTransitive}, info: \"say \\\"hi\\\"\", misc: {Archaic}, \
         dialect: {Brazilian}, fields: {Zoology}, source_language: [SourceLanguage { lang: \"eng\", \
         lang: false, .. }], antonym: [\"a\", \"b\"], .. }"
    );
}

#[test]
fn sense_sparse_debug_lists_sets_in_declaration_order() {
    let mut s = empty_sense();
    s.pos = vec![
        PartOfSpeech::VerbTransitive,
        PartOfSpeech::VerbIchidan,
        PartOfSpeech::VerbTransitive,
    ];
    assert_eq!(s.debug_sparse(), "Sense { pos: {VerbIchidan, VerbTransitive}, .. }");
}
