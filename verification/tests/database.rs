use jpv_lib::database::analyze_glossary::analyze;
use jpv_lib::database::search_parser::SearchParser;
use jpv_lib::database::string_indexer::StringIndexer;
use jpv_lib::entities::Entity;
use jpv_lib::PartOfSpeech;

#[test]
fn test_basic() {
    assert_eq!(
        analyze("to read, to look (something (very) cool) sometimes").collect_all(),
        vec![
            "to",
            "to read",
            "to",
            "to look",
            "something",
            "very",
            "something (very)",
            "something (very) cool",
            "to look (something (very) cool)",
            "to look (something (very) cool) sometimes"
        ]
    );
}

#[test]
fn test_parse() {
    let mut parser =
        SearchParser::new("\t\thello world #v5s first tail phrase*, , ,,, second tail phrase\n\n");
    let query = parser.parse();

    assert_eq!(query.entities.len(), 1);
    assert_eq!(
        query.entities[0],
        Entity::PartOfSpeech(PartOfSpeech::VerbGodanS)
    );
    assert_eq!(query.phrases.len(), 3);
    assert_eq!(query.phrases[0], "hello world");
    assert_eq!(query.phrases[1], "first tail phrase*");
    assert_eq!(query.phrases[2], "second tail phrase");
}

#[test]
fn analyze_empty_and_single() {
    assert_eq!(analyze("   ").collect_all(), Vec::<&str>::new());
    assert_eq!(analyze("word").collect_all(), vec!["word"]);
    assert_eq!(analyze("a;b").collect_all(), vec!["a;b"]);
    assert_eq!(analyze("a, b").collect_all(), vec!["a", "b"]);
}

#[test]
fn parse_empty_query() {
    let mut parser = SearchParser::new("");
    let query = parser.parse();
    assert!(query.phrases.is_empty());
    assert!(query.entities.is_empty());
}

#[test]
fn parse_unknown_entity_is_skipped() {
    let mut parser = SearchParser::new("#nothing-like-this cat");
    let query = parser.parse();
    assert!(query.entities.is_empty());
    assert_eq!(query.phrases, vec!["cat"]);
}

#[test]
fn string_indexer_reuses_suffixes() {
    let mut buf: Vec<u8> = Vec::new();
    let mut indexer = StringIndexer::new();
    let a = indexer.store(&mut buf, "hello world");
    assert_eq!(a.offset, 0);
    assert_eq!(a.len, 11);
    let b = indexer.store(&mut buf, "world");
    assert_eq!(b.len, 5);
    assert_eq!(&buf[b.offset..b.offset + b.len], b"world");
    assert_eq!(buf.len(), 11);
    let c = indexer.store(&mut buf, "hello");
    assert_eq!(&buf[c.offset..c.offset + c.len], b"hello");
    assert_eq!(buf.len(), 11);
    let d = indexer.store(&mut buf, "other");
    assert_eq!(d.offset, 11);
    assert_eq!(buf.len(), 16);
    assert_eq!(indexer.total(), 4);
    assert_eq!(indexer.reuse(), 2);
}

#[test]
fn string_indexer_reuses_substrings() {
    let mut buf: Vec<u8> = Vec::new();
    let mut indexer = StringIndexer::new();
    indexer.store(&mut buf, "hello world");
    let a = indexer.store(&mut buf, "lo wo");
    assert_eq!(&buf[a.offset..a.offset + a.len], b"lo wo");
    assert_eq!(indexer.reuse(), 1);
    let b = indexer.store(&mut buf, "world!");
    assert_eq!(&buf[b.offset..b.offset + b.len], b"world!");
    assert_eq!(indexer.reuse(), 1);
    let c = indexer.store(&mut buf, "d!");
    assert_eq!(&buf[c.offset..c.offset + c.len], b"d!");
    assert_eq!(indexer.reuse(), 2);
    assert_eq!(indexer.total(), 4);
}

#[test]
fn glossary_terms_are_substrings() {
    let input = "  to look (at), to see  ";
    let trimmed = input.trim();
    for term in analyze(input).collect_all() {
        assert!(!term.is_empty());
        assert!(trimmed.contains(term));
    }
}

#[test]
fn search_phrases_in_order_with_entities() {
    let mut parser = SearchParser::new("dog, #v5s cat。 bird");
    let query = parser.parse();
    assert_eq!(query.phrases, vec!["dog", "cat", "bird"]);
    assert_eq!(
        query.entities,
        vec![Entity::PartOfSpeech(PartOfSpeech::VerbGodanS)]
    );
}
