use jpv_lib::jmdict::parser::Parser;
use jpv_lib::xml::ErrorKind;
use jpv_lib::PartOfSpeech;

const DOC: &str = r#"<?xml version="1.0" encoding="UTF-8"?>
<JMdict>
<entry>
<ent_seq>1358280</ent_seq>
<k_ele>
<keb>食べる</keb>
<ke_pri>ichi1</ke_pri>
</k_ele>
<r_ele>
<reb>たべる</reb>
<re_pri>ichi1</re_pri>
</r_ele>
<sense>
<pos>&v1;</pos>
<pos>&vt;</pos>
<gloss g_type="expl">to eat</gloss>
</sense>
</entry>
<entry>
<ent_seq>2</ent_seq>
<r_ele>
<reb>かな</reb>
<re_nokanji/>
</r_ele>
</entry>
</JMdict>
"#;

#[test]
fn parse_entries() {
    let mut parser = Parser::new(DOC);
    let entry = parser.parse().unwrap().unwrap();
    assert_eq!(entry.sequence, 1358280);
    assert_eq!(entry.kanji_elements.len(), 1);
    assert_eq!(entry.kanji_elements[0].text, "食べる");
    assert_eq!(entry.kanji_elements[0].priority.len(), 1);
    assert_eq!(entry.reading_elements[0].text, "たべる");
    assert!(!entry.reading_elements[0].no_kanji);
    assert_eq!(entry.senses.len(), 1);
    assert_eq!(
        entry.senses[0].pos,
        vec![PartOfSpeech::VerbIchidan, PartOfSpeech::VerbTransitive]
    );
    assert_eq!(entry.senses[0].gloss[0].text, "to eat");
    assert_eq!(entry.senses[0].gloss[0].ty, Some("expl"));
    let entry = parser.parse().unwrap().unwrap();
    assert_eq!(entry.sequence, 2);
    assert!(entry.reading_elements[0].no_kanji);
    assert!(parser.parse().unwrap().is_none());
}

#[test]
fn parse_rejects_unknown_element() {
    let mut parser = Parser::new("<JMdict><entry><nothing/></entry></JMdict>");
    let error = parser.parse().unwrap_err();
    assert_eq!(error.kind, ErrorKind::UnexpectedElement);
    assert_eq!(error.path, "JMdict/entry/nothing");
}

#[test]
fn parse_rejects_entry_without_sequence() {
    let mut parser = Parser::new("<JMdict><entry></entry></JMdict>");
    assert_eq!(parser.parse().unwrap_err().kind, ErrorKind::MissingSequence);
}

#[test]
fn parse_rejects_duplicate_text_and_bad_entities() {
    let mut parser =
        Parser::new("<JMdict><entry><ent_seq>1</ent_seq><ent_seq>2</ent_seq></entry></JMdict>");
    assert_eq!(parser.parse().unwrap_err().kind, ErrorKind::DuplicateValue);
    let mut parser = Parser::new(
        "<JMdict><entry><ent_seq>1</ent_seq><sense><pos>&nope;</pos></sense></entry></JMdict>",
    );
    assert_eq!(parser.parse().unwrap_err().kind, ErrorKind::InvalidEntity);
    let mut parser = Parser::new("<JMdict><entry><ent_seq>x1</ent_seq></entry></JMdict>");
    assert_eq!(parser.parse().unwrap_err().kind, ErrorKind::InvalidNumber);
}

#[test]
fn parse_rejects_truncated_document() {
    let mut parser = Parser::new("<JMdict><entry><ent_seq>1</ent_seq>");
    assert!(parser.parse().is_err());
    let mut parser = Parser::new("");
    assert!(parser.parse().unwrap().is_none());
}

#[test]
fn parse_keeps_each_set_value_once() {
    let doc = r#"<JMdict>
<entry>
<ent_seq>7</ent_seq>
<r_ele>
<reb>たべる</reb>
<re_restr>食べる</re_restr>
<re_restr>食べる</re_restr>
</r_ele>
<sense>
<pos>&v1;</pos>
<pos>&vt;</pos>
<pos>&v1;</pos>
</sense>
</entry>
</JMdict>
"#;
    let mut parser = Parser::new(doc);
    let entry = parser.parse().unwrap().unwrap();
    assert_eq!(entry.reading_elements[0].reading_string, vec!["食べる"]);
    assert_eq!(
        entry.senses[0].pos,
        vec![PartOfSpeech::VerbIchidan, PartOfSpeech::VerbTransitive]
    );
}
