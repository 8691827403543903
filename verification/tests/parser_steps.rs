use jpv_lib::entities::{NameType, PartOfSpeech};
use jpv_lib::jmdict::parser::Parser as JmdictParser;
use jpv_lib::jmnedict::parser::Parser as NameParser;
use jpv_lib::kanjidic2::parser::{Closed, Parser as KanjiParser};
use jpv_lib::xml::{output_of, ErrorKind, Output, XmlToken};

#[test]
fn jmdict_steps_build_an_entry() {
    let mut p = JmdictParser::new("");
    assert_eq!(p.open("JMdict"), Ok(()));
    assert_eq!(p.open("entry"), Ok(()));
    assert_eq!(p.open("ent_seq"), Ok(()));
    assert_eq!(p.text("42"), Ok(()));
    assert!(matches!(p.close(), Ok(None)));
    assert_eq!(p.open("r_ele"), Ok(()));
    assert_eq!(p.open("reb"), Ok(()));
    assert_eq!(p.text("かな"), Ok(()));
    assert!(matches!(p.close(), Ok(None)));
    assert_eq!(p.open("re_pri"), Ok(()));
    assert_eq!(p.text("ichi1"), Ok(()));
    assert!(matches!(p.close(), Ok(None)));
    assert!(matches!(p.close(), Ok(None)));
    assert_eq!(p.open("sense"), Ok(()));
    assert_eq!(p.open("pos"), Ok(()));
    assert_eq!(p.text("&v1;"), Ok(()));
    assert!(matches!(p.close(), Ok(None)));
    assert_eq!(p.open("pos"), Ok(()));
    assert_eq!(p.text("&v1;"), Ok(()));
    assert!(matches!(p.close(), Ok(None)));
    assert_eq!(p.open("gloss"), Ok(()));
    assert_eq!(p.attribute("g_type", "expl"), Ok(()));
    assert_eq!(p.text("word"), Ok(()));
    assert!(matches!(p.close(), Ok(None)));
    assert!(matches!(p.close(), Ok(None)));
    let entry = p.close().unwrap().unwrap();
    assert_eq!(entry.sequence, 42);
    assert_eq!(entry.reading_elements.len(), 1);
    assert_eq!(entry.reading_elements[0].text, "かな");
    assert_eq!(entry.reading_elements[0].priority.len(), 1);
    assert_eq!(entry.senses[0].pos, vec![PartOfSpeech::VerbIchidan]);
    assert_eq!(entry.senses[0].gloss[0].text, "word");
    assert_eq!(entry.senses[0].gloss[0].ty, Some("expl"));
    assert!(matches!(p.feed(Output::Close), Ok(None)));
    assert!(matches!(p.feed(Output::Eof), Ok(None)));
}

#[test]
fn jmdict_step_errors() {
    let mut p = JmdictParser::new("");
    assert_eq!(p.text("x"), Err(ErrorKind::UnexpectedText));
    assert_eq!(p.open("entry"), Err(ErrorKind::UnexpectedElement));
    assert_eq!(p.open("JMdict"), Ok(()));
    assert_eq!(p.open("entry"), Ok(()));
    assert_eq!(p.open("r_ele"), Ok(()));
    assert_eq!(p.attribute("g_type", "x"), Err(ErrorKind::UnexpectedAttribute));
    assert_eq!(p.open("re_pri"), Ok(()));
    assert_eq!(p.text("often"), Ok(()));
    assert_eq!(p.text("again"), Err(ErrorKind::DuplicateValue));
    assert!(matches!(p.close(), Err(ErrorKind::InvalidPriority)));
    assert!(matches!(p.close(), Err(ErrorKind::MissingText)));
    assert!(matches!(p.close(), Err(ErrorKind::MissingSequence)));
    assert!(matches!(p.feed(Output::Eof), Err(ErrorKind::UnexpectedEof)));
}

#[test]
fn jmnedict_steps_build_a_name() {
    let mut p = NameParser::new("");
    assert_eq!(p.open("JMnedict"), Ok(()));
    assert_eq!(p.open("entry"), Ok(()));
    assert_eq!(p.open("ent_seq"), Ok(()));
    assert_eq!(p.text("7"), Ok(()));
    assert!(matches!(p.close(Some("ent_seq")), Ok(None)));
    assert_eq!(p.open("trans"), Ok(()));
    assert_eq!(p.open("name_type"), Ok(()));
    assert_eq!(p.text("&surname;"), Ok(()));
    assert!(matches!(p.close(None), Ok(None)));
    assert_eq!(p.open("trans_det"), Ok(()));
    assert_eq!(p.text("Yamada"), Ok(()));
    assert!(matches!(p.close(Some("k_ele")), Err(ErrorKind::MismatchedClose)));
    assert!(matches!(p.close(Some("trans")), Ok(None)));
    let entry = p.close(Some("entry")).unwrap().unwrap();
    assert_eq!(entry.sequence, 7);
    assert_eq!(entry.name_types, vec![NameType::Surname]);
    assert!(entry.translations.is_empty());
}

#[test]
fn kanjidic2_steps_build_a_character() {
    let mut p = KanjiParser::new("");
    assert_eq!(p.open("kanjidic2"), Ok(()));
    assert_eq!(p.open("character"), Ok(()));
    assert_eq!(p.open("literal"), Ok(()));
    assert_eq!(p.text("亜"), Ok(()));
    assert!(matches!(p.close(), Ok(Closed::Element)));
    assert_eq!(p.open("misc"), Ok(()));
    assert_eq!(p.open("stroke_count"), Ok(()));
    assert_eq!(p.text("7"), Ok(()));
    assert!(matches!(p.close(), Ok(Closed::Element)));
    assert_eq!(p.open("grade"), Ok(()));
    assert_eq!(p.text("300"), Ok(()));
    assert!(matches!(p.close(), Err(ErrorKind::InvalidNumber)));
    assert!(matches!(p.close(), Ok(Closed::Element)));
    assert_eq!(p.open("reading_meaning"), Ok(()));
    assert_eq!(p.open("rmgroup"), Ok(()));
    assert_eq!(p.open("reading"), Ok(()));
    assert_eq!(p.attribute("r_type", "ja_on"), Ok(()));
    assert_eq!(p.attribute("m_lang", "fr"), Err(ErrorKind::UnexpectedAttribute));
    assert_eq!(p.text("ア"), Ok(()));
    assert!(matches!(p.close(), Ok(Closed::Element)));
    assert!(matches!(p.close(), Ok(Closed::Element)));
    assert!(matches!(p.close(), Ok(Closed::Element)));
    match p.close() {
        Ok(Closed::Character(c)) => {
            assert_eq!(c.literal, "亜");
            assert_eq!(c.misc.stroke_counts, vec![7]);
            assert_eq!(c.misc.grade, None);
            assert_eq!(c.readings.len(), 1);
            assert_eq!(c.readings[0].text, "ア");
            assert_eq!(c.readings[0].ty, "ja_on");
        }
        _ => panic!("expected a character"),
    }
    assert!(matches!(p.close(), Ok(Closed::Root)));
}

#[test]
fn tokens_give_outputs() {
    assert!(output_of(XmlToken::Text(" \n ")).is_none());
    assert!(matches!(output_of(XmlToken::Text(" a ")), Some(Output::Text(" a "))));
    assert!(matches!(output_of(XmlToken::Cdata("b")), Some(Output::Text("b"))));
    assert!(matches!(output_of(XmlToken::ElementStart("x")), Some(Output::Open("x"))));
    assert!(matches!(output_of(XmlToken::ElementClose(None)), Some(Output::Close)));
    assert!(matches!(
        output_of(XmlToken::Attribute("k", "v")),
        Some(Output::Attribute("k", "v"))
    ));
    assert!(output_of(XmlToken::Comment).is_none());
    assert!(output_of(XmlToken::Prolog).is_none());
}
