use jpv_lib::entities::NameType;
use jpv_lib::jmnedict::Parser;
use jpv_lib::xml::ErrorKind;

const DOC: &str = r#"<?xml version="1.0" encoding="UTF-8"?>
<!-- names -->
<JMnedict>
<entry>
<ent_seq>5000000</ent_seq>
<k_ele>
<keb>山田</keb>
</k_ele>
<r_ele>
<reb>やまだ</reb>
</r_ele>
<trans>
<name_type>&surname;</name_type>
<trans_det>Yamada</trans_det>
</trans>
</entry>
</JMnedict>
"#;

#[test]
fn parse_name() {
    let mut parser = Parser::new(DOC);
    let entry = parser.next().unwrap().unwrap();
    assert_eq!(entry.sequence, 5000000);
    assert_eq!(entry.kanji, vec!["山田"]);
    assert_eq!(entry.reading[0].text, "やまだ");
    assert_eq!(entry.reading[0].priority, None);
    assert_eq!(entry.name_types, vec![NameType::Surname]);
    assert_eq!(entry.translations[0].text, "Yamada");
    assert!(parser.next().unwrap().is_none());
}

#[test]
fn parse_rejects_mismatched_close_and_attributes() {
    let mut parser = Parser::new("<JMnedict><entry><ent_seq>1</k_ele></entry></JMnedict>");
    assert_eq!(parser.next().unwrap_err().kind, ErrorKind::MismatchedClose);
    let mut parser = Parser::new("<JMnedict><entry><ent_seq a=\"b\">1</ent_seq></entry></JMnedict>");
    assert_eq!(parser.next().unwrap_err().kind, ErrorKind::UnsupportedToken);
    let mut parser = Parser::new("<JMnedict><entry>");
    assert_eq!(parser.next().unwrap_err().kind, ErrorKind::UnexpectedEof);
}
