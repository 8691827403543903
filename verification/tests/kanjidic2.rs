use jpv_lib::kanjidic2::Parser;
use jpv_lib::xml::ErrorKind;

const DOC: &str = r#"<?xml version="1.0" encoding="UTF-8"?>
<kanjidic2>
<header>
<file_version>4</file_version>
<database_version>2024-01</database_version>
<date_of_creation>2024-01-01</date_of_creation>
</header>
<character>
<literal>亜</literal>
<codepoint>
<cp_value cp_type="ucs">4e9c</cp_value>
</codepoint>
<radical>
<rad_value rad_type="classical">7</rad_value>
</radical>
<misc>
<grade>8</grade>
<stroke_count>7</stroke_count>
<freq>1509</freq>
<jlpt>1</jlpt>
</misc>
<dic_number>
<dic_ref dr_type="nelson_c">43</dic_ref>
</dic_number>
<query_code>
<q_code qc_type="skip">4-7-1</q_code>
</query_code>
<reading_meaning>
<rmgroup>
<reading r_type="ja_on">ア</reading>
<meaning>Asia</meaning>
<meaning m_lang="fr">Asie</meaning>
</rmgroup>
<nanori>や</nanori>
</reading_meaning>
</character>
</kanjidic2>
"#;

#[test]
fn parse_character() {
    let mut parser = Parser::new(DOC);
    let c = parser.parse().unwrap().unwrap();
    assert_eq!(c.literal, "亜");
    assert_eq!(c.code_point[0].text, "4e9c");
    assert_eq!(c.code_point[0].ty, "ucs");
    assert_eq!(c.radical[0].text, "7");
    assert_eq!(c.misc.grade, Some(8));
    assert_eq!(c.misc.stroke_counts, vec![7]);
    assert_eq!(c.misc.freq, Some(1509));
    assert_eq!(c.misc.jlpt, Some(1));
    assert_eq!(c.dictionary_references[0].ty, "nelson_c");
    assert_eq!(c.query_codes[0].text, "4-7-1");
    assert_eq!(c.readings[0].text, "ア");
    assert_eq!(c.meanings.len(), 2);
    assert_eq!(c.meanings[0].lang, None);
    assert_eq!(c.meanings[1].lang, Some("fr"));
    assert_eq!(c.nanori, vec!["や"]);
    assert!(parser.parse().unwrap().is_none());
}

#[test]
fn parse_rejects_bad_grade_and_unknown_tags() {
    let mut parser = Parser::new(
        "<kanjidic2><character><literal>亜</literal><misc><grade>x</grade></misc></character></kanjidic2>",
    );
    assert_eq!(parser.parse().unwrap_err().kind, ErrorKind::InvalidNumber);
    let mut parser = Parser::new("<kanjidic2><nothing/></kanjidic2>");
    assert_eq!(parser.parse().unwrap_err().kind, ErrorKind::UnexpectedElement);
    let mut parser = Parser::new("<kanjidic2><character></character></kanjidic2>");
    assert_eq!(parser.parse().unwrap_err().kind, ErrorKind::MissingText);
}
